use typed_builder::emit::render;
use typed_builder::field_info::{
    map_only_one, Attr, DefaultError, DefaultKind, FieldError, FieldInfo, ParsedField,
};
use typed_builder::idents::{
    builder_ident, helper_method_ident, helper_trait_ident, marker_ident, phantom_field_ident,
};
use typed_builder::struct_info::{Generics, LifetimeDef, StructDecl, StructInfo, TyParamDef};

fn s(x: &str) -> String {
    x.to_string()
}

fn no_generics() -> Generics {
    Generics { lifetimes: Vec::new(), ty_params: Vec::new(), where_clause: None }
}

fn field(name: &str, ty: &str, attrs: Vec<Attr>) -> ParsedField {
    ParsedField { ident: Some(s(name)), ty: s(ty), attrs }
}

fn plan(name: &str, vis: Option<&str>, fields: Vec<ParsedField>) -> StructInfo {
    let decl = StructDecl {
        vis: vis.map(|v| s(v)),
        name: s(name),
        generics: no_generics(),
    };
    StructInfo::new(decl, &fields).expect("plan")
}

fn all_artifacts(info: &StructInfo) -> Vec<String> {
    let mut out = info.builder_creation_impl();
    out.extend(info.conversion_helper_impl());
    out.extend(info.build_method_impl());
    for f in &info.fields {
        out.extend(info.field_impl(f));
    }
    out
}

#[test]
fn derived_identifiers_exact() {
    assert_eq!(marker_ident("x"), "_TypedBuilder_genericType__x_");
    assert_eq!(builder_ident("Foo"), "FooBuilder");
    assert_eq!(
        helper_trait_ident("Foo"),
        "_TypedBuilder__conversionHelperTraitFor_Foo"
    );
    assert_eq!(
        helper_method_ident("Foo"),
        "_TypedBuilder__conversionHelperMethodFor_Foo"
    );
    assert_eq!(phantom_field_ident(), "_TypedBuilder__phantomGenerics_");
}

#[test]
fn field_without_attrs_is_required() {
    let f = FieldInfo::new(3, &field("x", "i32", vec![])).expect("ok");
    assert_eq!(f.ordinal, 3);
    assert_eq!(f.name, "x");
    assert_eq!(f.generic_ident, "_TypedBuilder_genericType__x_");
    assert_eq!(f.ty, "i32");
    assert!(matches!(f.default, DefaultKind::Required));
}

#[test]
fn nameless_field_rejected() {
    let pf = ParsedField { ident: None, ty: s("i32"), attrs: vec![] };
    assert!(matches!(FieldInfo::new(0, &pf), Err(FieldError::NamelessField)));
}

#[test]
fn bare_default_accepted() {
    let f = FieldInfo::new(0, &field("y", "i32", vec![Attr::Word(s("default"))])).expect("ok");
    assert!(matches!(f.default, DefaultKind::StdDefault));
}

#[test]
fn string_default_reparsed_as_expression() {
    let f = FieldInfo::new(
        0,
        &field("x", "i32", vec![Attr::NameValueStr(s("default"), s("21 + 21"))]),
    )
    .expect("ok");
    match f.default {
        DefaultKind::Expr(e) => assert_eq!(e, "21 + 21"),
        other => panic!("expected expression default, got {:?}", other),
    }
}

#[test]
fn unparseable_default_rejected() {
    let r = FieldInfo::new(
        0,
        &field("x", "i32", vec![Attr::NameValueStr(s("default"), s("21 +"))]),
    );
    match r {
        Err(FieldError::ExpressionUnparseable(name)) => assert_eq!(name, "x"),
        other => panic!("expected unparseable fault, got {:?}", other),
    }
}

#[test]
fn list_form_default_rejected() {
    let r = FieldInfo::new(0, &field("x", "i32", vec![Attr::List(s("default"))]));
    match r {
        Err(FieldError::ListFormNotPermitted(name)) => assert_eq!(name, "x"),
        other => panic!("expected list-form fault, got {:?}", other),
    }
}

#[test]
fn non_string_default_value_rejected() {
    let r = FieldInfo::new(0, &field("x", "i32", vec![Attr::NameValueOther(s("default"))]));
    assert!(matches!(r, Err(FieldError::ListFormNotPermitted(_))));
}

#[test]
fn two_defaults_rejected() {
    let r = FieldInfo::new(
        0,
        &field(
            "x",
            "i32",
            vec![Attr::Word(s("default")), Attr::NameValueStr(s("default"), s("1"))],
        ),
    );
    match r {
        Err(FieldError::MultipleDefaults(name)) => assert_eq!(name, "x"),
        other => panic!("expected multiple-defaults fault, got {:?}", other),
    }
}

#[test]
fn unrelated_attributes_ignored() {
    let f = FieldInfo::new(
        0,
        &field(
            "x",
            "i32",
            vec![
                Attr::Word(s("dismiss")),
                Attr::List(s("cfg")),
                Attr::NameValueStr(s("doc"), s("a field")),
                Attr::NameValueOther(s("align")),
            ],
        ),
    )
    .expect("ok");
    assert!(matches!(f.default, DefaultKind::Required));
}

#[test]
fn map_only_one_finds_single_match() {
    let items: Vec<i32> = vec![-3, 7, -1];
    let r = map_only_one(&items, |x: &i32| {
        if *x > 0 {
            Ok(Some(*x))
        } else {
            Ok(None)
        }
    });
    assert_eq!(r, Ok(Some(7)));
}

#[test]
fn map_only_one_empty_input() {
    let items: Vec<i32> = vec![];
    let r = map_only_one(&items, |x: &i32| {
        if *x > 0 {
            Ok(Some(*x))
        } else {
            Ok(None)
        }
    });
    assert_eq!(r, Ok(None));
}

#[test]
fn map_only_one_none_match() {
    let items: Vec<i32> = vec![-3, -1];
    let r = map_only_one(&items, |x: &i32| {
        if *x > 0 {
            Ok(Some(*x))
        } else {
            Ok(None)
        }
    });
    assert_eq!(r, Ok(None));
}

#[test]
fn map_only_one_two_matches_fault() {
    let items: Vec<i32> = vec![2, 5];
    let r = map_only_one(&items, |x: &i32| {
        if *x > 0 {
            Ok(Some(*x))
        } else {
            Ok(None)
        }
    });
    assert_eq!(r, Err(DefaultError::MultipleDefaults));
}

#[test]
fn map_only_one_propagates_fault() {
    let items: Vec<i32> = vec![1, 0];
    let r = map_only_one(&items, |x: &i32| {
        if *x == 0 {
            Err(DefaultError::ListFormNotPermitted)
        } else {
            Ok(Some(*x))
        }
    });
    assert_eq!(r, Err(DefaultError::ListFormNotPermitted));
}

#[test]
fn plan_derives_names() {
    let info = plan("Foo", Some("pub"), vec![field("x", "i32", vec![])]);
    assert_eq!(info.name, "Foo");
    assert_eq!(info.builder_name, "FooBuilder");
    assert_eq!(
        info.conversion_helper_trait_name,
        "_TypedBuilder__conversionHelperTraitFor_Foo"
    );
    assert_eq!(
        info.conversion_helper_method_name,
        "_TypedBuilder__conversionHelperMethodFor_Foo"
    );
    assert_eq!(info.fields.len(), 1);
    assert_eq!(info.fields[0].ordinal, 0);
}

#[test]
fn plan_reports_first_bad_field() {
    let fields = vec![
        field("x", "i32", vec![]),
        ParsedField { ident: None, ty: s("i32"), attrs: vec![] },
        field("y", "i32", vec![Attr::List(s("default"))]),
    ];
    let decl = StructDecl { vis: None, name: s("Foo"), generics: no_generics() };
    assert!(matches!(StructInfo::new(decl, &fields), Err(FieldError::NamelessField)));
}

#[test]
fn single_field_record_chunks_exact() {
    let info = plan("Foo", None, vec![field("x", "i32", vec![])]);
    let entry = info.builder_creation_impl();
    let expected: Vec<&str> = vec![
        "impl", "Foo", "{", "#[allow(dead_code)]", "fn", "builder", "(", ")", "->", "FooBuilder",
        "<", "()", ">", "{", "FooBuilder", "{", "_TypedBuilder__phantomGenerics_", ":",
        "::std::default::Default::default()", ",", "x", ":", "()", "}", "}", "}",
        "#[allow(dead_code, non_camel_case_types, non_snake_case)]", "struct", "FooBuilder", "<",
        "_TypedBuilder_genericType__x_", ">", "{", "_TypedBuilder__phantomGenerics_", ":", "(",
        ")", ",", "x", ":", "_TypedBuilder_genericType__x_", "}",
    ];
    assert_eq!(entry, expected.iter().map(|c| c.to_string()).collect::<Vec<String>>());

    let build = info.build_method_impl();
    let expected_build: Vec<&str> = vec![
        "#[allow(dead_code, non_camel_case_types)]", "impl", "FooBuilder", "<", "(i32,)", ">",
        "{", "pub", "fn", "build", "(", "self", ")", "->", "Foo", "{", "Foo", "{", "x", ":",
        "self", ".", "x", ".", "0", "}", "}", "}",
    ];
    assert_eq!(build, expected_build.iter().map(|c| c.to_string()).collect::<Vec<String>>());

    let setter = info.field_impl(&info.fields[0]);
    let expected_setter: Vec<&str> = vec![
        "#[allow(dead_code, non_camel_case_types)]", "impl", "FooBuilder", "<", "()", ">", "{",
        "pub", "fn", "x", "<",
        "_TypedBuilder_genericType__x_: ::std::convert::Into<i32>", ">", "(", "self", ",",
        "value", ":", "_TypedBuilder_genericType__x_", ")", "->", "FooBuilder", "<", "(i32,)",
        ">", "{", "FooBuilder", "{", "_TypedBuilder__phantomGenerics_", ":", "self", ".",
        "_TypedBuilder__phantomGenerics_", ",", "x", ":", "(value.into(),)", ",", "}", "}", "}",
    ];
    assert_eq!(setter, expected_setter.iter().map(|c| c.to_string()).collect::<Vec<String>>());
}

#[test]
fn generated_group_parses_as_declarations() {
    let info = plan(
        "Foo",
        Some("pub"),
        vec![
            field("x", "i32", vec![]),
            field("y", "String", vec![]),
            field("z", "i32", vec![Attr::Word(s("default"))]),
            field("w", "i32", vec![Attr::NameValueStr(s("default"), s("21 + 21"))]),
        ],
    );
    let src = render(&all_artifacts(&info));
    syn::parse_file(&src).expect("generated declarations must parse");
}

#[test]
fn generic_record_passes_generics_through() {
    let generics = Generics {
        lifetimes: vec![LifetimeDef { decl: s("'a"), name: s("'a") }],
        ty_params: vec![TyParamDef { decl: s("T: Clone"), name: s("T") }],
        where_clause: Some(s("where T: ::std::fmt::Debug")),
    };
    let decl = StructDecl { vis: Some(s("pub")), name: s("Rec"), generics };
    let fields = vec![field("item", "&'a T", vec![]), field("count", "usize", vec![])];
    let info = StructInfo::new(decl, &fields).expect("plan");
    let chunks = all_artifacts(&info);
    let src = render(&chunks);
    syn::parse_file(&src).expect("generated declarations must parse");
    assert!(chunks.iter().filter(|c| c.as_str() == "T: Clone").count() >= 4);
    assert!(chunks.iter().filter(|c| c.as_str() == "where T: ::std::fmt::Debug").count() >= 4);
    assert!(chunks.iter().any(|c| c.as_str() == "::std::marker::PhantomData<&'a ()>"));
    assert!(chunks.iter().any(|c| c.as_str() == "::std::marker::PhantomData<T>"));
}

#[test]
fn defaulted_field_bound_emitted() {
    let info = plan(
        "Conf",
        None,
        vec![field("x", "i32", vec![]), field("y", "i32", vec![Attr::Word(s("default"))])],
    );
    let build = info.build_method_impl();
    assert!(build.iter().any(|c| c.as_str()
        == "_TypedBuilder_genericType__y_: _TypedBuilder__conversionHelperTraitFor_Conf<i32>"));
    assert!(build.iter().any(|c| c.as_str() == "_TypedBuilder__conversionHelperMethodFor_Conf"));
    assert!(build.iter().any(|c| c.as_str() == "::std::default::Default::default()"));
}
