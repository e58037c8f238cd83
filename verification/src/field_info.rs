//! Per-field metadata of a plan.
//!
//! A `FieldInfo` carries a field's position, name, declared type (an opaque
//! token chunk, kept as written), the freshly minted marker identifier for
//! its typestate slot, and how the field defaults when its setter is not
//! invoked.

use vstd::prelude::*;
use vstd::string::StringExecFns;

use crate::idents::{marker_ident, marker_ident_chars};

verus! {

/// One attribute of a parsed field, reduced to the shapes the generator
/// distinguishes.
#[derive(Debug)]
pub enum Attr {
    /// A bare marker: `name`.
    Word(String),
    /// A list form: `name(...)`.
    List(String),
    /// A name with a string literal: `name = "value"`.
    NameValueStr(String, String),
    /// A name with any other value shape.
    NameValueOther(String),
}

/// A parsed field as the front end hands it over: an optional identifier
/// (positional fields have none), the declared type as written, and the
/// attribute bag.
#[derive(Debug)]
pub struct ParsedField {
    pub ident: Option<String>,
    pub ty: String,
    pub attrs: Vec<Attr>,
}

/// How a field obtains its value when its setter was not invoked.
#[derive(Debug)]
pub enum DefaultKind {
    /// No default: the finalizer demands that the setter was called.
    Required,
    /// A bare `default` marker: the declared type's standard default.
    StdDefault,
    /// `default = "<expr>"`: the expression source, known to parse.
    Expr(String),
}

/// Ghost image of `DefaultKind`, over character sequences.
pub enum DefaultView {
    Required,
    StdDefault,
    Expr(Seq<char>),
}

pub open spec fn default_view(d: DefaultKind) -> DefaultView {
    match d {
        DefaultKind::Required => DefaultView::Required,
        DefaultKind::StdDefault => DefaultView::StdDefault,
        DefaultKind::Expr(s) => DefaultView::Expr(s@),
    }
}

/// A fault found while scanning one field's attributes.
#[derive(Debug, Clone, Copy, PartialEq, Eq, Structural)]
pub enum DefaultError {
    /// A `default` attribute of an unsupported shape (a list, or a value
    /// that is not a string literal).
    ListFormNotPermitted,
    /// More than one `default` attribute on the same field.
    MultipleDefaults,
    /// The string form's inner text is not a valid expression.
    ExpressionUnparseable,
}

/// A fault that aborts generation, carrying the offending field's name
/// when one is available.
#[derive(Debug)]
pub enum FieldError {
    /// The field has no identifier: positional fields are unsupported.
    NamelessField,
    ListFormNotPermitted(String),
    MultipleDefaults(String),
    ExpressionUnparseable(String),
}

/// Ghost image of `FieldError`, over character sequences.
pub enum FieldErrorView {
    NamelessField,
    ListFormNotPermitted(Seq<char>),
    MultipleDefaults(Seq<char>),
    ExpressionUnparseable(Seq<char>),
}

pub open spec fn field_error_view(e: FieldError) -> FieldErrorView {
    match e {
        FieldError::NamelessField => FieldErrorView::NamelessField,
        FieldError::ListFormNotPermitted(n) => FieldErrorView::ListFormNotPermitted(n@),
        FieldError::MultipleDefaults(n) => FieldErrorView::MultipleDefaults(n@),
        FieldError::ExpressionUnparseable(n) => FieldErrorView::ExpressionUnparseable(n@),
    }
}

/// Attach the field name to a scan fault.
pub open spec fn spec_named_error(name: Seq<char>, e: DefaultError) -> FieldErrorView {
    match e {
        DefaultError::ListFormNotPermitted => FieldErrorView::ListFormNotPermitted(name),
        DefaultError::MultipleDefaults => FieldErrorView::MultipleDefaults(name),
        DefaultError::ExpressionUnparseable => FieldErrorView::ExpressionUnparseable(name),
    }
}

/// Whether a character sequence parses as a Rust expression.
pub uninterp spec fn parses_as_expr(s: Seq<char>) -> bool;

/// Relies on `syn::parse_str::<syn::Expr>`: whether a string parses as a
/// Rust expression is a function of the string alone.
#[verifier::external_body]
fn expr_parses(s: &str) -> (r: bool)
    ensures
        r == parses_as_expr(s@),
{
    syn::parse_str::<syn::Expr>(s).is_ok()
}

/// What one attribute contributes to the field's default: nothing, a
/// default, or a fault.
pub open spec fn attr_default(a: Attr) -> Result<Option<DefaultView>, DefaultError> {
    match a {
        Attr::Word(n) => if n@ == "default"@ {
            Result::Ok(Option::Some(DefaultView::StdDefault))
        } else {
            Result::Ok(Option::None)
        },
        Attr::List(n) => if n@ == "default"@ {
            Result::Err(DefaultError::ListFormNotPermitted)
        } else {
            Result::Ok(Option::None)
        },
        Attr::NameValueStr(n, v) => if n@ == "default"@ {
            if parses_as_expr(v@) {
                Result::Ok(Option::Some(DefaultView::Expr(v@)))
            } else {
                Result::Err(DefaultError::ExpressionUnparseable)
            }
        } else {
            Result::Ok(Option::None)
        },
        Attr::NameValueOther(n) => if n@ == "default"@ {
            Result::Err(DefaultError::ListFormNotPermitted)
        } else {
            Result::Ok(Option::None)
        },
    }
}

/// The scan of an attribute suffix, given what the prefix already found:
/// the first fault wins; a second default is a fault at that point.
pub open spec fn find_default_rec(attrs: Seq<Attr>, found: Option<DefaultView>) -> Result<
    Option<DefaultView>,
    DefaultError,
>
    decreases attrs.len(),
{
    if attrs.len() == 0 {
        Result::Ok(found)
    } else {
        match attr_default(attrs[0]) {
            Result::Err(e) => Result::Err(e),
            Result::Ok(Option::None) => find_default_rec(attrs.drop_first(), found),
            Result::Ok(Option::Some(d)) => if found is Some {
                Result::Err(DefaultError::MultipleDefaults)
            } else {
                find_default_rec(attrs.drop_first(), Option::Some(d))
            },
        }
    }
}

/// The default a field's whole attribute bag yields.
pub open spec fn field_default_spec(attrs: Seq<Attr>) -> Result<Option<DefaultView>, DefaultError> {
    find_default_rec(attrs, Option::None)
}

/// The default kind a valid attribute bag settles on.
pub open spec fn spec_default_of(r: Result<Option<DefaultView>, DefaultError>) -> DefaultView {
    match r {
        Result::Ok(Option::None) => DefaultView::Required,
        Result::Ok(Option::Some(d)) => d,
        Result::Err(_) => DefaultView::Required,
    }
}

pub open spec fn opt_default_view(o: Option<DefaultKind>) -> Option<DefaultView> {
    match o {
        Option::None => Option::None,
        Option::Some(d) => Option::Some(default_view(d)),
    }
}

pub open spec fn res_default_view(r: Result<Option<DefaultKind>, DefaultError>) -> Result<
    Option<DefaultView>,
    DefaultError,
> {
    match r {
        Result::Ok(o) => Result::Ok(opt_default_view(o)),
        Result::Err(e) => Result::Err(e),
    }
}

fn is_default_name(n: &String) -> (r: bool)
    ensures
        r == (n@ == "default"@),
{
    n.eq(&String::from_str("default"))
}

/// What one attribute contributes to the field's default.
fn attr_default_exec(a: &Attr) -> (r: Result<Option<DefaultKind>, DefaultError>)
    ensures
        res_default_view(r) == attr_default(*a),
{
    match a {
        Attr::Word(n) => if is_default_name(n) {
            Result::Ok(Option::Some(DefaultKind::StdDefault))
        } else {
            Result::Ok(Option::None)
        },
        Attr::List(n) => if is_default_name(n) {
            Result::Err(DefaultError::ListFormNotPermitted)
        } else {
            Result::Ok(Option::None)
        },
        Attr::NameValueStr(n, v) => if is_default_name(n) {
            if expr_parses(v.as_str()) {
                Result::Ok(Option::Some(DefaultKind::Expr(v.clone())))
            } else {
                Result::Err(DefaultError::ExpressionUnparseable)
            }
        } else {
            Result::Ok(Option::None)
        },
        Attr::NameValueOther(n) => if is_default_name(n) {
            Result::Err(DefaultError::ListFormNotPermitted)
        } else {
            Result::Ok(Option::None)
        },
    }
}

/// The fold of a run of delegate outcomes, from position `j`, given what
/// the prefix before `j` found: the first fault wins, a second extracted
/// value is the multiple-defaults fault at that point, and otherwise the
/// single extracted value, if any, is returned.
pub open spec fn fold_outcomes<T>(
    outs: Seq<Result<Option<T>, DefaultError>>,
    j: int,
    found: Option<T>,
) -> Result<Option<T>, DefaultError>
    decreases outs.len() - j,
{
    if j < 0 || j >= outs.len() {
        Result::Ok(found)
    } else {
        match outs[j] {
            Result::Err(e) => Result::Err(e),
            Result::Ok(Option::None) => fold_outcomes(outs, j + 1, found),
            Result::Ok(Option::Some(t)) => if found is Some {
                Result::Err(DefaultError::MultipleDefaults)
            } else {
                fold_outcomes(outs, j + 1, Option::Some(t))
            },
        }
    }
}

/// Appending one outcome to a run folds as that outcome applied to the
/// fold of the run.
proof fn lemma_fold_push<T>(
    outs: Seq<Result<Option<T>, DefaultError>>,
    o: Result<Option<T>, DefaultError>,
    j: int,
    found: Option<T>,
)
    requires
        0 <= j <= outs.len(),
    ensures
        fold_outcomes(outs.push(o), j, found) == (match fold_outcomes(outs, j, found) {
            Result::Ok(f) => match o {
                Result::Err(e) => Result::Err(e),
                Result::Ok(Option::None) => Result::Ok(f),
                Result::Ok(Option::Some(t)) => if f is Some {
                    Result::Err(DefaultError::MultipleDefaults)
                } else {
                    Result::Ok(Option::Some(t))
                },
            },
            Result::Err(e) => Result::Err(e),
        }),
    decreases outs.len() - j,
{
    if j == outs.len() {
        assert(outs.push(o)[j] == o);
        assert(fold_outcomes(outs.push(o), j + 1, found) == Result::<
            Option<T>,
            DefaultError,
        >::Ok(found));
        match o {
            Result::Ok(Option::Some(t)) => {
                if !(found is Some) {
                    assert(fold_outcomes(outs.push(o), j + 1, Option::Some(t)) == Result::<
                        Option<T>,
                        DefaultError,
                    >::Ok(Option::Some(t)));
                }
            },
            _ => {},
        }
    } else {
        assert(outs.push(o)[j] == outs[j]);
        match outs[j] {
            Result::Err(_) => {},
            Result::Ok(Option::None) => {
                lemma_fold_push(outs, o, j + 1, found);
            },
            Result::Ok(Option::Some(t)) => {
                if !(found is Some) {
                    lemma_fold_push(outs, o, j + 1, Option::Some(t));
                }
            },
        }
    }
}

/// Return the value that fulfills `dlg` if there is at most one in `items`;
/// fault when `dlg` faults or when more than one item yields a value. This
/// is the generic shape of the default-attribute scan: the result is the
/// fold of a run of outcomes, one per scanned item and each admitted by
/// the delegate's contract; the scan covers every item unless the fold
/// faults first.
pub fn map_only_one<S, T, F: Fn(&S) -> Result<Option<T>, DefaultError>>(items: &Vec<S>, dlg: F) -> (r:
    Result<Option<T>, DefaultError>)
    requires
        forall|i: int| 0 <= i < items@.len() ==> call_requires(dlg, (&items@[i],)),
    ensures
        items@.len() == 0 ==> r == Result::<Option<T>, DefaultError>::Ok(Option::None),
        exists|outs: Seq<Result<Option<T>, DefaultError>>|
            {
                &&& outs.len() <= items@.len()
                &&& (forall|i: int|
                    0 <= i < outs.len() ==> call_ensures(dlg, (&items@[i],), #[trigger] outs[i]))
                &&& r == #[trigger] fold_outcomes(outs, 0, Option::None)
                &&& (outs.len() == items@.len() || r is Err)
            },
        (r matches Result::Ok(Option::Some(t)) ==> exists|i: int|
            0 <= i < items@.len() && call_ensures(dlg, (&items@[i],), Result::Ok(Option::Some(t)))),
        (r matches Result::Err(e) ==> e == DefaultError::MultipleDefaults || exists|i: int|
            0 <= i < items@.len() && call_ensures(dlg, (&items@[i],), Result::Err(e))),
{
    let mut result: Option<T> = Option::None;
    let ghost mut outs: Seq<Result<Option<T>, DefaultError>> = Seq::empty();
    let mut j: usize = 0;
    while j < items.len()
        invariant
            0 <= j <= items@.len(),
            forall|i: int| 0 <= i < items@.len() ==> call_requires(dlg, (&items@[i],)),
            outs.len() == j,
            forall|i: int| 0 <= i < j ==> call_ensures(dlg, (&items@[i],), #[trigger] outs[i]),
            fold_outcomes(outs, 0, Option::None) == Result::<Option<T>, DefaultError>::Ok(result),
            result matches Option::Some(t) ==> exists|i: int|
                0 <= i < j && call_ensures(dlg, (&items@[i],), Result::Ok(Option::Some(t))),
        decreases items@.len() - j,
    {
        let d = dlg(&items[j]);
        let ghost od = d;
        proof {
            lemma_fold_push(outs, od, 0, Option::None);
        }
        match d {
            Result::Err(e) => {
                proof {
                    outs = outs.push(od);
                    assert(outs[j as int] == od);
                }
                return Result::Err(e);
            },
            Result::Ok(Option::Some(answer)) => {
                if result.is_some() {
                    proof {
                        outs = outs.push(od);
                        assert(outs[j as int] == od);
                    }
                    return Result::Err(DefaultError::MultipleDefaults);
                }
                result = Option::Some(answer);
                proof {
                    outs = outs.push(od);
                    assert(outs[j as int] == od);
                }
            },
            Result::Ok(Option::None) => {
                proof {
                    outs = outs.push(od);
                    assert(outs[j as int] == od);
                }
            },
        }
        j = j + 1;
    }
    Result::Ok(result)
}

/// Scan a field's attribute bag for its default.
fn find_field_default(attrs: &Vec<Attr>) -> (r: Result<Option<DefaultKind>, DefaultError>)
    ensures
        res_default_view(r) == field_default_spec(attrs@),
{
    let mut result: Option<DefaultKind> = Option::None;
    let mut j: usize = 0;
    proof {
        assert(attrs@.skip(0) =~= attrs@);
    }
    while j < attrs.len()
        invariant
            0 <= j <= attrs@.len(),
            field_default_spec(attrs@) == find_default_rec(
                attrs@.skip(j as int),
                opt_default_view(result),
            ),
        decreases attrs@.len() - j,
    {
        proof {
            assert(attrs@.skip(j as int)[0] == attrs@[j as int]);
            assert(attrs@.skip(j as int).drop_first() =~= attrs@.skip(j as int + 1));
        }
        match attr_default_exec(&attrs[j]) {
            Result::Err(e) => {
                return Result::Err(e);
            },
            Result::Ok(Option::Some(answer)) => {
                if result.is_some() {
                    return Result::Err(DefaultError::MultipleDefaults);
                }
                result = Option::Some(answer);
            },
            Result::Ok(Option::None) => {},
        }
        j = j + 1;
    }
    proof {
        assert(attrs@.skip(attrs@.len() as int) =~= Seq::<Attr>::empty());
    }
    Result::Ok(result)
}

/// Whether a parsed field is acceptable: it has an identifier and its
/// attribute bag scans without fault.
pub open spec fn parsed_field_valid(pf: ParsedField) -> bool {
    &&& pf.ident is Some
    &&& field_default_spec(pf.attrs@) is Ok
}

/// The fault an unacceptable parsed field is reported with.
pub open spec fn expected_field_error(pf: ParsedField) -> FieldErrorView {
    if pf.ident is None {
        FieldErrorView::NamelessField
    } else {
        spec_named_error(pf.ident.unwrap()@, field_default_spec(pf.attrs@)->Err_0)
    }
}

/// How the metadata of an accepted field relates to the parsed field it
/// was built from, at position `i`.
pub open spec fn field_built_from(f: FieldInfo, pf: ParsedField, i: int) -> bool {
    &&& f.ordinal == i
    &&& pf.ident is Some
    &&& f.name@ == pf.ident.unwrap()@
    &&& f.wf()
    &&& f.ty@ == pf.ty@
    &&& default_view(f.default) == spec_default_of(field_default_spec(pf.attrs@))
}

/// Per-field metadata: position, name, minted marker identifier, declared
/// type as written, and the field's default.
#[derive(Debug)]
pub struct FieldInfo {
    pub ordinal: usize,
    pub name: String,
    pub generic_ident: String,
    pub ty: String,
    pub default: DefaultKind,
}

impl FieldInfo {
    /// The marker identifier is derived from the name by the fixed rule.
    pub open spec fn wf(self) -> bool {
        self.generic_ident@ == marker_ident_chars(self.name@)
    }

    /// Whether the field participates in default dispatch.
    pub open spec fn is_defaulted(self) -> bool {
        !(self.default is Required)
    }

    /// Build the metadata of one field, or report why the field cannot be
    /// accepted: a missing identifier, or a malformed `default` attribute.
    pub fn new(ordinal: usize, field: &ParsedField) -> (r: Result<FieldInfo, FieldError>)
        ensures
            r is Ok <==> parsed_field_valid(*field),
            match r {
                Result::Ok(f) => field_built_from(f, *field, ordinal as int),
                Result::Err(e) => field_error_view(e) == expected_field_error(*field),
            },
    {
        match &field.ident {
            Option::None => Result::Err(FieldError::NamelessField),
            Option::Some(name) => {
                match find_field_default(&field.attrs) {
                    Result::Err(e) => Result::Err(named_error(name, e)),
                    Result::Ok(found) => {
                        let default = match found {
                            Option::None => DefaultKind::Required,
                            Option::Some(d) => d,
                        };
                        Result::Ok(FieldInfo {
                            ordinal,
                            name: name.clone(),
                            generic_ident: marker_ident(name.as_str()),
                            ty: field.ty.clone(),
                            default,
                        })
                    },
                }
            },
        }
    }

    /// The unbounded marker type parameter of this field.
    pub fn generic_ty_param(&self) -> (r: String)
        ensures
            r@ == self.generic_ident@,
    {
        self.generic_ident.clone()
    }

    /// The present-marker: the one-tuple of the declared type.
    pub fn tuplized_type_ty_param(&self) -> (r: String)
        ensures
            r@ == tuplized_chars(self.ty@),
    {
        let mut s = String::from_str("(");
        s.append(self.ty.as_str());
        s.append(",)");
        s
    }

    /// Whether the field participates in default dispatch.
    pub fn defaulted(&self) -> (r: bool)
        ensures
            r == self.is_defaulted(),
    {
        match self.default {
            DefaultKind::Required => false,
            DefaultKind::StdDefault => true,
            DefaultKind::Expr(_) => true,
        }
    }

    /// The absent-marker: the zero-tuple.
    pub fn empty_ty_param() -> (r: String)
        ensures
            r@ == absent_chars(),
    {
        String::from_str("()")
    }
}

/// The present-marker's characters: the one-tuple of the declared type.
pub open spec fn tuplized_chars(ty: Seq<char>) -> Seq<char> {
    "("@ + ty + ",)"@
}

/// The absent-marker's characters: the zero-tuple.
pub open spec fn absent_chars() -> Seq<char> {
    "()"@
}

/// Attach the offending field's name to a scan fault.
fn named_error(name: &String, e: DefaultError) -> (r: FieldError)
    ensures
        field_error_view(r) == spec_named_error(name@, e),
{
    match e {
        DefaultError::ListFormNotPermitted => FieldError::ListFormNotPermitted(name.clone()),
        DefaultError::MultipleDefaults => FieldError::MultipleDefaults(name.clone()),
        DefaultError::ExpressionUnparseable => FieldError::ExpressionUnparseable(name.clone()),
    }
}

} // verus!
