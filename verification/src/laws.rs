//! The typestate laws of the generated artifacts.
//!
//! These proof functions state, over the same spec functions the
//! generators' contracts use, why the emitted code enforces the builder
//! discipline: a setter demands and removes exactly its own absent slot,
//! the finalizer demands the present-marker on every required slot and
//! only there, the two markers can never coincide, and every artifact
//! reproduces the record's own generic parameters in front of its added
//! ones.

use vstd::prelude::*;

use crate::emit::angle_list;
use crate::field_info::{absent_chars, tuplized_chars, FieldInfo};
use crate::idents::{marker_ident_chars, phantom_field_chars};
use crate::struct_info::{
    bounded_marker_chars,
    build_assign_group,
    build_extra_decls,
    build_extra_decls_from,
    build_receiver_slots,
    default_chunk,
    marker_chunks,
    other_marker_decls,
    param_decls,
    param_names,
    setter_bound_chars,
    setter_receiver_slots,
    setter_target_slots,
    spec_build_method,
    spec_builder_entry,
    spec_builder_struct,
    spec_field_impl,
    vis_chunks,
    where_chunks,
    StructInfo,
};

verus! {

/// The absent-marker and a present-marker are distinct type expressions,
/// whatever the declared type: a slot, once advanced, can never satisfy
/// a bound that demands the zero-tuple again.
pub proof fn lemma_absent_present_distinct(ty: Seq<char>)
    ensures
        tuplized_chars(ty) != absent_chars(),
{
    reveal_strlit("(");
    reveal_strlit(",)");
    reveal_strlit("()");
    assert(tuplized_chars(ty).len() == ty.len() + 3);
    assert(absent_chars().len() == 2);
}

/// A freshly entered builder starts every slot in the absent state:
/// each field's typestate begins at the zero-tuple, whatever the field.
pub proof fn lemma_entry_slots_absent(s: StructInfo, k: int)
    requires
        0 <= k < s.fields@.len(),
    ensures
        crate::struct_info::absent_arg_chunks(s.fields@)[k] == absent_chars(),
{
}

/// A setter consumes exactly its own slot in the absent state and
/// advances exactly that slot to the present-marker; every other slot
/// passes through as the same free marker. With
/// `lemma_absent_present_distinct`, the returned builder can never feed
/// the same setter again, while the other setters are unaffected: chains
/// may interleave in any order but repeat no field.
pub proof fn lemma_setter_slots(s: StructInfo, k: int)
    requires
        0 <= k < s.fields@.len(),
    ensures
        setter_receiver_slots(s.fields@, k)[k] == absent_chars(),
        setter_target_slots(s.fields@, k)[k] == tuplized_chars(s.fields@[k].ty@),
        setter_target_slots(s.fields@, k)[k] != setter_receiver_slots(s.fields@, k)[k],
        forall|j: int|
            0 <= j < s.fields@.len() && j != k ==> setter_receiver_slots(s.fields@, k)[j]
                == s.fields@[j].generic_ident@,
        forall|j: int|
            0 <= j < s.fields@.len() && j != k ==> setter_target_slots(s.fields@, k)[j]
                == setter_receiver_slots(s.fields@, k)[j],
{
    lemma_absent_present_distinct(s.fields@[k].ty@);
}

/// The finalizer's receiver pins every required slot to its
/// present-marker — omitting a required setter leaves the zero-tuple
/// there, which no present-marker equals — while every defaulted slot
/// stays a free marker, so a defaulted setter may be omitted.
pub proof fn lemma_build_receiver(s: StructInfo, k: int)
    requires
        0 <= k < s.fields@.len(),
    ensures
        !s.fields@[k].is_defaulted() ==> build_receiver_slots(s.fields@)[k] == tuplized_chars(
            s.fields@[k].ty@,
        ),
        !s.fields@[k].is_defaulted() ==> build_receiver_slots(s.fields@)[k] != absent_chars(),
        s.fields@[k].is_defaulted() ==> build_receiver_slots(s.fields@)[k]
            == s.fields@[k].generic_ident@,
{
    lemma_absent_present_distinct(s.fields@[k].ty@);
}

/// Every defaulted field contributes its bounded marker to the
/// finalizer's impl parameters: the free slot is usable only through the
/// default-witness capability at the field's declared type.
pub proof fn lemma_build_extra_decl_present(fields: Seq<FieldInfo>, trait_name: Seq<char>, k: int)
    requires
        0 <= k < fields.len(),
        fields[k].is_defaulted(),
    ensures
        exists|m: int|
            0 <= m < build_extra_decls(fields, trait_name).len() && build_extra_decls(
                fields,
                trait_name,
            )[m] == bounded_marker_chars(fields[k], trait_name),
{
    lemma_build_extra_decl_present_from(fields, trait_name, k, 0);
    let m0 = choose|m: int|
        0 <= m < build_extra_decls_from(fields, trait_name, 0).len() && (
        #[trigger] build_extra_decls_from(fields, trait_name, 0)[m]) == bounded_marker_chars(
            fields[k],
            trait_name,
        );
    assert(build_extra_decls(fields, trait_name)[m0] == bounded_marker_chars(fields[k], trait_name));
}

proof fn lemma_build_extra_decl_present_from(
    fields: Seq<FieldInfo>,
    trait_name: Seq<char>,
    k: int,
    j: int,
)
    requires
        0 <= j <= k < fields.len(),
        fields[k].is_defaulted(),
    ensures
        exists|m: int|
            0 <= m < build_extra_decls_from(fields, trait_name, j).len()
                && build_extra_decls_from(fields, trait_name, j)[m] == bounded_marker_chars(
                fields[k],
                trait_name,
            ),
    decreases k - j,
{
    if j == k {
        assert(build_extra_decls_from(fields, trait_name, j)[0] == bounded_marker_chars(
            fields[k],
            trait_name,
        ));
    } else {
        lemma_build_extra_decl_present_from(fields, trait_name, k, j + 1);
        let m0 = choose|m: int|
            0 <= m < build_extra_decls_from(fields, trait_name, j + 1).len() && (
            #[trigger] build_extra_decls_from(fields, trait_name, j + 1)[m]) == bounded_marker_chars(
                fields[k],
                trait_name,
            );
        if fields[j].is_defaulted() {
            assert(build_extra_decls_from(fields, trait_name, j)[m0 + 1] == bounded_marker_chars(
                fields[k],
                trait_name,
            ));
        } else {
            assert(build_extra_decls_from(fields, trait_name, j)[m0] == bounded_marker_chars(
                fields[k],
                trait_name,
            ));
        }
    }
}

/// The finalizer reads a defaulted field through the default-witness
/// method, handing it the field's default expression, and reads a
/// required field by untupling its present-marker: the absent branch of
/// the capability yields the default, the present branch the value the
/// setter stored.
pub proof fn lemma_build_assignment_shape(f: FieldInfo, method: Seq<char>)
    ensures
        f.is_defaulted() ==> build_assign_group(f, method) == seq![
            f.name@,
            ":"@,
            "self"@,
            "."@,
            f.name@,
            "."@,
            method,
            "("@,
            default_chunk(f),
            ")"@,
        ],
        !f.is_defaulted() ==> build_assign_group(f, method) == seq![
            f.name@,
            ":"@,
            "self"@,
            "."@,
            f.name@,
            "."@,
            "0"@,
        ],
{
}

/// Every artifact's generic parameter list starts with the record's own
/// parameter declarations, bounds included, unchanged: added markers
/// only ever follow them.
pub proof fn lemma_record_params_lead(s: StructInfo, extra: Seq<Seq<char>>)
    ensures
        (param_decls(s.generics) + extra).take(param_decls(s.generics).len() as int) == param_decls(
            s.generics,
        ),
        forall|j: int|
            0 <= j < extra.len() ==> (param_decls(s.generics) + extra)[param_decls(
                s.generics,
            ).len() + j] == extra[j],
{
    assert((param_decls(s.generics) + extra).take(param_decls(s.generics).len() as int)
        =~= param_decls(s.generics));
}

/// Every artifact reproduces the record's where-clause verbatim: when
/// the source record has one, each of the four generated item groups
/// carries the same chunk; and the record's visibility chunk stands on
/// both items of the builder entry group, so the builder is reachable
/// exactly where the record is.
pub proof fn lemma_header_reproduced(s: StructInfo, k: int)
    requires
        0 <= k < s.fields@.len(),
    ensures
        s.generics.where_clause is Some ==> {
            let w = s.generics.where_clause.unwrap()@;
            &&& exists|m: int|
                0 <= m < spec_builder_entry(s).len() && #[trigger] spec_builder_entry(s)[m] == w
            &&& exists|m: int|
                0 <= m < spec_builder_struct(s).len() && #[trigger] spec_builder_struct(s)[m] == w
            &&& exists|m: int|
                0 <= m < spec_field_impl(s, k).len() && #[trigger] spec_field_impl(s, k)[m] == w
            &&& exists|m: int|
                0 <= m < spec_build_method(s).len() && #[trigger] spec_build_method(s)[m] == w
        },
        s.vis is Some ==> {
            let v = s.vis.unwrap()@;
            &&& exists|m: int|
                0 <= m < spec_builder_entry(s).len() && #[trigger] spec_builder_entry(s)[m] == v
            &&& exists|m: int|
                0 <= m < spec_builder_struct(s).len() && #[trigger] spec_builder_struct(s)[m] == v
        },
{
    if s.generics.where_clause is Some {
        let w = s.generics.where_clause.unwrap()@;
        let e1 = 1 + angle_list(param_decls(s.generics)).len() + 1 + angle_list(
            param_names(s.generics),
        ).len();
        assert(spec_builder_entry(s)[e1 as int] == w);
        let e2 = 1 + vis_chunks(s.vis).len() + 2 + angle_list(
            param_decls(s.generics) + marker_chunks(s.fields@),
        ).len();
        assert(spec_builder_struct(s)[e2 as int] == w);
        let e3 = 2 + angle_list(param_decls(s.generics) + other_marker_decls(s.fields@, k)).len()
            + 1 + angle_list(param_names(s.generics) + setter_receiver_slots(s.fields@, k)).len();
        assert(spec_field_impl(s, k)[e3 as int] == w);
        let e4 = 2 + angle_list(
            param_decls(s.generics) + build_extra_decls(
                s.fields@,
                s.conversion_helper_trait_name@,
            ),
        ).len() + 1 + angle_list(param_names(s.generics) + build_receiver_slots(s.fields@)).len();
        assert(spec_build_method(s)[e4 as int] == w);
    }
    if s.vis is Some {
        let v = s.vis.unwrap()@;
        let p1 = 1 + angle_list(param_decls(s.generics)).len() + 1 + angle_list(
            param_names(s.generics),
        ).len() + where_chunks(s.generics).len() + 2;
        assert(spec_builder_entry(s)[p1 as int] == v);
        assert(spec_builder_struct(s)[1] == v);
    }
}

/// The marker identifier derivation is injective: two fields get the
/// same marker only if they have the same name, so a plan with distinct
/// field names mints pairwise distinct marker parameters.
pub proof fn lemma_marker_ident_injective(a: Seq<char>, b: Seq<char>)
    requires
        marker_ident_chars(a) == marker_ident_chars(b),
    ensures
        a == b,
{
    reveal_strlit("_TypedBuilder_genericType__");
    reveal_strlit("_");
    let p = "_TypedBuilder_genericType__"@;
    assert(marker_ident_chars(a).len() == p.len() + a.len() + 1);
    assert(marker_ident_chars(b).len() == p.len() + b.len() + 1);
    assert forall|i: int| 0 <= i < a.len() implies a[i] == b[i] by {
        assert(marker_ident_chars(a)[p.len() + i] == a[i]);
        assert(marker_ident_chars(b)[p.len() + i] == b[i]);
    }
    assert(a =~= b);
}

/// A marker identifier never collides with an identifier that does not
/// itself start with the reserved prefix; collisions inside the
/// reserved namespace are the accepted limitation of the derivation.
pub proof fn lemma_marker_avoids_plain_names(name: Seq<char>, other: Seq<char>)
    requires
        other.len() < "_TypedBuilder_genericType__"@.len() || other.subrange(
            0,
            "_TypedBuilder_genericType__"@.len() as int,
        ) != "_TypedBuilder_genericType__"@,
    ensures
        marker_ident_chars(name) != other,
{
    reveal_strlit("_TypedBuilder_genericType__");
    reveal_strlit("_");
    let p = "_TypedBuilder_genericType__"@;
    assert(marker_ident_chars(name).len() == p.len() + name.len() + 1);
    if marker_ident_chars(name) == other {
        assert(other.len() >= p.len());
        assert forall|i: int| 0 <= i < p.len() implies other.subrange(0, p.len() as int)[i]
            == p[i] by {
            assert(marker_ident_chars(name)[i] == p[i]);
        }
        assert(other.subrange(0, p.len() as int) =~= p);
    }
}

/// The setter stores the converted value: its body writes the one-tuple
/// of `value.into()` into the field, so the declared conversion is
/// applied once, at setter time, not deferred to the finalizer.
pub proof fn lemma_setter_stores_converted(s: StructInfo, k: int)
    requires
        0 <= k < s.fields@.len(),
    ensures
        exists|m: int|
            0 <= m < spec_field_impl(s, k).len() && spec_field_impl(s, k)[m] == "(value.into(),)"@,
{
    let f = s.fields@[k];
    let a = seq!["#[allow(dead_code, non_camel_case_types)]"@, "impl"@];
    let b = angle_list(param_decls(s.generics) + other_marker_decls(s.fields@, k));
    let c = seq![s.builder_name@];
    let d = angle_list(param_names(s.generics) + setter_receiver_slots(s.fields@, k));
    let e = where_chunks(s.generics);
    let g = seq![
        "{"@,
        "pub"@,
        "fn"@,
        f.name@,
        "<"@,
        setter_bound_chars(f),
        ">"@,
        "("@,
        "self"@,
        ","@,
        "value"@,
        ":"@,
        f.generic_ident@,
        ")"@,
        "->"@,
        s.builder_name@,
    ];
    let h = angle_list(param_names(s.generics) + setter_target_slots(s.fields@, k));
    let m = a.len() + b.len() + c.len() + d.len() + e.len() + g.len() + h.len() + 11;
    assert(spec_field_impl(s, k)[m as int] == "(value.into(),)"@);
}

} // verus!
