//! The whole-record plan and its artifact groups.
//!
//! A `StructInfo` owns the ordered field metadata together with the source
//! record's visibility and generic parameters, and produces the generated
//! items as chunk sequences: the builder entry and the builder record, the
//! default-witness capability, one setter per field, and the finalizer.

use vstd::prelude::*;
use vstd::string::StringExecFns;

use crate::emit::{angle_list, extend, push_angle_list, push_chunk, push_string};
use crate::field_info::{
    absent_chars,
    expected_field_error,
    field_built_from,
    field_error_view,
    parsed_field_valid,
    tuplized_chars,
    DefaultKind,
    FieldError,
    FieldInfo,
    ParsedField,
};
use crate::idents::{
    builder_ident,
    builder_name_chars,
    helper_method_chars,
    helper_method_ident,
    helper_trait_chars,
    helper_trait_ident,
    phantom_field_chars,
    phantom_field_ident,
};

verus! {

/// A lifetime parameter of the source record: its declaration with its
/// bounds as written, and its bare name (with the leading tick).
#[derive(Debug)]
pub struct LifetimeDef {
    pub decl: String,
    pub name: String,
}

/// A type parameter of the source record: its declaration with its bounds
/// as written, and its bare name.
#[derive(Debug)]
pub struct TyParamDef {
    pub decl: String,
    pub name: String,
}

/// The generic parameters of the source record, kept as written; the
/// where-clause, when there is one, is a single chunk starting with the
/// word itself.
#[derive(Debug)]
pub struct Generics {
    pub lifetimes: Vec<LifetimeDef>,
    pub ty_params: Vec<TyParamDef>,
    pub where_clause: Option<String>,
}

/// The source record's header as the front end hands it over; the
/// visibility, when it is spelled out, is a single chunk.
#[derive(Debug)]
pub struct StructDecl {
    pub vis: Option<String>,
    pub name: String,
    pub generics: Generics,
}

/// The declaration chunks of a run of lifetime parameters.
pub open spec fn lt_decl_chunks(ls: Seq<LifetimeDef>) -> Seq<Seq<char>> {
    ls.map_values(|l: LifetimeDef| l.decl@)
}

/// The name chunks of a run of lifetime parameters.
pub open spec fn lt_name_chunks(ls: Seq<LifetimeDef>) -> Seq<Seq<char>> {
    ls.map_values(|l: LifetimeDef| l.name@)
}

/// The declaration chunks of a run of type parameters.
pub open spec fn tp_decl_chunks(ts: Seq<TyParamDef>) -> Seq<Seq<char>> {
    ts.map_values(|t: TyParamDef| t.decl@)
}

/// The name chunks of a run of type parameters.
pub open spec fn tp_name_chunks(ts: Seq<TyParamDef>) -> Seq<Seq<char>> {
    ts.map_values(|t: TyParamDef| t.name@)
}

/// The record's generic parameter declarations, bounds included, one
/// chunk each: lifetimes first, then type parameters.
pub open spec fn param_decls(g: Generics) -> Seq<Seq<char>> {
    lt_decl_chunks(g.lifetimes@) + tp_decl_chunks(g.ty_params@)
}

/// The record's generic parameter names, one chunk each: lifetimes first,
/// then type parameters.
pub open spec fn param_names(g: Generics) -> Seq<Seq<char>> {
    lt_name_chunks(g.lifetimes@) + tp_name_chunks(g.ty_params@)
}

/// The where-clause chunk, if any.
pub open spec fn where_chunks(g: Generics) -> Seq<Seq<char>> {
    match g.where_clause {
        Option::None => Seq::empty(),
        Option::Some(w) => seq![w@],
    }
}

/// The visibility chunk, if any.
pub open spec fn vis_chunks(vis: Option<String>) -> Seq<Seq<char>> {
    match vis {
        Option::None => Seq::empty(),
        Option::Some(v) => seq![v@],
    }
}

/// One marker parameter per field, in field order.
pub open spec fn marker_chunks(fields: Seq<FieldInfo>) -> Seq<Seq<char>> {
    fields.map_values(|f: FieldInfo| f.generic_ident@)
}

/// One absent-marker per field: the slots of a freshly entered builder.
pub open spec fn absent_arg_chunks(fields: Seq<FieldInfo>) -> Seq<Seq<char>> {
    fields.map_values(|f: FieldInfo| absent_chars())
}

/// The slots of the builder a setter for field `k` consumes: every other
/// slot stays its free marker; slot `k` is pinned to the absent-marker.
pub open spec fn setter_receiver_slots(fields: Seq<FieldInfo>, k: int) -> Seq<Seq<char>> {
    Seq::new(
        fields.len(),
        |i: int|
            if i == k {
                absent_chars()
            } else {
                fields[i].generic_ident@
            },
    )
}

/// The slots of the builder a setter for field `k` returns: every other
/// slot unchanged; slot `k` advanced to the present-marker.
pub open spec fn setter_target_slots(fields: Seq<FieldInfo>, k: int) -> Seq<Seq<char>> {
    Seq::new(
        fields.len(),
        |i: int|
            if i == k {
                tuplized_chars(fields[i].ty@)
            } else {
                fields[i].generic_ident@
            },
    )
}

/// The slots of the builder the finalizer consumes: required fields are
/// pinned to their present-marker; defaulted fields keep a free marker.
pub open spec fn build_receiver_slots(fields: Seq<FieldInfo>) -> Seq<Seq<char>> {
    Seq::new(
        fields.len(),
        |i: int|
            if fields[i].is_defaulted() {
                fields[i].generic_ident@
            } else {
                tuplized_chars(fields[i].ty@)
            },
    )
}

/// A defaulted field's marker parameter, bounded by the default-witness
/// capability at the field's declared type.
pub open spec fn bounded_marker_chars(f: FieldInfo, trait_name: Seq<char>) -> Seq<char> {
    f.generic_ident@ + ": "@ + trait_name + "<"@ + f.ty@ + ">"@
}

/// The extra parameters of the finalizer's impl, from field `j` on: one
/// bounded marker per defaulted field.
pub open spec fn build_extra_decls_from(fields: Seq<FieldInfo>, trait_name: Seq<char>, j: int) -> Seq<
    Seq<char>,
>
    decreases fields.len() - j,
{
    if j < 0 || j >= fields.len() {
        Seq::empty()
    } else if fields[j].is_defaulted() {
        seq![bounded_marker_chars(fields[j], trait_name)] + build_extra_decls_from(
            fields,
            trait_name,
            j + 1,
        )
    } else {
        build_extra_decls_from(fields, trait_name, j + 1)
    }
}

/// The extra parameters of the finalizer's impl.
pub open spec fn build_extra_decls(fields: Seq<FieldInfo>, trait_name: Seq<char>) -> Seq<Seq<char>> {
    build_extra_decls_from(fields, trait_name, 0)
}

/// The marker parameters of every field but `k`, from field `j` on.
pub open spec fn other_marker_decls_from(fields: Seq<FieldInfo>, k: int, j: int) -> Seq<Seq<char>>
    decreases fields.len() - j,
{
    if j < 0 || j >= fields.len() {
        Seq::empty()
    } else if j == k {
        other_marker_decls_from(fields, k, j + 1)
    } else {
        seq![fields[j].generic_ident@] + other_marker_decls_from(fields, k, j + 1)
    }
}

/// The marker parameters of every field but `k`.
pub open spec fn other_marker_decls(fields: Seq<FieldInfo>, k: int) -> Seq<Seq<char>> {
    other_marker_decls_from(fields, k, 0)
}

/// A setter's own type parameter: the marker name, bounded by
/// convertibility into the field's declared type.
pub open spec fn setter_bound_chars(f: FieldInfo) -> Seq<char> {
    f.generic_ident@ + ": ::std::convert::Into<"@ + f.ty@ + ">"@
}

/// The move of one untouched field from the consumed builder.
pub open spec fn field_move_group(f: FieldInfo) -> Seq<Seq<char>> {
    seq![f.name@, ":"@, "self"@, "."@, f.name@]
}

/// Whether, past position `j`, another field than `k` is left.
pub open spec fn has_other_after(len: int, k: int, j: int) -> bool {
    j + 1 < len && (j + 1 != k || j + 2 < len)
}

/// The moves of every field but `k` out of the consumed builder, from
/// field `j` on, comma-separated.
pub open spec fn other_moves_from(fields: Seq<FieldInfo>, k: int, j: int) -> Seq<Seq<char>>
    decreases fields.len() - j,
{
    if j < 0 || j >= fields.len() {
        Seq::empty()
    } else if j == k {
        other_moves_from(fields, k, j + 1)
    } else {
        field_move_group(fields[j]) + sep_comma(has_other_after(fields.len() as int, k, j))
            + other_moves_from(fields, k, j + 1)
    }
}

/// The default expression a defaulted field falls back to.
pub open spec fn default_chunk(f: FieldInfo) -> Seq<char> {
    match f.default {
        DefaultKind::Required => Seq::empty(),
        DefaultKind::StdDefault => "::std::default::Default::default()"@,
        DefaultKind::Expr(e) => e@,
    }
}

/// The finalizer's assignment of one field: a required field is untupled
/// from its present-marker; a defaulted field goes through the
/// default-witness method with its default expression.
pub open spec fn build_assign_group(f: FieldInfo, method: Seq<char>) -> Seq<Seq<char>> {
    if f.is_defaulted() {
        seq![f.name@, ":"@, "self"@, "."@, f.name@, "."@, method, "("@, default_chunk(f), ")"@]
    } else {
        seq![f.name@, ":"@, "self"@, "."@, f.name@, "."@, "0"@]
    }
}

/// The finalizer's assignments, from field `j` on, comma-separated.
pub open spec fn build_assigns_from(fields: Seq<FieldInfo>, method: Seq<char>, j: int) -> Seq<
    Seq<char>,
>
    decreases fields.len() - j,
{
    if j < 0 || j >= fields.len() {
        Seq::empty()
    } else {
        build_assign_group(fields[j], method) + sep_comma(j + 1 < fields.len())
            + build_assigns_from(fields, method, j + 1)
    }
}

/// A separating comma, present while more entries follow.
pub open spec fn sep_comma(more: bool) -> Seq<Seq<char>> {
    if more {
        seq![","@]
    } else {
        Seq::empty()
    }
}

/// The field initializers of a freshly entered builder, from field `j`
/// on: every slot holds the unit value, the absent witness.
pub open spec fn init_empties_from(fields: Seq<FieldInfo>, j: int) -> Seq<Seq<char>>
    decreases fields.len() - j,
{
    if j < 0 || j >= fields.len() {
        Seq::empty()
    } else {
        seq![fields[j].name@, ":"@, "()"@] + sep_comma(j + 1 < fields.len())
            + init_empties_from(fields, j + 1)
    }
}

/// The builder record's user fields, from field `j` on: each declared at
/// its own marker parameter.
pub open spec fn builder_field_decls_from(fields: Seq<FieldInfo>, j: int) -> Seq<Seq<char>>
    decreases fields.len() - j,
{
    if j < 0 || j >= fields.len() {
        Seq::empty()
    } else {
        seq![fields[j].name@, ":"@, fields[j].generic_ident@] + sep_comma(j + 1 < fields.len())
            + builder_field_decls_from(fields, j + 1)
    }
}

/// The phantom-data component for one lifetime parameter.
pub open spec fn phantom_lt_chars(name: Seq<char>) -> Seq<char> {
    "::std::marker::PhantomData<&"@ + name + " ()>"@
}

/// The phantom-data component for one type parameter.
pub open spec fn phantom_tp_chars(name: Seq<char>) -> Seq<char> {
    "::std::marker::PhantomData<"@ + name + ">"@
}

/// The phantom-data components of the record's lifetimes, from `j` on,
/// each followed by a comma.
pub open spec fn phantom_lt_from(ls: Seq<LifetimeDef>, j: int) -> Seq<Seq<char>>
    decreases ls.len() - j,
{
    if j < 0 || j >= ls.len() {
        Seq::empty()
    } else {
        seq![phantom_lt_chars(ls[j].name@), ","@] + phantom_lt_from(ls, j + 1)
    }
}

/// The phantom-data components of the record's type parameters, from `j`
/// on, each followed by a comma.
pub open spec fn phantom_tp_from(ts: Seq<TyParamDef>, j: int) -> Seq<Seq<char>>
    decreases ts.len() - j,
{
    if j < 0 || j >= ts.len() {
        Seq::empty()
    } else {
        seq![phantom_tp_chars(ts[j].name@), ","@] + phantom_tp_from(ts, j + 1)
    }
}

/// Exec builders of the chunk lists above.
fn param_decl_list(g: &Generics) -> (r: Vec<String>)
    ensures
        r.deep_view() == param_decls(*g),
{
    let mut r: Vec<String> = Vec::new();
    let mut i: usize = 0;
    proof {
        assert(r.deep_view() =~= lt_decl_chunks(g.lifetimes@.take(0)));
    }
    while i < g.lifetimes.len()
        invariant
            0 <= i <= g.lifetimes@.len(),
            r.deep_view() == lt_decl_chunks(g.lifetimes@.take(i as int)),
        decreases g.lifetimes@.len() - i,
    {
        push_string(&mut r, g.lifetimes[i].decl.clone());
        proof {
            assert(r.deep_view() =~= lt_decl_chunks(g.lifetimes@.take(i as int + 1)));
        }
        i = i + 1;
    }
    let mut j: usize = 0;
    proof {
        assert(g.lifetimes@.take(g.lifetimes@.len() as int) =~= g.lifetimes@);
        assert(tp_decl_chunks(g.ty_params@.take(0)) =~= Seq::<Seq<char>>::empty());
    }
    while j < g.ty_params.len()
        invariant
            0 <= j <= g.ty_params@.len(),
            r.deep_view() == lt_decl_chunks(g.lifetimes@) + tp_decl_chunks(
                g.ty_params@.take(j as int),
            ),
        decreases g.ty_params@.len() - j,
    {
        push_string(&mut r, g.ty_params[j].decl.clone());
        proof {
            assert(r.deep_view() =~= lt_decl_chunks(g.lifetimes@) + tp_decl_chunks(
                g.ty_params@.take(j as int + 1),
            ));
        }
        j = j + 1;
    }
    proof {
        assert(g.ty_params@.take(g.ty_params@.len() as int) =~= g.ty_params@);
    }
    r
}

fn param_name_list(g: &Generics) -> (r: Vec<String>)
    ensures
        r.deep_view() == param_names(*g),
{
    let mut r: Vec<String> = Vec::new();
    let mut i: usize = 0;
    proof {
        assert(r.deep_view() =~= lt_name_chunks(g.lifetimes@.take(0)));
    }
    while i < g.lifetimes.len()
        invariant
            0 <= i <= g.lifetimes@.len(),
            r.deep_view() == lt_name_chunks(g.lifetimes@.take(i as int)),
        decreases g.lifetimes@.len() - i,
    {
        push_string(&mut r, g.lifetimes[i].name.clone());
        proof {
            assert(r.deep_view() =~= lt_name_chunks(g.lifetimes@.take(i as int + 1)));
        }
        i = i + 1;
    }
    let mut j: usize = 0;
    proof {
        assert(g.lifetimes@.take(g.lifetimes@.len() as int) =~= g.lifetimes@);
        assert(tp_name_chunks(g.ty_params@.take(0)) =~= Seq::<Seq<char>>::empty());
    }
    while j < g.ty_params.len()
        invariant
            0 <= j <= g.ty_params@.len(),
            r.deep_view() == lt_name_chunks(g.lifetimes@) + tp_name_chunks(
                g.ty_params@.take(j as int),
            ),
        decreases g.ty_params@.len() - j,
    {
        push_string(&mut r, g.ty_params[j].name.clone());
        proof {
            assert(r.deep_view() =~= lt_name_chunks(g.lifetimes@) + tp_name_chunks(
                g.ty_params@.take(j as int + 1),
            ));
        }
        j = j + 1;
    }
    proof {
        assert(g.ty_params@.take(g.ty_params@.len() as int) =~= g.ty_params@);
    }
    r
}

fn append_list(a: Vec<String>, b: Vec<String>) -> (r: Vec<String>)
    ensures
        r.deep_view() == a.deep_view() + b.deep_view(),
{
    let mut r = a;
    extend(&mut r, b);
    r
}

fn push_vis(out: &mut Vec<String>, vis: &Option<String>)
    ensures
        final(out).deep_view() == old(out).deep_view() + vis_chunks(*vis),
{
    match vis {
        Option::None => {
            proof {
                assert(old(out).deep_view() + vis_chunks(*vis) =~= old(out).deep_view());
            }
        },
        Option::Some(v) => {
            push_string(out, v.clone());
            proof {
                assert(out.deep_view() =~= old(out).deep_view() + vis_chunks(*vis));
            }
        },
    }
}

fn push_where(out: &mut Vec<String>, g: &Generics)
    ensures
        final(out).deep_view() == old(out).deep_view() + where_chunks(*g),
{
    match &g.where_clause {
        Option::None => {
            proof {
                assert(old(out).deep_view() + where_chunks(*g) =~= old(out).deep_view());
            }
        },
        Option::Some(w) => {
            push_string(out, w.clone());
            proof {
                assert(out.deep_view() =~= old(out).deep_view() + where_chunks(*g));
            }
        },
    }
}

fn marker_list(fields: &Vec<FieldInfo>) -> (r: Vec<String>)
    ensures
        r.deep_view() == marker_chunks(fields@),
{
    let mut r: Vec<String> = Vec::new();
    let mut i: usize = 0;
    proof {
        assert(r.deep_view() =~= marker_chunks(fields@.take(0)));
    }
    while i < fields.len()
        invariant
            0 <= i <= fields@.len(),
            r.deep_view() == marker_chunks(fields@.take(i as int)),
        decreases fields@.len() - i,
    {
        push_string(&mut r, fields[i].generic_ty_param());
        proof {
            assert(r.deep_view() =~= marker_chunks(fields@.take(i as int + 1)));
        }
        i = i + 1;
    }
    proof {
        assert(fields@.take(fields@.len() as int) =~= fields@);
    }
    r
}

fn absent_list(fields: &Vec<FieldInfo>) -> (r: Vec<String>)
    ensures
        r.deep_view() == absent_arg_chunks(fields@),
{
    let mut r: Vec<String> = Vec::new();
    let mut i: usize = 0;
    proof {
        assert(r.deep_view() =~= absent_arg_chunks(fields@.take(0)));
    }
    while i < fields.len()
        invariant
            0 <= i <= fields@.len(),
            r.deep_view() == absent_arg_chunks(fields@.take(i as int)),
        decreases fields@.len() - i,
    {
        push_string(&mut r, FieldInfo::empty_ty_param());
        proof {
            assert(r.deep_view() =~= absent_arg_chunks(fields@.take(i as int + 1)));
        }
        i = i + 1;
    }
    proof {
        assert(fields@.take(fields@.len() as int) =~= fields@);
    }
    r
}

fn push_init_empties(out: &mut Vec<String>, fields: &Vec<FieldInfo>)
    ensures
        final(out).deep_view() == old(out).deep_view() + init_empties_from(fields@, 0),
{
    let mut j: usize = 0;
    while j < fields.len()
        invariant
            0 <= j <= fields@.len(),
            out.deep_view() + init_empties_from(fields@, j as int) =~= old(out).deep_view()
                + init_empties_from(fields@, 0),
        decreases fields@.len() - j,
    {
        push_string(out, fields[j].name.clone());
        push_chunk(out, ":");
        push_chunk(out, "()");
        if j + 1 < fields.len() {
            push_chunk(out, ",");
        }
        proof {
            assert(out.deep_view() + init_empties_from(fields@, j as int + 1) =~= old(
                out,
            ).deep_view() + init_empties_from(fields@, 0));
        }
        j = j + 1;
    }
}

fn push_builder_field_decls(out: &mut Vec<String>, fields: &Vec<FieldInfo>)
    ensures
        final(out).deep_view() == old(out).deep_view() + builder_field_decls_from(fields@, 0),
{
    let mut j: usize = 0;
    while j < fields.len()
        invariant
            0 <= j <= fields@.len(),
            out.deep_view() + builder_field_decls_from(fields@, j as int) =~= old(out).deep_view()
                + builder_field_decls_from(fields@, 0),
        decreases fields@.len() - j,
    {
        push_string(out, fields[j].name.clone());
        push_chunk(out, ":");
        push_string(out, fields[j].generic_ty_param());
        if j + 1 < fields.len() {
            push_chunk(out, ",");
        }
        proof {
            assert(out.deep_view() + builder_field_decls_from(fields@, j as int + 1) =~= old(
                out,
            ).deep_view() + builder_field_decls_from(fields@, 0));
        }
        j = j + 1;
    }
}

fn push_phantoms(out: &mut Vec<String>, g: &Generics)
    ensures
        final(out).deep_view() == old(out).deep_view() + phantom_lt_from(g.lifetimes@, 0)
            + phantom_tp_from(g.ty_params@, 0),
{
    let mut j: usize = 0;
    while j < g.lifetimes.len()
        invariant
            0 <= j <= g.lifetimes@.len(),
            out.deep_view() + phantom_lt_from(g.lifetimes@, j as int) =~= old(out).deep_view()
                + phantom_lt_from(g.lifetimes@, 0),
        decreases g.lifetimes@.len() - j,
    {
        let mut c = String::from_str("::std::marker::PhantomData<&");
        c.append(g.lifetimes[j].name.as_str());
        c.append(" ()>");
        push_string(out, c);
        push_chunk(out, ",");
        proof {
            assert(out.deep_view() + phantom_lt_from(g.lifetimes@, j as int + 1) =~= old(
                out,
            ).deep_view() + phantom_lt_from(g.lifetimes@, 0));
        }
        j = j + 1;
    }
    let ghost mid = out.deep_view();
    let mut m: usize = 0;
    while m < g.ty_params.len()
        invariant
            0 <= m <= g.ty_params@.len(),
            out.deep_view() + phantom_tp_from(g.ty_params@, m as int) =~= mid + phantom_tp_from(
                g.ty_params@,
                0,
            ),
        decreases g.ty_params@.len() - m,
    {
        let mut c = String::from_str("::std::marker::PhantomData<");
        c.append(g.ty_params[m].name.as_str());
        c.append(">");
        push_string(out, c);
        push_chunk(out, ",");
        proof {
            assert(out.deep_view() + phantom_tp_from(g.ty_params@, m as int + 1) =~= mid
                + phantom_tp_from(g.ty_params@, 0));
        }
        m = m + 1;
    }
    proof {
        assert(out.deep_view() =~= old(out).deep_view() + phantom_lt_from(g.lifetimes@, 0)
            + phantom_tp_from(g.ty_params@, 0));
    }
}

fn setter_receiver_list(fields: &Vec<FieldInfo>, k: usize) -> (r: Vec<String>)
    ensures
        r.deep_view() == setter_receiver_slots(fields@, k as int),
{
    let mut r: Vec<String> = Vec::new();
    let mut j: usize = 0;
    proof {
        assert(r.deep_view() =~= setter_receiver_slots(fields@, k as int).take(0));
    }
    while j < fields.len()
        invariant
            0 <= j <= fields@.len(),
            r.deep_view() == setter_receiver_slots(fields@, k as int).take(j as int),
        decreases fields@.len() - j,
    {
        if j == k {
            push_string(&mut r, FieldInfo::empty_ty_param());
        } else {
            push_string(&mut r, fields[j].generic_ty_param());
        }
        proof {
            assert(r.deep_view() =~= setter_receiver_slots(fields@, k as int).take(j as int + 1));
        }
        j = j + 1;
    }
    proof {
        let full = setter_receiver_slots(fields@, k as int);
        assert(full.take(full.len() as int) =~= full);
    }
    r
}

fn setter_target_list(fields: &Vec<FieldInfo>, k: usize) -> (r: Vec<String>)
    ensures
        r.deep_view() == setter_target_slots(fields@, k as int),
{
    let mut r: Vec<String> = Vec::new();
    let mut j: usize = 0;
    proof {
        assert(r.deep_view() =~= setter_target_slots(fields@, k as int).take(0));
    }
    while j < fields.len()
        invariant
            0 <= j <= fields@.len(),
            r.deep_view() == setter_target_slots(fields@, k as int).take(j as int),
        decreases fields@.len() - j,
    {
        if j == k {
            push_string(&mut r, fields[j].tuplized_type_ty_param());
        } else {
            push_string(&mut r, fields[j].generic_ty_param());
        }
        proof {
            assert(r.deep_view() =~= setter_target_slots(fields@, k as int).take(j as int + 1));
        }
        j = j + 1;
    }
    proof {
        let full = setter_target_slots(fields@, k as int);
        assert(full.take(full.len() as int) =~= full);
    }
    r
}

fn build_receiver_list(fields: &Vec<FieldInfo>) -> (r: Vec<String>)
    ensures
        r.deep_view() == build_receiver_slots(fields@),
{
    let mut r: Vec<String> = Vec::new();
    let mut j: usize = 0;
    proof {
        assert(r.deep_view() =~= build_receiver_slots(fields@).take(0));
    }
    while j < fields.len()
        invariant
            0 <= j <= fields@.len(),
            r.deep_view() == build_receiver_slots(fields@).take(j as int),
        decreases fields@.len() - j,
    {
        if fields[j].defaulted() {
            push_string(&mut r, fields[j].generic_ty_param());
        } else {
            push_string(&mut r, fields[j].tuplized_type_ty_param());
        }
        proof {
            assert(r.deep_view() =~= build_receiver_slots(fields@).take(j as int + 1));
        }
        j = j + 1;
    }
    proof {
        let full = build_receiver_slots(fields@);
        assert(full.take(full.len() as int) =~= full);
    }
    r
}

fn other_marker_list(fields: &Vec<FieldInfo>, k: usize) -> (r: Vec<String>)
    ensures
        r.deep_view() == other_marker_decls(fields@, k as int),
{
    let mut r: Vec<String> = Vec::new();
    let mut j: usize = 0;
    while j < fields.len()
        invariant
            0 <= j <= fields@.len(),
            r.deep_view() + other_marker_decls_from(fields@, k as int, j as int)
                =~= other_marker_decls_from(fields@, k as int, 0),
        decreases fields@.len() - j,
    {
        if j != k {
            push_string(&mut r, fields[j].generic_ty_param());
        }
        proof {
            assert(r.deep_view() + other_marker_decls_from(fields@, k as int, j as int + 1)
                =~= other_marker_decls_from(fields@, k as int, 0));
        }
        j = j + 1;
    }
    r
}

fn build_extra_list(fields: &Vec<FieldInfo>, trait_name: &String) -> (r: Vec<String>)
    ensures
        r.deep_view() == build_extra_decls(fields@, trait_name@),
{
    let mut r: Vec<String> = Vec::new();
    let mut j: usize = 0;
    while j < fields.len()
        invariant
            0 <= j <= fields@.len(),
            r.deep_view() + build_extra_decls_from(fields@, trait_name@, j as int)
                =~= build_extra_decls_from(fields@, trait_name@, 0),
        decreases fields@.len() - j,
    {
        if fields[j].defaulted() {
            let mut c = fields[j].generic_ty_param();
            c.append(": ");
            c.append(trait_name.as_str());
            c.append("<");
            c.append(fields[j].ty.as_str());
            c.append(">");
            proof {
                assert(c@ =~= bounded_marker_chars(fields@[j as int], trait_name@));
            }
            push_string(&mut r, c);
        }
        proof {
            assert(r.deep_view() + build_extra_decls_from(fields@, trait_name@, j as int + 1)
                =~= build_extra_decls_from(fields@, trait_name@, 0));
        }
        j = j + 1;
    }
    r
}

fn push_other_moves(out: &mut Vec<String>, fields: &Vec<FieldInfo>, k: usize)
    ensures
        final(out).deep_view() == old(out).deep_view() + other_moves_from(fields@, k as int, 0),
{
    let mut j: usize = 0;
    while j < fields.len()
        invariant
            0 <= j <= fields@.len(),
            out.deep_view() + other_moves_from(fields@, k as int, j as int) =~= old(
                out,
            ).deep_view() + other_moves_from(fields@, k as int, 0),
        decreases fields@.len() - j,
    {
        if j != k {
            push_string(out, fields[j].name.clone());
            push_chunk(out, ":");
            push_chunk(out, "self");
            push_chunk(out, ".");
            push_string(out, fields[j].name.clone());
            let more: bool = if j + 1 == k {
                fields.len() - j > 2
            } else {
                j + 1 < fields.len()
            };
            if more {
                push_chunk(out, ",");
            }
        }
        proof {
            assert(out.deep_view() + other_moves_from(fields@, k as int, j as int + 1) =~= old(
                out,
            ).deep_view() + other_moves_from(fields@, k as int, 0));
        }
        j = j + 1;
    }
}

fn push_build_assigns(out: &mut Vec<String>, fields: &Vec<FieldInfo>, method: &String)
    ensures
        final(out).deep_view() == old(out).deep_view() + build_assigns_from(fields@, method@, 0),
{
    let mut j: usize = 0;
    while j < fields.len()
        invariant
            0 <= j <= fields@.len(),
            out.deep_view() + build_assigns_from(fields@, method@, j as int) =~= old(
                out,
            ).deep_view() + build_assigns_from(fields@, method@, 0),
        decreases fields@.len() - j,
    {
        push_string(out, fields[j].name.clone());
        push_chunk(out, ":");
        push_chunk(out, "self");
        push_chunk(out, ".");
        push_string(out, fields[j].name.clone());
        push_chunk(out, ".");
        if fields[j].defaulted() {
            push_string(out, method.clone());
            push_chunk(out, "(");
            match &fields[j].default {
                DefaultKind::Required => {},
                DefaultKind::StdDefault => {
                    push_chunk(out, "::std::default::Default::default()");
                },
                DefaultKind::Expr(e) => {
                    push_string(out, e.clone());
                },
            }
            push_chunk(out, ")");
        } else {
            push_chunk(out, "0");
        }
        if j + 1 < fields.len() {
            push_chunk(out, ",");
        }
        proof {
            assert(out.deep_view() + build_assigns_from(fields@, method@, j as int + 1) =~= old(
                out,
            ).deep_view() + build_assigns_from(fields@, method@, 0));
        }
        j = j + 1;
    }
}

/// The whole-record plan: the source record's header data, the ordered
/// field metadata, and the minted names of the generated items.
#[derive(Debug)]
pub struct StructInfo {
    pub vis: Option<String>,
    pub name: String,
    pub builder_name: String,
    pub generics: Generics,
    pub fields: Vec<FieldInfo>,
    pub conversion_helper_trait_name: String,
    pub conversion_helper_method_name: String,
}

impl StructInfo {
    /// The derived names follow the fixed rules and the fields sit at
    /// their ordinals.
    pub open spec fn wf(self) -> bool {
        &&& self.builder_name@ == builder_name_chars(self.name@)
        &&& self.conversion_helper_trait_name@ == helper_trait_chars(self.name@)
        &&& self.conversion_helper_method_name@ == helper_method_chars(self.name@)
        &&& forall|i: int|
            0 <= i < self.fields@.len() ==> (#[trigger] self.fields@[i]).wf()
                && self.fields@[i].ordinal == i
    }

    /// Build the plan of a record: derive the builder and helper names,
    /// and accept each field in order. The first unacceptable field
    /// aborts the plan with its fault.
    pub fn new(ast: StructDecl, fields: &Vec<ParsedField>) -> (r: Result<StructInfo, FieldError>)
        ensures
            r is Ok <==> (forall|i: int|
                0 <= i < fields@.len() ==> parsed_field_valid(#[trigger] fields@[i])),
            match r {
                Result::Ok(s) => {
                    &&& s.wf()
                    &&& s.vis == ast.vis
                    &&& s.name@ == ast.name@
                    &&& s.generics == ast.generics
                    &&& s.fields@.len() == fields@.len()
                    &&& forall|i: int|
                        0 <= i < fields@.len() ==> field_built_from(
                            #[trigger] s.fields@[i],
                            fields@[i],
                            i,
                        )
                },
                Result::Err(e) => exists|i: int|
                    {
                        &&& 0 <= i < fields@.len()
                        &&& !parsed_field_valid(#[trigger] fields@[i])
                        &&& (forall|j: int| 0 <= j < i ==> parsed_field_valid(#[trigger] fields@[j]))
                        &&& field_error_view(e) == expected_field_error(fields@[i])
                    },
            },
    {
        let mut infos: Vec<FieldInfo> = Vec::new();
        let mut i: usize = 0;
        while i < fields.len()
            invariant
                0 <= i <= fields@.len(),
                infos@.len() == i,
                forall|j: int| 0 <= j < i ==> parsed_field_valid(#[trigger] fields@[j]),
                forall|j: int|
                    0 <= j < i ==> field_built_from(#[trigger] infos@[j], fields@[j], j),
            decreases fields@.len() - i,
        {
            match FieldInfo::new(i, &fields[i]) {
                Result::Ok(f) => {
                    infos.push(f);
                },
                Result::Err(e) => {
                    return Result::Err(e);
                },
            }
            i = i + 1;
        }
        let builder_name = builder_ident(ast.name.as_str());
        let trait_name = helper_trait_ident(ast.name.as_str());
        let method_name = helper_method_ident(ast.name.as_str());
        Result::Ok(
            StructInfo {
                vis: ast.vis,
                name: ast.name,
                builder_name,
                generics: ast.generics,
                fields: infos,
                conversion_helper_trait_name: trait_name,
                conversion_helper_method_name: method_name,
            },
        )
    }

    #[verifier::rlimit(100)]
    fn builder_entry_part(&self) -> (r: Vec<String>)
        ensures
            r.deep_view() == spec_builder_entry(*self),
    {
        let mut out: Vec<String> = Vec::new();
        push_chunk(&mut out, "impl");
        let decls = param_decl_list(&self.generics);
        push_angle_list(&mut out, &decls);
        push_string(&mut out, self.name.clone());
        let names = param_name_list(&self.generics);
        push_angle_list(&mut out, &names);
        push_where(&mut out, &self.generics);
        proof {
            assert(out.deep_view() =~= seq!["impl"@] + angle_list(param_decls(self.generics))
                + seq![self.name@] + angle_list(param_names(self.generics)) + where_chunks(
                self.generics,
            ));
        }
        push_chunk(&mut out, "{");
        push_chunk(&mut out, "#[allow(dead_code)]");
        push_vis(&mut out, &self.vis);
        push_chunk(&mut out, "fn");
        push_chunk(&mut out, "builder");
        push_chunk(&mut out, "(");
        push_chunk(&mut out, ")");
        push_chunk(&mut out, "->");
        push_string(&mut out, self.builder_name.clone());
        let entry_args = append_list(param_name_list(&self.generics), absent_list(&self.fields));
        push_angle_list(&mut out, &entry_args);
        proof {
            assert(out.deep_view() =~= seq!["impl"@] + angle_list(param_decls(self.generics))
                + seq![self.name@] + angle_list(param_names(self.generics)) + where_chunks(
                self.generics,
            ) + seq!["{"@, "#[allow(dead_code)]"@] + vis_chunks(self.vis) + seq![
                "fn"@,
                "builder"@,
                "("@,
                ")"@,
                "->"@,
                self.builder_name@,
            ] + angle_list(param_names(self.generics) + absent_arg_chunks(self.fields@)));
        }
        push_chunk(&mut out, "{");
        push_string(&mut out, self.builder_name.clone());
        push_chunk(&mut out, "{");
        push_string(&mut out, phantom_field_ident());
        push_chunk(&mut out, ":");
        push_chunk(&mut out, "::std::default::Default::default()");
        push_chunk(&mut out, ",");
        push_init_empties(&mut out, &self.fields);
        push_chunk(&mut out, "}");
        push_chunk(&mut out, "}");
        push_chunk(&mut out, "}");
        proof {
            assert(out.deep_view() =~= spec_builder_entry(*self));
        }
        out
    }

    #[verifier::rlimit(100)]
    fn builder_struct_part(&self) -> (r: Vec<String>)
        ensures
            r.deep_view() == spec_builder_struct(*self),
    {
        let mut out: Vec<String> = Vec::new();
        let ghost mid = out.deep_view();
        push_chunk(&mut out, "#[allow(dead_code, non_camel_case_types, non_snake_case)]");
        push_vis(&mut out, &self.vis);
        push_chunk(&mut out, "struct");
        push_string(&mut out, self.builder_name.clone());
        let builder_params = append_list(param_decl_list(&self.generics), marker_list(&self.fields));
        push_angle_list(&mut out, &builder_params);
        push_where(&mut out, &self.generics);
        proof {
            assert(out.deep_view() =~= mid + seq![
                "#[allow(dead_code, non_camel_case_types, non_snake_case)]"@,
            ] + vis_chunks(self.vis) + seq!["struct"@, self.builder_name@] + angle_list(
                param_decls(self.generics) + marker_chunks(self.fields@),
            ) + where_chunks(self.generics));
        }
        push_chunk(&mut out, "{");
        push_string(&mut out, phantom_field_ident());
        push_chunk(&mut out, ":");
        push_chunk(&mut out, "(");
        push_phantoms(&mut out, &self.generics);
        push_chunk(&mut out, ")");
        push_chunk(&mut out, ",");
        push_builder_field_decls(&mut out, &self.fields);
        push_chunk(&mut out, "}");
        proof {
            assert(out.deep_view() =~= spec_builder_struct(*self));
        }
        out
    }

    /// The builder entry: the inherent `builder()` operation on the source
    /// record, returning a builder whose every slot is the absent-marker,
    /// together with the builder record declaration itself.
    pub fn builder_creation_impl(&self) -> (r: Vec<String>)
        ensures
            r.deep_view() == spec_builder_creation(*self),
    {
        append_list(self.builder_entry_part(), self.builder_struct_part())
    }

    /// The setter for one field of the plan: consumes the builder with
    /// that field's slot absent, converts the supplied value into the
    /// declared type at once, and returns the builder with that slot
    /// advanced; every other slot passes through unchanged.
    #[verifier::rlimit(100)]
    pub fn field_impl(&self, field: &FieldInfo) -> (r: Vec<String>)
        requires
            field.ordinal < self.fields@.len(),
            self.fields@[field.ordinal as int] == *field,
        ensures
            r.deep_view() == spec_field_impl(*self, field.ordinal as int),
    {
        let k = field.ordinal;
        let mut out: Vec<String> = Vec::new();
        push_chunk(&mut out, "#[allow(dead_code, non_camel_case_types)]");
        push_chunk(&mut out, "impl");
        let impl_params = append_list(param_decl_list(&self.generics), other_marker_list(&self.fields, k));
        push_angle_list(&mut out, &impl_params);
        push_string(&mut out, self.builder_name.clone());
        let receiver_args = append_list(param_name_list(&self.generics), setter_receiver_list(&self.fields, k));
        push_angle_list(&mut out, &receiver_args);
        push_where(&mut out, &self.generics);
        proof {
            assert(out.deep_view() =~= seq!["#[allow(dead_code, non_camel_case_types)]"@, "impl"@]
                + angle_list(param_decls(self.generics) + other_marker_decls(self.fields@, k as int))
                + seq![self.builder_name@] + angle_list(
                param_names(self.generics) + setter_receiver_slots(self.fields@, k as int),
            ) + where_chunks(self.generics));
        }
        push_chunk(&mut out, "{");
        push_chunk(&mut out, "pub");
        push_chunk(&mut out, "fn");
        push_string(&mut out, field.name.clone());
        push_chunk(&mut out, "<");
        let mut bound = field.generic_ty_param();
        bound.append(": ::std::convert::Into<");
        bound.append(field.ty.as_str());
        bound.append(">");
        proof {
            assert(bound@ =~= setter_bound_chars(self.fields@[k as int]));
        }
        push_string(&mut out, bound);
        push_chunk(&mut out, ">");
        push_chunk(&mut out, "(");
        push_chunk(&mut out, "self");
        push_chunk(&mut out, ",");
        push_chunk(&mut out, "value");
        push_chunk(&mut out, ":");
        push_string(&mut out, field.generic_ty_param());
        push_chunk(&mut out, ")");
        push_chunk(&mut out, "->");
        push_string(&mut out, self.builder_name.clone());
        let target_args = append_list(param_name_list(&self.generics), setter_target_list(&self.fields, k));
        push_angle_list(&mut out, &target_args);
        proof {
            assert(out.deep_view() =~= seq!["#[allow(dead_code, non_camel_case_types)]"@, "impl"@]
                + angle_list(param_decls(self.generics) + other_marker_decls(self.fields@, k as int))
                + seq![self.builder_name@] + angle_list(
                param_names(self.generics) + setter_receiver_slots(self.fields@, k as int),
            ) + where_chunks(self.generics) + seq![
                "{"@,
                "pub"@,
                "fn"@,
                self.fields@[k as int].name@,
                "<"@,
                setter_bound_chars(self.fields@[k as int]),
                ">"@,
                "("@,
                "self"@,
                ","@,
                "value"@,
                ":"@,
                self.fields@[k as int].generic_ident@,
                ")"@,
                "->"@,
                self.builder_name@,
            ] + angle_list(param_names(self.generics) + setter_target_slots(self.fields@, k as int)));
        }
        let ghost mid = out.deep_view();
        push_chunk(&mut out, "{");
        push_string(&mut out, self.builder_name.clone());
        push_chunk(&mut out, "{");
        push_string(&mut out, phantom_field_ident());
        push_chunk(&mut out, ":");
        push_chunk(&mut out, "self");
        push_chunk(&mut out, ".");
        push_string(&mut out, phantom_field_ident());
        push_chunk(&mut out, ",");
        push_string(&mut out, field.name.clone());
        push_chunk(&mut out, ":");
        push_chunk(&mut out, "(value.into(),)");
        push_chunk(&mut out, ",");
        push_other_moves(&mut out, &self.fields, k);
        push_chunk(&mut out, "}");
        push_chunk(&mut out, "}");
        push_chunk(&mut out, "}");
        proof {
            assert(out.deep_view() =~= mid + seq![
                "{"@,
                self.builder_name@,
                "{"@,
                phantom_field_chars(),
                ":"@,
                "self"@,
                "."@,
                phantom_field_chars(),
                ","@,
                self.fields@[k as int].name@,
                ":"@,
                "(value.into(),)"@,
                ","@,
            ] + other_moves_from(self.fields@, k as int, 0) + seq!["}"@, "}"@, "}"@]);
            assert(out.deep_view() =~= spec_field_impl(*self, k as int));
        }
        out
    }

    /// The finalizer: the terminal `build` operation, admissible only
    /// when every required slot holds its present-marker; required
    /// fields are untupled, defaulted fields go through the
    /// default-witness capability with their default expression.
    #[verifier::rlimit(100)]
    pub fn build_method_impl(&self) -> (r: Vec<String>)
        ensures
            r.deep_view() == spec_build_method(*self),
    {
        let mut out: Vec<String> = Vec::new();
        push_chunk(&mut out, "#[allow(dead_code, non_camel_case_types)]");
        push_chunk(&mut out, "impl");
        let impl_params = append_list(
            param_decl_list(&self.generics),
            build_extra_list(&self.fields, &self.conversion_helper_trait_name),
        );
        push_angle_list(&mut out, &impl_params);
        push_string(&mut out, self.builder_name.clone());
        let receiver_args = append_list(param_name_list(&self.generics), build_receiver_list(&self.fields));
        push_angle_list(&mut out, &receiver_args);
        push_where(&mut out, &self.generics);
        proof {
            assert(out.deep_view() =~= seq!["#[allow(dead_code, non_camel_case_types)]"@, "impl"@]
                + angle_list(
                param_decls(self.generics) + build_extra_decls(
                    self.fields@,
                    self.conversion_helper_trait_name@,
                ),
            ) + seq![self.builder_name@] + angle_list(
                param_names(self.generics) + build_receiver_slots(self.fields@),
            ) + where_chunks(self.generics));
        }
        let ghost mid = out.deep_view();
        push_chunk(&mut out, "{");
        push_chunk(&mut out, "pub");
        push_chunk(&mut out, "fn");
        push_chunk(&mut out, "build");
        push_chunk(&mut out, "(");
        push_chunk(&mut out, "self");
        push_chunk(&mut out, ")");
        push_chunk(&mut out, "->");
        push_string(&mut out, self.name.clone());
        let names = param_name_list(&self.generics);
        push_angle_list(&mut out, &names);
        push_chunk(&mut out, "{");
        push_string(&mut out, self.name.clone());
        push_chunk(&mut out, "{");
        proof {
            assert(out.deep_view() =~= mid + seq![
                "{"@,
                "pub"@,
                "fn"@,
                "build"@,
                "("@,
                "self"@,
                ")"@,
                "->"@,
                self.name@,
            ] + angle_list(param_names(self.generics)) + seq!["{"@, self.name@, "{"@]);
        }
        push_build_assigns(&mut out, &self.fields, &self.conversion_helper_method_name);
        push_chunk(&mut out, "}");
        push_chunk(&mut out, "}");
        push_chunk(&mut out, "}");
        proof {
            assert(out.deep_view() =~= spec_build_method(*self));
        }
        out
    }

    /// The default-witness capability: a helper trait with one method and
    /// its two blanket instances. On the zero-tuple (absent) the method
    /// returns its `default` argument; on the one-tuple (present) it
    /// returns the stored value and ignores the argument.
    pub fn conversion_helper_impl(&self) -> (r: Vec<String>)
        ensures
            r.deep_view() == spec_conversion_helper(*self),
    {
        let mut out: Vec<String> = Vec::new();
        push_chunk(&mut out, "#[allow(dead_code, non_camel_case_types, non_snake_case)]");
        push_chunk(&mut out, "pub");
        push_chunk(&mut out, "trait");
        push_string(&mut out, self.conversion_helper_trait_name.clone());
        push_chunk(&mut out, "<");
        push_chunk(&mut out, "T");
        push_chunk(&mut out, ">");
        push_chunk(&mut out, "{");
        push_chunk(&mut out, "fn");
        push_string(&mut out, self.conversion_helper_method_name.clone());
        push_chunk(&mut out, "(self, default: T) -> T ;");
        push_chunk(&mut out, "}");
        push_chunk(&mut out, "impl");
        push_chunk(&mut out, "<");
        push_chunk(&mut out, "T");
        push_chunk(&mut out, ">");
        push_string(&mut out, self.conversion_helper_trait_name.clone());
        push_chunk(&mut out, "<");
        push_chunk(&mut out, "T");
        push_chunk(&mut out, ">");
        push_chunk(&mut out, "for");
        push_chunk(&mut out, "()");
        push_chunk(&mut out, "{");
        push_chunk(&mut out, "fn");
        push_string(&mut out, self.conversion_helper_method_name.clone());
        push_chunk(&mut out, "(self, default: T) -> T");
        push_chunk(&mut out, "{");
        push_chunk(&mut out, "default");
        push_chunk(&mut out, "}");
        push_chunk(&mut out, "}");
        push_chunk(&mut out, "impl");
        push_chunk(&mut out, "<");
        push_chunk(&mut out, "T");
        push_chunk(&mut out, ">");
        push_string(&mut out, self.conversion_helper_trait_name.clone());
        push_chunk(&mut out, "<");
        push_chunk(&mut out, "T");
        push_chunk(&mut out, ">");
        push_chunk(&mut out, "for");
        push_chunk(&mut out, "(T,)");
        push_chunk(&mut out, "{");
        push_chunk(&mut out, "fn");
        push_string(&mut out, self.conversion_helper_method_name.clone());
        push_chunk(&mut out, "(self, _: T) -> T");
        push_chunk(&mut out, "{");
        push_chunk(&mut out, "self.0");
        push_chunk(&mut out, "}");
        push_chunk(&mut out, "}");
        proof {
            assert(out.deep_view() =~= spec_conversion_helper(*self));
        }
        out
    }
}

/// The chunks of the builder entry: the inherent `builder()` operation on
/// the source record, returning the builder with every slot absent.
pub open spec fn spec_builder_entry(s: StructInfo) -> Seq<Seq<char>> {
    seq!["impl"@] + angle_list(param_decls(s.generics)) + seq![s.name@] + angle_list(
        param_names(s.generics),
    ) + where_chunks(s.generics) + seq!["{"@, "#[allow(dead_code)]"@] + vis_chunks(s.vis) + seq![
        "fn"@,
        "builder"@,
        "("@,
        ")"@,
        "->"@,
        s.builder_name@,
    ] + angle_list(param_names(s.generics) + absent_arg_chunks(s.fields@)) + seq![
        "{"@,
        s.builder_name@,
        "{"@,
        phantom_field_chars(),
        ":"@,
        "::std::default::Default::default()"@,
        ","@,
    ] + init_empties_from(s.fields@, 0) + seq!["}"@, "}"@, "}"@]
}

/// The chunks of the builder record declaration: the record's own generic
/// parameters, then one marker parameter per field; a phantom field that
/// uses every lifetime and type parameter, then one field per source
/// field at its marker.
pub open spec fn spec_builder_struct(s: StructInfo) -> Seq<Seq<char>> {
    seq!["#[allow(dead_code, non_camel_case_types, non_snake_case)]"@] + vis_chunks(s.vis) + seq![
        "struct"@,
        s.builder_name@,
    ] + angle_list(param_decls(s.generics) + marker_chunks(s.fields@)) + where_chunks(s.generics)
        + seq!["{"@, phantom_field_chars(), ":"@, "("@] + phantom_lt_from(s.generics.lifetimes@, 0)
        + phantom_tp_from(s.generics.ty_params@, 0) + seq![")"@, ","@] + builder_field_decls_from(
        s.fields@,
        0,
    ) + seq!["}"@]
}

/// The chunks of the builder-entry artifact group: the entry operation,
/// then the builder record declaration.
pub open spec fn spec_builder_creation(s: StructInfo) -> Seq<Seq<char>> {
    spec_builder_entry(s) + spec_builder_struct(s)
}

/// The chunks of the setter for field `k`: an inherent operation on the
/// builder whose receiver pins slot `k` to the absent-marker, takes any
/// value convertible into the field's declared type, converts it at once,
/// and returns the builder with slot `k` advanced to the present-marker.
pub open spec fn spec_field_impl(s: StructInfo, k: int) -> Seq<Seq<char>> {
    let f = s.fields@[k];
    seq!["#[allow(dead_code, non_camel_case_types)]"@, "impl"@] + angle_list(
        param_decls(s.generics) + other_marker_decls(s.fields@, k),
    ) + seq![s.builder_name@] + angle_list(param_names(s.generics) + setter_receiver_slots(s.fields@, k))
        + where_chunks(s.generics) + seq![
        "{"@,
        "pub"@,
        "fn"@,
        f.name@,
        "<"@,
        setter_bound_chars(f),
        ">"@,
        "("@,
        "self"@,
        ","@,
        "value"@,
        ":"@,
        f.generic_ident@,
        ")"@,
        "->"@,
        s.builder_name@,
    ] + angle_list(param_names(s.generics) + setter_target_slots(s.fields@, k)) + seq![
        "{"@,
        s.builder_name@,
        "{"@,
        phantom_field_chars(),
        ":"@,
        "self"@,
        "."@,
        phantom_field_chars(),
        ","@,
        f.name@,
        ":"@,
        "(value.into(),)"@,
        ","@,
    ] + other_moves_from(s.fields@, k, 0) + seq!["}"@, "}"@, "}"@]
}

/// The chunks of the finalizer: an inherent `build` operation on the
/// builder, whose receiver pins every required slot to its
/// present-marker while each defaulted slot keeps a free marker bounded
/// by the default-witness capability; its body yields the source record.
pub open spec fn spec_build_method(s: StructInfo) -> Seq<Seq<char>> {
    seq!["#[allow(dead_code, non_camel_case_types)]"@, "impl"@] + angle_list(
        param_decls(s.generics) + build_extra_decls(s.fields@, s.conversion_helper_trait_name@),
    ) + seq![s.builder_name@] + angle_list(param_names(s.generics) + build_receiver_slots(s.fields@))
        + where_chunks(s.generics) + seq![
        "{"@,
        "pub"@,
        "fn"@,
        "build"@,
        "("@,
        "self"@,
        ")"@,
        "->"@,
        s.name@,
    ] + angle_list(param_names(s.generics)) + seq!["{"@, s.name@, "{"@] + build_assigns_from(
        s.fields@,
        s.conversion_helper_method_name@,
        0,
    ) + seq!["}"@, "}"@, "}"@]
}

/// The chunks of the default-witness capability.
pub open spec fn spec_conversion_helper(s: StructInfo) -> Seq<Seq<char>> {
    seq![
        "#[allow(dead_code, non_camel_case_types, non_snake_case)]"@,
        "pub"@,
        "trait"@,
        s.conversion_helper_trait_name@,
        "<"@,
        "T"@,
        ">"@,
        "{"@,
        "fn"@,
        s.conversion_helper_method_name@,
        "(self, default: T) -> T ;"@,
        "}"@,
    ] + seq![
        "impl"@,
        "<"@,
        "T"@,
        ">"@,
        s.conversion_helper_trait_name@,
        "<"@,
        "T"@,
        ">"@,
        "for"@,
        "()"@,
        "{"@,
        "fn"@,
        s.conversion_helper_method_name@,
        "(self, default: T) -> T"@,
        "{"@,
        "default"@,
        "}"@,
        "}"@,
    ] + seq![
        "impl"@,
        "<"@,
        "T"@,
        ">"@,
        s.conversion_helper_trait_name@,
        "<"@,
        "T"@,
        ">"@,
        "for"@,
        "(T,)"@,
        "{"@,
        "fn"@,
        s.conversion_helper_method_name@,
        "(self, _: T) -> T"@,
        "{"@,
        "self.0"@,
        "}"@,
        "}"@,
    ]
}

} // verus!
