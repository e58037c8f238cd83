//! Token-chunk emission.
//!
//! Generated code is a sequence of source chunks; rendering joins them
//! with spaces. The helpers here append chunks to an output buffer and
//! relate the buffer's deep view to the chunk sequences the generator
//! contracts speak of.

use vstd::prelude::*;
use vstd::string::StringExecFns;

verus! {

/// Append one literal chunk.
pub fn push_chunk(out: &mut Vec<String>, c: &str)
    ensures
        final(out).deep_view() == old(out).deep_view().push(c@),
{
    out.push(String::from_str(c));
    proof {
        assert(out.deep_view() =~= old(out).deep_view().push(c@));
    }
}

/// Append one owned chunk.
pub fn push_string(out: &mut Vec<String>, c: String)
    ensures
        final(out).deep_view() == old(out).deep_view().push(c@),
{
    out.push(c);
    proof {
        assert(out.deep_view() =~= old(out).deep_view().push(c@));
    }
}

/// Append a whole chunk sequence.
pub fn extend(out: &mut Vec<String>, other: Vec<String>)
    ensures
        final(out).deep_view() == old(out).deep_view() + other.deep_view(),
{
    let mut rest = other;
    let ghost rest_view = rest.deep_view();
    out.append(&mut rest);
    proof {
        assert(out.deep_view() =~= old(out).deep_view() + rest_view);
    }
}

/// The chunks of a comma-separated list, after its first `i` elements:
/// each element followed by a comma, except the last.
pub open spec fn comma_join_upto(args: Seq<Seq<char>>, i: int) -> Seq<Seq<char>>
    decreases i,
{
    if i <= 0 {
        Seq::empty()
    } else {
        comma_join_upto(args, i - 1) + seq![args[i - 1]] + if i < args.len() {
            seq![","@]
        } else {
            Seq::empty()
        }
    }
}

/// The chunks of a comma-separated list.
pub open spec fn comma_join(args: Seq<Seq<char>>) -> Seq<Seq<char>> {
    comma_join_upto(args, args.len() as int)
}

/// A generic parameter or argument list: empty when there are no entries,
/// else the comma-separated entries between angle brackets.
pub open spec fn angle_list(args: Seq<Seq<char>>) -> Seq<Seq<char>> {
    if args.len() == 0 {
        Seq::empty()
    } else {
        seq!["<"@] + comma_join(args) + seq![">"@]
    }
}

/// Append a generic parameter or argument list.
pub fn push_angle_list(out: &mut Vec<String>, args: &Vec<String>)
    ensures
        final(out).deep_view() == old(out).deep_view() + angle_list(args.deep_view()),
{
    if args.len() == 0 {
        proof {
            assert(old(out).deep_view() + angle_list(args.deep_view()) =~= old(out).deep_view());
        }
        return ;
    }
    push_chunk(out, "<");
    let mut i: usize = 0;
    while i < args.len()
        invariant
            0 <= i <= args@.len(),
            args@.len() > 0,
            out.deep_view() =~= old(out).deep_view() + seq!["<"@] + comma_join_upto(
                args.deep_view(),
                i as int,
            ),
        decreases args@.len() - i,
    {
        push_string(out, args[i].clone());
        if i + 1 < args.len() {
            push_chunk(out, ",");
        }
        proof {
            assert(out.deep_view() =~= old(out).deep_view() + seq!["<"@] + comma_join_upto(
                args.deep_view(),
                i as int + 1,
            ));
        }
        i = i + 1;
    }
    push_chunk(out, ">");
    proof {
        assert(out.deep_view() =~= old(out).deep_view() + angle_list(args.deep_view()));
    }
}

/// The rendering of a chunk sequence: the chunks joined with single
/// spaces.
pub open spec fn join_chars(chunks: Seq<Seq<char>>, i: int) -> Seq<char>
    decreases i,
{
    if i <= 0 {
        Seq::empty()
    } else if i == 1 {
        chunks[0]
    } else {
        join_chars(chunks, i - 1) + " "@ + chunks[i - 1]
    }
}

/// Render a chunk sequence as source text, the chunks joined with single
/// spaces.
pub fn render(chunks: &Vec<String>) -> (r: String)
    ensures
        r@ == join_chars(chunks.deep_view(), chunks.deep_view().len() as int),
{
    let mut s = String::new();
    let mut i: usize = 0;
    while i < chunks.len()
        invariant
            0 <= i <= chunks@.len(),
            s@ == join_chars(chunks.deep_view(), i as int),
        decreases chunks@.len() - i,
    {
        if i > 0 {
            s.append(" ");
        }
        s.append(chunks[i].as_str());
        i = i + 1;
    }
    s
}

} // verus!
