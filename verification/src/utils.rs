//! Helpers the traversal leans on: reading the binding name out of a
//! pattern, collecting argument names from a parameter list, and spelling
//! a path from its segments.
use vstd::prelude::*;
use crate::ast::{first_ident_from, pat_name, Pat};
use crate::strutil::{join_strings, join_with};

verus! {

/// Every plain-identifier name among `ps` at or after position `i`, in
/// order.
pub open spec fn tuple_idents_from(ps: Seq<Pat>, i: int) -> Seq<Seq<char>>
    decreases ps.len() - i,
{
    if i < 0 || i >= ps.len() {
        Seq::<Seq<char>>::empty()
    } else {
        match ps[i] {
            Pat::Ident { name } => seq![name@] + tuple_idents_from(ps, i + 1),
            _ => tuple_idents_from(ps, i + 1),
        }
    }
}

/// The argument names a parameter list declares, read from position `i`
/// on: a plain identifier contributes its name, a tuple-struct pattern
/// contributes each identifier element, anything else contributes nothing.
pub open spec fn argument_names_from(ps: Seq<Pat>, i: int) -> Seq<Seq<char>>
    decreases ps.len() - i,
{
    if i < 0 || i >= ps.len() {
        Seq::<Seq<char>>::empty()
    } else {
        match ps[i] {
            Pat::TupleStruct { elems } => tuple_idents_from(elems@, 0) + argument_names_from(
                ps,
                i + 1,
            ),
            Pat::Ident { name } => seq![name@] + argument_names_from(ps, i + 1),
            _ => argument_names_from(ps, i + 1),
        }
    }
}

/// The binding name a local pattern registers, exactly per [`pat_name`].
pub fn get_local(i: &Pat) -> (r: Option<String>)
    ensures
        match (r, pat_name(*i)) {
            (Some(s), Some(n)) => s@ == n,
            (None, None) => true,
            _ => false,
        },
{
    match i {
        Pat::Ident { name } => Some(name.clone()),
        Pat::Typed { inner } => match &**inner {
            Pat::Ident { name } => Some(name.clone()),
            _ => None,
        },
        Pat::Tuple { elems } => {
            let mut j: usize = 0;
            while j < elems.len()
                invariant
                    j <= elems@.len(),
                    pat_name(*i) == first_ident_from(elems@, 0),
                    first_ident_from(elems@, 0) == first_ident_from(elems@, j as int),
                decreases elems@.len() - j,
            {
                if let Pat::Ident { name } = &elems[j] {
                    return Some(name.clone());
                }
                j = j + 1;
            }
            None
        },
        Pat::TupleStruct { .. } => None,
        Pat::Other => None,
    }
}

/// Collects the identifier elements of a tuple-struct pattern.
fn collect_tuple_idents(elems: &Vec<Pat>, out: &mut Vec<String>)
    ensures
        final(out).deep_view() == old(out).deep_view() + tuple_idents_from(elems@, 0),
{
    let mut j: usize = 0;
    while j < elems.len()
        invariant
            j <= elems@.len(),
            out.deep_view() + tuple_idents_from(elems@, j as int) == old(out).deep_view()
                + tuple_idents_from(elems@, 0),
        decreases elems@.len() - j,
    {
        if let Pat::Ident { name } = &elems[j] {
            let ghost before = out.deep_view();
            out.push(name.clone());
            proof {
                assert(out.deep_view() =~= before.push(name@));
                assert(before.push(name@) + tuple_idents_from(elems@, j + 1) =~= before + (seq![
                    name@,
                ] + tuple_idents_from(elems@, j + 1)));
            }
        }
        j = j + 1;
    }
}

/// The argument names a parameter list declares, in declaration order.
pub fn get_function_arguments(input: &Vec<Pat>) -> (r: Vec<String>)
    ensures
        r.deep_view() == argument_names_from(input@, 0),
{
    let mut args: Vec<String> = Vec::new();
    proof {
        assert(args.deep_view() =~= Seq::<Seq<char>>::empty());
    }
    let mut j: usize = 0;
    while j < input.len()
        invariant
            j <= input@.len(),
            args.deep_view() + argument_names_from(input@, j as int) == argument_names_from(
                input@,
                0,
            ),
        decreases input@.len() - j,
    {
        match &input[j] {
            Pat::TupleStruct { elems } => {
                let ghost before = args.deep_view();
                collect_tuple_idents(elems, &mut args);
                proof {
                    assert((before + tuple_idents_from(elems@, 0)) + argument_names_from(
                        input@,
                        j + 1,
                    ) =~= before + (tuple_idents_from(elems@, 0) + argument_names_from(
                        input@,
                        j + 1,
                    )));
                }
            },
            Pat::Ident { name } => {
                let ghost before = args.deep_view();
                args.push(name.clone());
                proof {
                    assert(args.deep_view() =~= before.push(name@));
                    assert(before.push(name@) + argument_names_from(input@, j + 1) =~= before + (
                    seq![name@] + argument_names_from(input@, j + 1)));
                }
            },
            _ => {},
        }
        j = j + 1;
    }
    proof {
        assert(argument_names_from(input@, input@.len() as int) =~= Seq::<Seq<char>>::empty());
        assert(args.deep_view() + Seq::<Seq<char>>::empty() =~= args.deep_view());
    }
    args
}

/// Spells a path from its segments, separated by the path separator.
pub fn create_path(segments: &Vec<String>) -> (r: String)
    ensures
        r@ == join_with(segments.deep_view(), "::"@),
{
    join_strings(segments, "::")
}

} // verus!
