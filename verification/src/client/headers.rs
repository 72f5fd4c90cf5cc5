//! Header lists: name/value pairs in the order in which they go out.

use vstd::prelude::*;
use crate::client::text::{same_header_name, same_name};

verus! {

/// The test that keeps every header but those of one name.
pub open spec fn not_named(name: Seq<char>) -> spec_fn((Seq<char>, Seq<char>)) -> bool {
    |entry: (Seq<char>, Seq<char>)| !same_name(entry.0, name)
}

/// A header list with one header set: every former entry of that name is
/// gone, the others keep their order, and the new entry stands last.
pub open spec fn with_header(
    headers: Seq<(Seq<char>, Seq<char>)>,
    name: Seq<char>,
    value: Seq<char>,
) -> Seq<(Seq<char>, Seq<char>)> {
    headers.filter(not_named(name)).push((name, value))
}

/// True where the list holds exactly one entry of that name, and it carries
/// that value.
pub open spec fn has_single_header(
    headers: Seq<(Seq<char>, Seq<char>)>,
    name: Seq<char>,
    value: Seq<char>,
) -> bool {
    exists|i: int|
        {
            &&& 0 <= i < headers.len()
            &&& #[trigger] headers[i] == (name, value)
            &&& forall|j: int|
                0 <= j < headers.len() && j != i ==> !same_name((#[trigger] headers[j]).0, name)
        }
}

/// After a header is set the list holds it once, with the new value,
/// whatever it held under that name before.
pub proof fn lemma_with_header_overrides(
    headers: Seq<(Seq<char>, Seq<char>)>,
    name: Seq<char>,
    value: Seq<char>,
)
    ensures
        has_single_header(with_header(headers, name, value), name, value),
{
    let kept = headers.filter(not_named(name));
    let out = with_header(headers, name, value);
    assert forall|j: int| 0 <= j < kept.len() implies !same_name((#[trigger] kept[j]).0, name) by {
        headers.lemma_filter_pred(not_named(name), j);
    }
    let last = kept.len() as int;
    assert(out[last] == (name, value));
    assert forall|j: int| 0 <= j < out.len() && j != last implies !same_name(
        (#[trigger] out[j]).0,
        name,
    ) by {
        assert(out[j] == kept[j]);
    }
}

/// Appends a header to a list, after those that are there.
pub fn push_header(headers: &mut Vec<(String, String)>, name: &str, value: &str)
    ensures
        final(headers).deep_view() == old(headers).deep_view().push((name@, value@)),
{
    let ghost before = headers.deep_view();
    headers.push((name.to_owned(), value.to_owned()));
    assert(headers.deep_view() =~= before.push((name@, value@)));
}

/// Sets a header in a list: entries of that name are dropped, the new entry
/// is appended.
pub fn set_header(headers: &Vec<(String, String)>, name: &str, value: &str) -> (r: Vec<
    (String, String),
>)
    ensures
        r.deep_view() == with_header(headers.deep_view(), name@, value@),
{
    let ghost all = headers.deep_view();
    let ghost keep = not_named(name@);
    let mut out: Vec<(String, String)> = Vec::new();
    let mut i: usize = 0;
    proof {
        reveal(Seq::filter);
        assert(all.take(0).filter(keep) =~= Seq::empty());
        assert(out.deep_view() =~= Seq::empty());
    }
    while i < headers.len()
        invariant
            i <= headers.len(),
            all == headers.deep_view(),
            keep == not_named(name@),
            out.deep_view() == all.take(i as int).filter(keep),
        decreases headers.len() - i,
    {
        proof {
            reveal(Seq::filter);
            assert(all.take(i + 1).drop_last() =~= all.take(i as int));
            assert(all.take(i + 1).last() == all[i as int]);
            assert(all[i as int] == (headers@[i as int].0@, headers@[i as int].1@));
        }
        if !same_header_name(headers[i].0.as_str(), name) {
            let ghost before = out.deep_view();
            out.push((headers[i].0.clone(), headers[i].1.clone()));
            assert(out.deep_view() =~= before.push(all[i as int]));
        }
        i += 1;
    }
    proof {
        assert(all.take(i as int) =~= all);
    }
    push_header(&mut out, name, value);
    out
}

} // verus!
