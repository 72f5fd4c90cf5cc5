//! Query parameters and the query string that is made of them.

use vstd::prelude::*;
use crate::client::encoding::{
    all_plain, encode_query_pair, is_plain, joined_pairs, query_pair_text,
};
use crate::client::text::{bool_string, bool_text, decimal, decimal_string, lemma_decimal_digits};

verus! {

/// A value that can stand in a URL's query: it says which key/value pairs it
/// contributes, and in which order.
pub trait QueryPairs {
    /// The pairs, each as key and value text.
    spec fn pairs(&self) -> Seq<(Seq<char>, Seq<char>)>;

    /// The pairs, each as key and value text.
    fn to_pairs(&self) -> (r: Vec<(String, String)>)
        ensures
            r.deep_view() == self.pairs(),
    ;
}

/// No parameters.
impl QueryPairs for () {
    open spec fn pairs(&self) -> Seq<(Seq<char>, Seq<char>)> {
        Seq::empty()
    }

    fn to_pairs(&self) -> (r: Vec<(String, String)>) {
        let out: Vec<(String, String)> = Vec::new();
        assert(out.deep_view() =~= Seq::empty());
        out
    }
}

/// The pair of a parameter that is set; nothing for one that is not.
pub open spec fn optional_pair(key: Seq<char>, value: Option<Seq<char>>) -> Seq<
    (Seq<char>, Seq<char>),
> {
    match value {
        Some(text) => seq![(key, text)],
        None => Seq::empty(),
    }
}

/// The query string of a sequence of pairs: each pair as `serde_qs` encodes
/// it, joined by `&`; the empty text for no pairs; `None` where a pair cannot
/// be encoded.
pub open spec fn query_text(pairs: Seq<(Seq<char>, Seq<char>)>) -> Option<Seq<char>>
    decreases pairs.len(),
{
    if pairs.len() == 0 {
        Some(Seq::empty())
    } else {
        let last = pairs.last();
        match (query_text(pairs.drop_last()), query_pair_text(last.0, last.1)) {
            (Some(head), Some(tail)) => Some(
                if pairs.len() == 1 {
                    tail
                } else {
                    head + seq!['&'] + tail
                },
            ),
            _ => None,
        }
    }
}

/// A sequence of pairs has no query string as soon as a prefix of it has
/// none.
pub proof fn lemma_query_text_prefix(pairs: Seq<(Seq<char>, Seq<char>)>, k: int)
    requires
        0 <= k <= pairs.len(),
        query_text(pairs.take(k)) is None,
    ensures
        query_text(pairs) is None,
    decreases pairs.len() - k,
{
    if k == pairs.len() {
        assert(pairs.take(k) =~= pairs);
    } else {
        assert(pairs.take(k + 1).drop_last() =~= pairs.take(k));
        lemma_query_text_prefix(pairs, k + 1);
    }
}

/// Writes the query string of a sequence of pairs. It fails exactly where
/// `serde_qs` refuses one of the pairs, with the error of the first such
/// pair. Plain pairs are never refused, and their query string is the pairs
/// as they are, joined by `&`.
pub fn encode_query(pairs: &Vec<(String, String)>) -> (r: Result<String, serde_qs::Error>)
    ensures
        match r {
            Ok(text) => query_text(pairs.deep_view()) == Some(text@),
            Err(_) => query_text(pairs.deep_view()) is None,
        },
        all_plain(pairs.deep_view()) ==> query_text(pairs.deep_view()) == Some(
            joined_pairs(pairs.deep_view()),
        ),
{
    let ghost all = pairs.deep_view();
    let mut out = String::new();
    let mut i: usize = 0;
    while i < pairs.len()
        invariant
            i <= pairs.len(),
            all == pairs.deep_view(),
            query_text(all.take(i as int)) == Some(out@),
            all_plain(all) ==> out@ == joined_pairs(all.take(i as int)),
        decreases pairs.len() - i,
    {
        proof {
            assert(all.take(i + 1).drop_last() =~= all.take(i as int));
            assert(all.take(i + 1).last() == all[i as int]);
            assert(all[i as int] == (pairs@[i as int].0@, pairs@[i as int].1@));
        }
        match encode_query_pair(pairs[i].0.as_str(), pairs[i].1.as_str()) {
            Ok(pair) => {
                if i > 0 {
                    proof {
                        reveal_strlit("&");
                    }
                    let ghost before = out@;
                    out.append("&");
                    assert(out@ =~= before + seq!['&']);
                }
                out.append(pair.as_str());
            },
            Err(error) => {
                proof {
                    lemma_query_text_prefix(all, i + 1);
                }
                return Err(error);
            },
        }
        i += 1;
    }
    proof {
        assert(all.take(i as int) =~= all);
    }
    Ok(out)
}

/// The paging parameters that list operations share.
#[derive(Clone, Debug, PartialEq, Eq)]
pub struct QueryParams {
    /// The page to return, counted from 1.
    pub page: Option<u32>,
    /// The number of items on a page.
    pub page_size: Option<u32>,
    /// Whether the response reports the total number of items.
    pub total_count_required: Option<bool>,
}

impl QueryParams {
    /// No parameter set.
    pub fn new() -> (r: QueryParams)
        ensures
            r.page is None,
            r.page_size is None,
            r.total_count_required is None,
    {
        QueryParams { page: None, page_size: None, total_count_required: None }
    }

    /// Sets the page to return.
    pub fn page(self, page: u32) -> (r: QueryParams)
        ensures
            r.page == Some(page),
            r.page_size == self.page_size,
            r.total_count_required == self.total_count_required,
    {
        QueryParams { page: Some(page), ..self }
    }

    /// Sets the number of items on a page.
    pub fn page_size(self, page_size: u32) -> (r: QueryParams)
        ensures
            r.page == self.page,
            r.page_size == Some(page_size),
            r.total_count_required == self.total_count_required,
    {
        QueryParams { page_size: Some(page_size), ..self }
    }

    /// Sets whether the response reports the total number of items.
    pub fn total_count_required(self, total_count_required: bool) -> (r: QueryParams)
        ensures
            r.page == self.page,
            r.page_size == self.page_size,
            r.total_count_required == Some(total_count_required),
    {
        QueryParams { total_count_required: Some(total_count_required), ..self }
    }
}

impl Default for QueryParams {
    fn default() -> (r: QueryParams)
        ensures
            r.page is None,
            r.page_size is None,
            r.total_count_required is None,
    {
        QueryParams::new()
    }
}

/// The parameters that are set, in the order `page`, `page_size`,
/// `total_count_required`; numbers as decimal numerals, truth values as
/// `true` and `false`.
impl QueryPairs for QueryParams {
    open spec fn pairs(&self) -> Seq<(Seq<char>, Seq<char>)> {
        optional_pair(
            "page"@,
            match self.page {
                Some(n) => Some(decimal(n as nat)),
                None => None,
            },
        ) + optional_pair(
            "page_size"@,
            match self.page_size {
                Some(n) => Some(decimal(n as nat)),
                None => None,
            },
        ) + optional_pair(
            "total_count_required"@,
            match self.total_count_required {
                Some(b) => Some(bool_text(b)),
                None => None,
            },
        )
    }

    fn to_pairs(&self) -> (r: Vec<(String, String)>) {
        let mut out: Vec<(String, String)> = Vec::new();
        assert(out.deep_view() =~= Seq::empty());
        if let Some(n) = self.page {
            let ghost before = out.deep_view();
            out.push(("page".to_owned(), decimal_string(n)));
            assert(out.deep_view() =~= before.push(("page"@, decimal(n as nat))));
        }
        if let Some(n) = self.page_size {
            let ghost before = out.deep_view();
            out.push(("page_size".to_owned(), decimal_string(n)));
            assert(out.deep_view() =~= before.push(("page_size"@, decimal(n as nat))));
        }
        if let Some(b) = self.total_count_required {
            let ghost before = out.deep_view();
            out.push(("total_count_required".to_owned(), bool_string(b)));
            assert(out.deep_view() =~= before.push(("total_count_required"@, bool_text(b))));
        }
        assert(out.deep_view() =~= self.pairs());
        out
    }
}

/// The pairs of paging parameters are plain: keys of small letters and
/// underscores, values of digits or `true` and `false`. So their query string
/// is always written, as the pairs joined by `&`.
pub proof fn lemma_paging_pairs_plain(query: QueryParams)
    ensures
        all_plain(query.pairs()),
{
    reveal_strlit("page");
    reveal_strlit("page_size");
    reveal_strlit("total_count_required");
    reveal_strlit("true");
    reveal_strlit("false");
    if let Some(n) = query.page {
        lemma_decimal_digits(n as nat);
    }
    if let Some(n) = query.page_size {
        lemma_decimal_digits(n as nat);
    }
    let pairs = query.pairs();
    assert forall|i: int| 0 <= i < pairs.len() implies is_plain((#[trigger] pairs[i]).0)
        && is_plain(pairs[i].1) by {
        let entry = pairs[i];
        assert(entry.0 == "page"@ || entry.0 == "page_size"@ || entry.0
            == "total_count_required"@);
        assert(is_plain("page"@));
        assert(is_plain("page_size"@));
        assert(is_plain("total_count_required"@));
        assert(is_plain("true"@));
        assert(is_plain("false"@));
    }
}

} // verus!
