//! The query string of plain pairs determines the pairs.

use vstd::prelude::*;
use crate::client::encoding::{all_plain, is_plain, is_plain_char, joined_pairs, pair_text};
use crate::client::query::{lemma_paging_pairs_plain, QueryPairs, QueryParams};

verus! {

/// A pair of plain texts is read back from its text: the key ends at the
/// first `=`, which no plain text holds.
pub proof fn lemma_pair_text_determines_pair(
    key: Seq<char>,
    value: Seq<char>,
    other_key: Seq<char>,
    other_value: Seq<char>,
)
    requires
        is_plain(key),
        is_plain(other_key),
        pair_text(key, value) == pair_text(other_key, other_value),
    ensures
        key == other_key,
        value == other_value,
{
    let text = pair_text(key, value);
    let other = pair_text(other_key, other_value);
    assert(text.len() == key.len() + 1 + value.len());
    assert(other.len() == other_key.len() + 1 + other_value.len());
    assert(text[key.len() as int] == '=');
    assert(other[other_key.len() as int] == '=');
    if key.len() < other_key.len() {
        assert(other[key.len() as int] == other_key[key.len() as int]);
        assert(is_plain_char(other_key[key.len() as int]));
    }
    if other_key.len() < key.len() {
        assert(text[other_key.len() as int] == key[other_key.len() as int]);
        assert(is_plain_char(key[other_key.len() as int]));
    }
    assert(key.len() == other_key.len());
    assert forall|i: int| 0 <= i < key.len() implies key[i] == other_key[i] by {
        assert(text[i] == key[i]);
        assert(other[i] == other_key[i]);
    }
    assert(key =~= other_key);
    assert forall|i: int| 0 <= i < value.len() implies value[i] == other_value[i] by {
        assert(text[key.len() + 1 + i] == value[i]);
        assert(other[key.len() + 1 + i] == other_value[i]);
    }
    assert(value =~= other_value);
}

/// The text of a plain pair holds no `&`.
pub proof fn lemma_pair_text_has_no_separator(key: Seq<char>, value: Seq<char>, i: int)
    requires
        is_plain(key),
        is_plain(value),
        0 <= i < pair_text(key, value).len(),
    ensures
        pair_text(key, value)[i] != '&',
{
    let text = pair_text(key, value);
    if i < key.len() {
        assert(text[i] == key[i]);
        assert(is_plain_char(key[i]));
    } else if i == key.len() {
        assert(text[i] == '=');
    } else {
        assert(text[i] == value[i - key.len() - 1]);
        assert(is_plain_char(value[i - key.len() - 1]));
    }
}

/// The query string of plain pairs determines the pairs: two sequences of
/// plain pairs with the same query string are the same sequence. No key or
/// value is added, dropped or changed, and none changes its place.
pub proof fn lemma_query_string_determines_pairs(
    pairs: Seq<(Seq<char>, Seq<char>)>,
    others: Seq<(Seq<char>, Seq<char>)>,
)
    requires
        all_plain(pairs),
        all_plain(others),
        joined_pairs(pairs) == joined_pairs(others),
    ensures
        pairs == others,
    decreases pairs.len() + others.len(),
{
    let text = joined_pairs(pairs);
    if pairs.len() == 0 || others.len() == 0 {
        if pairs.len() > 0 {
            assert(pair_text(pairs.last().0, pairs.last().1).len() > 0);
        }
        if others.len() > 0 {
            assert(pair_text(others.last().0, others.last().1).len() > 0);
        }
        assert(pairs =~= others);
    } else {
        let last = pairs.last();
        let other_last = others.last();
        let tail = pair_text(last.0, last.1);
        let other_tail = pair_text(other_last.0, other_last.1);
        let head = if pairs.len() == 1 {
            Seq::<char>::empty()
        } else {
            joined_pairs(pairs.drop_last()) + seq!['&']
        };
        let other_head = if others.len() == 1 {
            Seq::<char>::empty()
        } else {
            joined_pairs(others.drop_last()) + seq!['&']
        };
        assert(pairs[pairs.len() - 1] == last);
        assert(others[others.len() - 1] == other_last);
        assert(text =~= head + tail);
        assert(text =~= other_head + other_tail);
        assert(text.len() == head.len() + tail.len());
        assert(text.len() == other_head.len() + other_tail.len());
        if tail.len() < other_tail.len() {
            // The `&` that ends the head of the one would lie in the tail of the other.
            let at = head.len() - 1;
            assert(head.len() > 0);
            assert(pairs.len() > 1);
            assert(head[at] == '&');
            assert(text[at] == head[at]);
            assert(text[at] == other_tail[at - other_head.len()]);
            lemma_pair_text_has_no_separator(other_last.0, other_last.1, at - other_head.len());
        }
        if other_tail.len() < tail.len() {
            let at = other_head.len() - 1;
            assert(other_head.len() > 0);
            assert(others.len() > 1);
            assert(other_head[at] == '&');
            assert(text[at] == other_head[at]);
            assert(text[at] == tail[at - head.len()]);
            lemma_pair_text_has_no_separator(last.0, last.1, at - head.len());
        }
        assert(tail.len() == other_tail.len());
        assert forall|i: int| 0 <= i < tail.len() implies tail[i] == other_tail[i] by {
            assert(text[head.len() + i] == tail[i]);
            assert(text[other_head.len() + i] == other_tail[i]);
        }
        assert(tail =~= other_tail);
        lemma_pair_text_determines_pair(last.0, last.1, other_last.0, other_last.1);
        assert(last == other_last);
        assert forall|i: int| 0 <= i < head.len() implies head[i] == other_head[i] by {
            assert(text[i] == head[i]);
            assert(text[i] == other_head[i]);
        }
        assert(head =~= other_head);
        let before = pairs.drop_last();
        let other_before = others.drop_last();
        assert(all_plain(before)) by {
            assert forall|i: int| 0 <= i < before.len() implies is_plain(
                (#[trigger] before[i]).0,
            ) && is_plain(before[i].1) by {
                assert(before[i] == pairs[i]);
            }
        }
        assert(all_plain(other_before)) by {
            assert forall|i: int| 0 <= i < other_before.len() implies is_plain(
                (#[trigger] other_before[i]).0,
            ) && is_plain(other_before[i].1) by {
                assert(other_before[i] == others[i]);
            }
        }
        if pairs.len() == 1 {
            assert(others.len() == 1);
            assert(before =~= other_before);
        } else {
            assert(others.len() > 1);
            let joined = joined_pairs(before);
            let other_joined = joined_pairs(other_before);
            assert(joined.len() == other_joined.len());
            assert forall|i: int| 0 <= i < joined.len() implies joined[i] == other_joined[i] by {
                assert(head[i] == joined[i]);
                assert(other_head[i] == other_joined[i]);
            }
            assert(joined =~= other_joined);
            lemma_query_string_determines_pairs(before, other_before);
        }
        assert(pairs =~= before.push(last));
        assert(others =~= other_before.push(other_last));
    }
}

/// The query string of paging parameters reads back as the parameters that
/// were set: two sets of parameters with the same query string contribute
/// the same keys with the same values in the same order.
pub proof fn lemma_paging_query_determines_pairs(query: QueryParams, other: QueryParams)
    requires
        joined_pairs(query.pairs()) == joined_pairs(other.pairs()),
    ensures
        query.pairs() == other.pairs(),
{
    lemma_paging_pairs_plain(query);
    lemma_paging_pairs_plain(other);
    lemma_query_string_determines_pairs(query.pairs(), other.pairs());
}

} // verus!
