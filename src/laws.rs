use vstd::prelude::*;
use crate::attributes::{
    attr_body, attr_pairs_from, attribute_list, first_wins, has_key, keep_first, slash_form,
    slash_pairs, trimmed,
};
use crate::chars::{filtered, next_index_of};
use crate::entities::decode;
use crate::token::{HTMLToken, TokenKind, distinct_names};
use crate::tokenizer::{RustTokenizer, TokenizerState};

verus! {

/// The attributes of the attribute string `s` in source order, before
/// duplicate names are dropped.
pub open spec fn attribute_pairs(t: Seq<(Seq<char>, Seq<char>)>, s: Seq<char>) -> Seq<
    (Seq<char>, Seq<char>),
> {
    let b = attr_body(trimmed(s));
    if b.len() == 0 {
        Seq::empty()
    } else if slash_form(b) {
        slash_pairs(b)
    } else {
        attr_pairs_from(t, b, 0)
    }
}

/// `e` is the first pair of `ps` with its name.
pub open spec fn first_of_name(ps: Seq<(Seq<char>, Seq<char>)>, e: (Seq<char>, Seq<char>)) -> bool {
    exists|j: int|
        0 <= j < ps.len() && ps[j] == e && forall|k: int| 0 <= k < j ==> #[trigger] ps[k].0 != e.0
}

proof fn lemma_keep_first(kept: Seq<(Seq<char>, Seq<char>)>, ps: Seq<(Seq<char>, Seq<char>)>)
    ensures
        distinct_names(kept) ==> distinct_names(keep_first(kept, ps)),
        keep_first(kept, ps).len() >= kept.len(),
        keep_first(kept, ps).subrange(0, kept.len() as int) == kept,
        forall|i: int|
            kept.len() <= i < keep_first(kept, ps).len() ==> first_of_name(
                ps,
                #[trigger] keep_first(kept, ps)[i],
            ) && !has_key(kept, keep_first(kept, ps)[i].0),
        forall|j: int| 0 <= j < ps.len() ==> has_key(keep_first(kept, ps), #[trigger] ps[j].0),
    decreases ps.len(),
{
    let out = keep_first(kept, ps);
    if ps.len() == 0 {
        assert(kept.subrange(0, kept.len() as int) =~= kept);
    } else {
        let rest = ps.drop_first();
        let next = if has_key(kept, ps[0].0) {
            kept
        } else {
            kept.push(ps[0])
        };
        lemma_keep_first(next, rest);
        assert(out == keep_first(next, rest));
        assert(has_key(next, ps[0].0)) by {
            if !has_key(kept, ps[0].0) {
                assert(next[kept.len() as int].0 == ps[0].0);
            }
        }
        assert(out.subrange(0, next.len() as int) == next);
        assert(out.subrange(0, kept.len() as int) =~= kept) by {
            assert(out.subrange(0, kept.len() as int) =~= out.subrange(0, next.len() as int).subrange(0, kept.len() as int));
            assert(next.subrange(0, kept.len() as int) =~= kept);
        }
        if distinct_names(kept) {
            assert(distinct_names(next));
        }
        assert forall|i: int| kept.len() <= i < out.len() implies first_of_name(ps, #[trigger] out[i])
            && !has_key(kept, out[i].0) by {
            if i < next.len() {
                // the pair that was just added
                assert(out[i] == out.subrange(0, next.len() as int)[i]);
                assert(out[i] == ps[0]);
                assert(forall|k: int| 0 <= k < 0 ==> #[trigger] ps[k].0 != out[i].0);
            } else {
                assert(first_of_name(rest, out[i]));
                let j = choose|j: int|
                    0 <= j < rest.len() && rest[j] == out[i] && forall|k: int|
                        0 <= k < j ==> #[trigger] rest[k].0 != out[i].0;
                assert(ps[j + 1] == out[i]);
                assert(!has_key(next, out[i].0));
                assert forall|k: int| 0 <= k < j + 1 implies #[trigger] ps[k].0 != out[i].0 by {
                    if k == 0 {
                        let w = choose|w: int| 0 <= w < next.len() && #[trigger] next[w].0 == ps[0].0;
                        assert(next[w].0 == ps[0].0);
                    } else {
                        assert(ps[k] == rest[k - 1]);
                    }
                }
                if has_key(kept, out[i].0) {
                    let w = choose|w: int| 0 <= w < kept.len() && #[trigger] kept[w].0 == out[i].0;
                    assert(next[w] == kept[w]);
                }
            }
        }
        assert forall|j: int| 0 <= j < ps.len() implies has_key(out, #[trigger] ps[j].0) by {
            if j == 0 {
                let w = choose|w: int| 0 <= w < next.len() && #[trigger] next[w].0 == ps[0].0;
                assert(out[w] == out.subrange(0, next.len() as int)[w]);
            } else {
                assert(ps[j] == rest[j - 1]);
            }
        }
    }
}

/// First wins: the attributes of any attribute string carry each name at
/// most once, each is the first pair of its name in source order, and every
/// name of the source is there.
pub proof fn lemma_attributes_first_wins(t: Seq<(Seq<char>, Seq<char>)>, s: Seq<char>)
    ensures
        distinct_names(attribute_list(t, s)),
        forall|i: int|
            0 <= i < attribute_list(t, s).len() ==> first_of_name(
                attribute_pairs(t, s),
                #[trigger] attribute_list(t, s)[i],
            ),
        forall|j: int|
            0 <= j < attribute_pairs(t, s).len() ==> has_key(
                attribute_list(t, s),
                #[trigger] attribute_pairs(t, s)[j].0,
            ),
{
    let ps = attribute_pairs(t, s);
    lemma_keep_first(Seq::empty(), ps);
    assert(attribute_list(t, s) == first_wins(ps));
}

/// Exactly one last token: in a run of the tokenizer that hands out `toks`
/// (call `i` takes `states[i]` to `states[i + 1]`) and then reports the end
/// (`states[toks.len()]` to `after`), the last token is marked last and no
/// other is.
pub proof fn lemma_exactly_one_last_token(
    states: Seq<RustTokenizer>,
    toks: Seq<HTMLToken>,
    after: RustTokenizer,
)
    requires
        toks.len() > 0,
        states.len() == toks.len() + 1,
        forall|i: int|
            0 <= i < toks.len() ==> #[trigger] RustTokenizer::next_token_post(
                states[i],
                states[i + 1],
                Some(toks[i]),
            ),
        RustTokenizer::next_token_post(states[toks.len() as int], after, None),
    ensures
        toks.last().is_last_token,
        forall|i: int| 0 <= i < toks.len() - 1 ==> !(#[trigger] toks[i]).is_last_token,
{
    let n = toks.len() as int;
    assert(RustTokenizer::next_token_post(states[n - 1], states[n - 1 + 1], Some(toks[n - 1])));
    assert forall|i: int| 0 <= i < toks.len() - 1 implies !(#[trigger] toks[i]).is_last_token by {
        assert(RustTokenizer::next_token_post(states[i], states[i + 1], Some(toks[i])));
        assert(RustTokenizer::next_token_post(states[i + 1], states[i + 1 + 1], Some(toks[i + 1])));
    }
}

/// Text without markup: on a non-empty input with no `<`, the first call
/// hands out one Character token holding the filtered, decoded input, marked
/// last, and the stream has then ended.
pub proof fn lemma_text_only_input(before: RustTokenizer, after: RustTokenizer, r: Option<HTMLToken>)
    requires
        before.position() == 0,
        before.mode() == TokenizerState::Data,
        before.queued().len() == 0,
        before.input().len() > 0,
        forall|i: int| 0 <= i < before.input().len() ==> before.input()[i] != '<',
        RustTokenizer::next_token_post(before, after, r),
    ensures
        r matches Some(t) && t.kind == TokenKind::Character && t.data@ == decode(
            before.table(),
            filtered(before.input()),
            false,
        ) && t.is_last_token,
        after.exhausted(),
{
    let s = before.input();
    lemma_no_lt(s, 0);
    assert(s.subrange(0, s.len() as int) =~= s);
}

proof fn lemma_no_lt(s: Seq<char>, from: int)
    requires
        0 <= from <= s.len(),
        forall|i: int| 0 <= i < s.len() ==> s[i] != '<',
    ensures
        next_index_of(s, from, '<') == s.len(),
    decreases s.len() - from,
{
    if from < s.len() {
        lemma_no_lt(s, from + 1);
    }
}

} // verus!
