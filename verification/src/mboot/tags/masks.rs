//! Bit masks that list members of a closed set.
//!
//! A device reports which peripherals and which commands it has as a word in
//! which each member has a bit of its own. The list that a word spells out is
//! the members whose bit is set, in a fixed order; the word that spells a list
//! out is the bits of its members put together.
use vstd::prelude::*;

verus! {

/// The bits of the members of a list, put together.
pub open spec fn or_of<A>(s: Seq<A>, bit: spec_fn(A) -> u32) -> u32
    decreases s.len(),
{
    if s.len() == 0 {
        0
    } else {
        or_of(s.drop_last(), bit) | bit(s.last())
    }
}

/// Whether a word has at most one bit set.
pub open spec fn at_most_one_bit(b: u32) -> bool {
    b == 0 || b & ((b - 1) as u32) == 0
}

/// Whether the bit of a member is set in a word.
pub open spec fn marked<A>(word: u32, bit: spec_fn(A) -> u32) -> spec_fn(A) -> bool {
    |x: A| word & bit(x) != 0
}

/// Two tests that agree on every member of a list pick the same members.
pub proof fn lemma_filter_congruence<A>(s: Seq<A>, p: spec_fn(A) -> bool, q: spec_fn(A) -> bool)
    requires
        forall|i: int| 0 <= i < s.len() ==> p(#[trigger] s[i]) == q(s[i]),
    ensures
        s.filter(p) == s.filter(q),
    decreases s.len(),
{
    reveal(Seq::filter);
    if s.len() > 0 {
        let rest = s.drop_last();
        assert forall|i: int| 0 <= i < rest.len() implies p(#[trigger] rest[i]) == q(rest[i]) by {
            assert(rest[i] == s[i]);
        }
        lemma_filter_congruence(rest, p, q);
        assert(p(s[s.len() - 1]) == q(s[s.len() - 1]));
    }
}

/// The bits of the members that a word marks are the bits of the word that
/// belong to a member at all.
pub proof fn lemma_or_of_marked<A>(s: Seq<A>, word: u32, bit: spec_fn(A) -> u32)
    requires
        forall|i: int| 0 <= i < s.len() ==> at_most_one_bit(#[trigger] bit(s[i])),
    ensures
        or_of(s.filter(marked(word, bit)), bit) == word & or_of(s, bit),
    decreases s.len(),
{
    reveal(Seq::filter);
    if s.len() == 0 {
        assert(word & 0 == 0) by (bit_vector);
    } else {
        let rest = s.drop_last();
        let x = s.last();
        assert forall|i: int| 0 <= i < rest.len() implies at_most_one_bit(#[trigger] bit(rest[i])) by {
            assert(rest[i] == s[i]);
        }
        lemma_or_of_marked(rest, word, bit);
        let kept = rest.filter(marked(word, bit));
        let m = or_of(rest, bit);
        let b = bit(x);
        assert(at_most_one_bit(bit(s[s.len() - 1])));
        if marked(word, bit)(x) {
            assert(kept.push(x).drop_last() =~= kept);
            assert((word & m) | b == word & (m | b)) by (bit_vector)
                requires
                    word & b != 0,
                    b == 0 || b & ((b - 1) as u32) == 0,
            ;
        } else {
            assert(word & m == word & (m | b)) by (bit_vector)
                requires
                    word & b == 0,
            ;
        }
    }
}

/// The bits of a list hold the bit of each of its members.
pub proof fn lemma_or_covers<A>(s: Seq<A>, bit: spec_fn(A) -> u32, i: int)
    requires
        0 <= i < s.len(),
    ensures
        or_of(s, bit) & bit(s[i]) == bit(s[i]),
    decreases s.len(),
{
    let m = or_of(s.drop_last(), bit);
    let b = bit(s.last());
    let c = bit(s[i]);
    if i == s.len() - 1 {
        assert((m | b) & b == b) by (bit_vector);
    } else {
        lemma_or_covers(s.drop_last(), bit, i);
        assert((m | b) & c == c) by (bit_vector)
            requires
                m & c == c,
        ;
    }
}

/// A list that a word spells out is spelled out again by its own bits: the
/// members that the bits of the marked members mark are the marked members.
pub proof fn lemma_mask_roundtrip<A>(s: Seq<A>, word: u32, bit: spec_fn(A) -> u32)
    requires
        forall|i: int| 0 <= i < s.len() ==> at_most_one_bit(#[trigger] bit(s[i])),
    ensures
        s.filter(marked(or_of(s.filter(marked(word, bit)), bit), bit)) == s.filter(
            marked(word, bit),
        ),
{
    let again = or_of(s.filter(marked(word, bit)), bit);
    let m = or_of(s, bit);
    lemma_or_of_marked(s, word, bit);
    assert forall|i: int| 0 <= i < s.len() implies marked(again, bit)(#[trigger] s[i]) == marked(
        word,
        bit,
    )(s[i]) by {
        let c = bit(s[i]);
        lemma_or_covers(s, bit, i);
        assert((word & m) & c == word & c) by (bit_vector)
            requires
                m & c == c,
        ;
    }
    lemma_filter_congruence(s, marked(again, bit), marked(word, bit));
}

} // verus!
