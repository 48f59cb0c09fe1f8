//! Multisets of n-grams: runs of `n` words of a text.
//!
//! A text is cut into words at each space. Each run of `n` words in a row,
//! with the spaces between them, is an n-gram of the text.

use crate::text::{lemma_ascii_run_boundary, str_eq};
use vstd::prelude::*;
use vstd::string::*;
use vstd::utf8::*;

verus! {

/// A multiset of n-grams, with the number of n-grams it was made of.
///
/// The n-grams are kept with their numbers in a list in which none occurs
/// twice: the standard hash map promises nothing in proofs for a key that
/// is a string, and of the list every count is proved.
#[derive(Debug)]
pub struct NgramSet {
    grams: Vec<(String, u32)>,
    n: u8,
    size: usize,
}

/// The number that the entries hold for `gram`: that of the last entry
/// for it, or 0 where there is none. Where no two entries are for the same
/// n-gram, that is the number of the one entry for it.
pub open spec fn count_in(entries: Seq<(String, u32)>, gram: Seq<char>) -> nat
    decreases entries.len(),
{
    if entries.len() == 0 {
        0
    } else if entries.last().0@ == gram {
        entries.last().1 as nat
    } else {
        count_in(entries.drop_last(), gram)
    }
}

/// The sum of the numbers that the entries hold.
pub open spec fn total(entries: Seq<(String, u32)>) -> nat
    decreases entries.len(),
{
    if entries.len() == 0 {
        0
    } else {
        total(entries.drop_last()) + entries.last().1 as nat
    }
}

/// No two entries are for the same n-gram.
pub open spec fn distinct(entries: Seq<(String, u32)>) -> bool {
    forall|i: int, j: int|
        0 <= i < j < entries.len() ==> (#[trigger] entries[i]).0@ != (#[trigger] entries[j]).0@
}

/// The n-grams that the entries are for, in their order.
pub open spec fn keys(entries: Seq<(String, u32)>) -> Seq<Seq<char>> {
    entries.map_values(|e: (String, u32)| e.0@)
}

/// The sum of the numbers that the first `upto` entries hold.
pub open spec fn total_upto(entries: Seq<(String, u32)>, upto: int) -> nat {
    total(entries.take(upto))
}

/// The lesser of two numbers.
pub open spec fn lesser(a: nat, b: nat) -> nat {
    if a <= b {
        a
    } else {
        b
    }
}

/// The position of the first space at or after `from`, or the length of
/// the text.
pub open spec fn word_end(text: Seq<u8>, from: int) -> int
    decreases text.len() - from,
{
    if from < 0 || from >= text.len() || text[from] == 0x20 {
        if from > text.len() {
            text.len() as int
        } else {
            from
        }
    } else {
        word_end(text, from + 1)
    }
}

/// Where the run of `n` words that starts at `from` ends, if the text has
/// that many words from there.
pub open spec fn run_end(text: Seq<u8>, from: int, n: nat) -> Option<int>
    decreases n,
{
    if n == 0 || from < 0 || from > text.len() {
        None
    } else if n == 1 {
        Some(word_end(text, from))
    } else if word_end(text, from) >= text.len() {
        None
    } else {
        run_end(text, word_end(text, from) + 1, (n - 1) as nat)
    }
}

/// The n-grams of the text whose first word starts at `from` or later, in
/// their order.
pub open spec fn grams_from(text: Seq<u8>, n: nat, from: int) -> Seq<Seq<u8>>
    decreases text.len() - from,
{
    if from < 0 || from > text.len() {
        Seq::empty()
    } else {
        match run_end(text, from, n) {
            None => Seq::empty(),
            Some(end) => seq![text.subrange(from, end)] + (if word_end(text, from) >= text.len() {
                Seq::empty()
            } else {
                proof {
                    lemma_word_end(text, from);
                }
                grams_from(text, n, word_end(text, from) + 1)
            }),
        }
    }
}

/// The n-grams of the text, in their order.
pub open spec fn grams_of(text: Seq<u8>, n: nat) -> Seq<Seq<u8>> {
    grams_from(text, n, 0)
}

/// How often `gram` occurs among `grams`.
pub open spec fn occurrences(grams: Seq<Seq<u8>>, gram: Seq<char>) -> nat
    decreases grams.len(),
{
    if grams.len() == 0 {
        0
    } else {
        occurrences(grams.drop_first(), gram) + (if grams[0] == encode_utf8(gram) {
            1nat
        } else {
            0nat
        })
    }
}

/// What is known of `word_end`.
pub proof fn lemma_word_end(text: Seq<u8>, from: int)
    requires
        0 <= from <= text.len(),
    ensures
        from <= word_end(text, from) <= text.len(),
        word_end(text, from) < text.len() ==> text[word_end(text, from)] == 0x20,
    decreases text.len() - from,
{
    if from < text.len() && text[from] != 0x20 {
        lemma_word_end(text, from + 1);
    }
}

/// A run of words ends inside the text, at a space or at the end of the
/// text, and not before it starts.
pub proof fn lemma_run_end(text: Seq<u8>, from: int, n: nat)
    requires
        0 <= from <= text.len(),
    ensures
        run_end(text, from, n) matches Some(end) ==> from <= end <= text.len() && (end
            < text.len() ==> text[end] == 0x20),
    decreases n,
{
    lemma_word_end(text, from);
    if n > 1 && word_end(text, from) < text.len() {
        lemma_run_end(text, word_end(text, from) + 1, (n - 1) as nat);
    }
}

/// The number of n-grams of a text is at most its length plus one.
pub proof fn lemma_gram_count(text: Seq<u8>, n: nat, from: int)
    requires
        0 <= from <= text.len(),
    ensures
        grams_from(text, n, from).len() <= text.len() - from + 1,
    decreases text.len() - from,
{
    lemma_word_end(text, from);
    if run_end(text, from, n) is Some && word_end(text, from) < text.len() {
        lemma_gram_count(text, n, word_end(text, from) + 1);
    }
}

/// Counting where no entry is for the n-gram.
pub proof fn lemma_count_absent(entries: Seq<(String, u32)>, gram: Seq<char>)
    requires
        forall|i: int| 0 <= i < entries.len() ==> (#[trigger] entries[i]).0@ != gram,
    ensures
        count_in(entries, gram) == 0,
    decreases entries.len(),
{
    if entries.len() > 0 {
        assert(entries[entries.len() - 1].0@ != gram);
        assert forall|i: int| 0 <= i < entries.drop_last().len() implies (
        #[trigger] entries.drop_last()[i]).0@ != gram by {
            assert(entries[i].0@ != gram);
        }
        lemma_count_absent(entries.drop_last(), gram);
    }
}

/// Where no two entries are for the same n-gram, the number held for the
/// n-gram of an entry is that of the entry.
pub proof fn lemma_count_at(entries: Seq<(String, u32)>, at: int)
    requires
        0 <= at < entries.len(),
        distinct(entries),
    ensures
        count_in(entries, entries[at].0@) == entries[at].1,
    decreases entries.len(),
{
    if at < entries.len() - 1 {
        assert(entries[at].0@ != entries[entries.len() - 1].0@);
        let rest = entries.drop_last();
        assert forall|i: int, j: int| 0 <= i < j < rest.len() implies (#[trigger] rest[i]).0@ != (
        #[trigger] rest[j]).0@ by {
            assert(entries[i].0@ != entries[j].0@);
        }
        assert(rest[at] == entries[at]);
        lemma_count_at(rest, at);
    }
}

/// Entries that agree on the n-grams, and on the numbers held for `gram`,
/// hold the same number for `gram`.
pub proof fn lemma_count_other(a: Seq<(String, u32)>, b: Seq<(String, u32)>, gram: Seq<char>)
    requires
        a.len() == b.len(),
        forall|i: int| 0 <= i < a.len() ==> (#[trigger] a[i]).0@ == b[i].0@,
        forall|i: int| 0 <= i < a.len() && a[i].0@ == gram ==> (#[trigger] a[i]).1 == b[i].1,
    ensures
        count_in(a, gram) == count_in(b, gram),
    decreases a.len(),
{
    if a.len() > 0 {
        let last = a.len() - 1;
        assert(a[last].0@ == b[last].0@);
        if a[last].0@ == gram {
            assert(a[last].1 == b[last].1);
        }
        let ra = a.drop_last();
        let rb = b.drop_last();
        assert forall|i: int| 0 <= i < ra.len() implies (#[trigger] ra[i]).0@ == rb[i].0@ by {
            assert(a[i].0@ == b[i].0@);
        }
        assert forall|i: int| 0 <= i < ra.len() && ra[i].0@ == gram implies (#[trigger] ra[i]).1
            == rb[i].1 by {
            assert(a[i].1 == b[i].1);
        }
        lemma_count_other(ra, rb, gram);
    }
}

/// Counting after the number of one entry was changed, where no two
/// entries are for the same n-gram.
pub proof fn lemma_count_update(
    entries: Seq<(String, u32)>,
    at: int,
    entry: (String, u32),
    gram: Seq<char>,
)
    requires
        0 <= at < entries.len(),
        distinct(entries),
        entry.0@ == entries[at].0@,
    ensures
        distinct(entries.update(at, entry)),
        count_in(entries.update(at, entry), gram) == (if gram == entry.0@ {
            entry.1 as nat
        } else {
            count_in(entries, gram)
        }),
        count_in(entries, entry.0@) == entries[at].1,
{
    let next = entries.update(at, entry);
    assert forall|i: int, j: int| 0 <= i < j < next.len() implies (#[trigger] next[i]).0@ != (
    #[trigger] next[j]).0@ by {
        assert(entries[i].0@ != entries[j].0@);
    }
    lemma_count_at(entries, at);
    lemma_count_at(next, at);
    if gram != entry.0@ {
        assert forall|i: int| 0 <= i < entries.len() && entries[i].0@ == gram implies (
        #[trigger] entries[i]).1 == next[i].1 by {}
        lemma_count_other(entries, next, gram);
    }
}

/// The sum after the number of one entry was changed.
pub proof fn lemma_total_update(entries: Seq<(String, u32)>, at: int, entry: (String, u32))
    requires
        0 <= at < entries.len(),
    ensures
        total(entries.update(at, entry)) == total(entries) - entries[at].1 + entry.1,
        total(entries) >= entries[at].1,
    decreases entries.len(),
{
    let next = entries.update(at, entry);
    if at == entries.len() - 1 {
        assert(next.drop_last() =~= entries.drop_last());
    } else {
        assert(next.drop_last() =~= entries.drop_last().update(at, entry));
        lemma_total_update(entries.drop_last(), at, entry);
    }
}

/// What two sets share of the given n-grams: for each, the lesser of the
/// numbers of times that the one set and the other hold it, all added up.
pub open spec fn shared_among(grams: Seq<Seq<char>>, a: NgramSet, b: NgramSet) -> nat
    decreases grams.len(),
{
    if grams.len() == 0 {
        0
    } else {
        shared_among(grams.drop_last(), a, b) + lesser(a.count(grams.last()), b.count(grams.last()))
    }
}

/// The sum over more entries is not less.
pub proof fn lemma_total_grows(entries: Seq<(String, u32)>, upto: int)
    requires
        0 <= upto <= entries.len(),
    ensures
        total_upto(entries, upto) <= total(entries),
    decreases entries.len() - upto,
{
    if upto < entries.len() {
        lemma_total_grows(entries, upto + 1);
        assert(entries.take(upto + 1).drop_last() =~= entries.take(upto));
    } else {
        assert(entries.take(upto) =~= entries);
    }
}

/// An n-gram that the entries hold a number for is among their n-grams.
pub proof fn lemma_counted_is_key(entries: Seq<(String, u32)>, gram: Seq<char>)
    requires
        count_in(entries, gram) > 0,
    ensures
        keys(entries).contains(gram),
{
    if !keys(entries).contains(gram) {
        assert forall|i: int| 0 <= i < entries.len() implies (#[trigger] entries[i]).0@ != gram by {
            assert(keys(entries)[i] == entries[i].0@);
        }
        lemma_count_absent(entries, gram);
    }
}

impl NgramSet {
    #[verifier::type_invariant]
    spec fn consistent(self) -> bool {
        distinct(self.grams@) && total(self.grams@) == self.size
    }

    /// How often the n-gram `gram` was added.
    pub closed spec fn count(self, gram: Seq<char>) -> nat {
        count_in(self.grams@, gram)
    }

    /// The number of words that make an n-gram.
    pub closed spec fn width(self) -> u8 {
        self.n
    }

    /// The number of n-grams that were added.
    pub closed spec fn total_count(self) -> nat {
        self.size as nat
    }

    /// An empty set of runs of `n` words.
    pub fn new(n: u8) -> (r: NgramSet)
        ensures
            r.width() == n,
            r.total_count() == 0,
            forall|gram: Seq<char>| r.count(gram) == 0,
    {
        NgramSet { grams: Vec::new(), n, size: 0 }
    }

    /// The n-grams of `s`.
    pub fn from_str(s: &str, n: u8) -> (r: NgramSet)
        requires
            s.spec_bytes().len() < u32::MAX,
        ensures
            r.width() == n,
            r.total_count() == grams_of(s.spec_bytes(), n as nat).len(),
            forall|gram: Seq<char>|
                r.count(gram) == occurrences(grams_of(s.spec_bytes(), n as nat), gram),
    {
        let mut set = NgramSet::new(n);
        set.analyze(s);
        set
    }

    /// The number of words that make an n-gram.
    pub fn n(&self) -> (r: u8)
        ensures
            r == self.width(),
    {
        self.n
    }

    /// Adds the n-grams of `s`.
    pub fn analyze(&mut self, s: &str)
        requires
            old(self).total_count() + s.spec_bytes().len() < u32::MAX,
        ensures
            final(self).width() == old(self).width(),
            final(self).total_count() == old(self).total_count() + grams_of(
                s.spec_bytes(),
                old(self).width() as nat,
            ).len(),
            forall|gram: Seq<char>|
                final(self).count(gram) == old(self).count(gram) + occurrences(
                    grams_of(s.spec_bytes(), old(self).width() as nat),
                    gram,
                ),
    {
        let bytes = s.as_bytes();
        let n = self.n;
        let ghost text = s.spec_bytes();
        let ghost all = grams_of(text, n as nat);
        let mut from: usize = 0;
        proof {
            encode_utf8_valid_utf8(s@);
            is_char_boundary_start_end_of_seq(text);
            lemma_gram_count(text, n as nat, 0);
        }
        loop
            invariant
                bytes@ == text,
                text == s.spec_bytes(),
                valid_utf8(text),
                n == self.width(),
                n == old(self).width(),
                from <= text.len(),
                is_char_boundary(text, from as int),
                old(self).total_count() + text.len() < u32::MAX,
                all.len() <= text.len() + 1,
                grams_from(text, n as nat, from as int).len() <= text.len() - from + 1,
                self.total_count() + grams_from(text, n as nat, from as int).len()
                    == old(self).total_count() + all.len(),
                all == grams_of(text, n as nat),
                forall|gram: Seq<char>|
                    self.count(gram) + occurrences(grams_from(text, n as nat, from as int), gram)
                        == old(self).count(gram) + occurrences(all, gram),
            decreases text.len() - from,
        {
            let ghost rest = grams_from(text, n as nat, from as int);
            let end = match find_run_end(bytes, from, n) {
                None => {
                    return ;
                },
                Some(end) => end,
            };
            let next = find_word_end(bytes, from);
            proof {
                lemma_run_end(text, from as int, n as nat);
                lemma_word_end(text, from as int);
                if end < text.len() {
                    is_char_boundary_iff_not_is_continuation_byte(text, end as int);
                } else {
                    is_char_boundary_start_end_of_seq(text);
                }
                if next < text.len() {
                    is_char_boundary_iff_not_is_continuation_byte(text, next as int);
                    lemma_ascii_run_boundary(text, next as int, next + 1);
                    lemma_gram_count(text, n as nat, next + 1);
                }
            }
            let gram = crate::text::slice_between(s, from, end).to_owned();
            let ghost tail = if next >= text.len() {
                Seq::<Seq<u8>>::empty()
            } else {
                grams_from(text, n as nat, next + 1)
            };
            proof {
                assert(rest == seq![text.subrange(from as int, end as int)] + tail);
                assert(rest.drop_first() =~= tail);
                assert(rest[0] == encode_utf8(gram@));
                assert forall|g: Seq<char>| occurrences(rest, g) == occurrences(tail, g) + (if g
                    == gram@ {
                    1nat
                } else {
                    0nat
                }) by {
                    crate::text::lemma_same_text(g, gram@);
                }
            }
            self.add_gram(gram);
            if next >= bytes.len() {
                return ;
            }
            from = next + 1;
        }
    }

    /// Adds one n-gram.
    pub fn add_gram(&mut self, gram: String)
        requires
            old(self).total_count() < u32::MAX,
        ensures
            final(self).width() == old(self).width(),
            final(self).total_count() == old(self).total_count() + 1,
            forall|g: Seq<char>|
                final(self).count(g) == old(self).count(g) + (if g == gram@ {
                    1nat
                } else {
                    0nat
                }),
    {
        proof {
            use_type_invariant(&*self);
        }
        let mut taken = NgramSet { grams: Vec::new(), n: self.n, size: 0 };
        core::mem::swap(self, &mut taken);
        let NgramSet { grams, n, size } = taken;
        let mut grams = grams;
        let ghost before = grams@;
        let mut i: usize = 0;
        while i < grams.len()
            invariant
                i <= grams.len(),
                grams@ == before,
                distinct(before),
                total(before) == size,
                size < u32::MAX,
                n == old(self).width(),
                size == old(self).total_count(),
                forall|g: Seq<char>| old(self).count(g) == count_in(before, g),
                forall|j: int| 0 <= j < i ==> (#[trigger] before[j]).0@ != gram@,
            decreases grams.len() - i,
        {
            if str_eq(grams[i].0.as_str(), gram.as_str()) {
                let count = grams[i].1;
                proof {
                    lemma_total_update(before, i as int, (gram, 0u32));
                    lemma_total_update(before, i as int, (gram, (count + 1) as u32));
                    lemma_count_update(before, i as int, (gram, (count + 1) as u32), gram@);
                    assert forall|g: Seq<char>|
                        count_in(before.update(i as int, (gram, (count + 1) as u32)), g)
                            == count_in(before, g) + (if g == gram@ {
                            1nat
                        } else {
                            0nat
                        }) by {
                        lemma_count_update(before, i as int, (gram, (count + 1) as u32), g);
                    }
                }
                let ghost key = gram@;
                let ghost changed = before.update(i as int, (gram, (count + 1) as u32));
                grams.set(i, (gram, count + 1));
                assert(grams@ == changed);
                *self = NgramSet { grams, n, size: size + 1 };
                assert forall|g: Seq<char>| self.count(g) == old(self).count(g) + (if g == key {
                    1nat
                } else {
                    0nat
                }) by {
                    assert(self.count(g) == count_in(changed, g));
                    assert(old(self).count(g) == count_in(before, g));
                }
                return ;
            }
            i += 1;
        }
        proof {
            let after = before.push((gram, 1u32));
            assert(after.drop_last() =~= before);
            assert forall|a: int, b: int| 0 <= a < b < after.len() implies (#[trigger] after[a]).0@
                != (#[trigger] after[b]).0@ by {
                if b < before.len() {
                    assert(before[a].0@ != before[b].0@);
                }
            }
            assert forall|g: Seq<char>| count_in(after, g) == count_in(before, g) + (if g
                == gram@ {
                1nat
            } else {
                0nat
            }) by {
                if g == gram@ {
                    lemma_count_absent(before, g);
                }
            }
        }
        grams.push((gram, 1));
        *self = NgramSet { grams, n, size: size + 1 };
    }

    /// How often the n-gram `gram` was added.
    pub fn get(&self, gram: &str) -> (r: u32)
        ensures
            r == self.count(gram@),
    {
        proof {
            use_type_invariant(self);
        }
        let ghost all = self.grams@;
        let mut i: usize = 0;
        while i < self.grams.len()
            invariant
                i <= self.grams.len(),
                all == self.grams@,
                distinct(all),
                forall|j: int| 0 <= j < i ==> (#[trigger] all[j]).0@ != gram@,
            decreases self.grams.len() - i,
        {
            if str_eq(self.grams[i].0.as_str(), gram) {
                proof {
                    lemma_count_at(all, i as int);
                }
                return self.grams[i].1;
            }
            i += 1;
        }
        proof {
            lemma_count_absent(all, gram@);
        }
        0
    }

    /// The n-grams that the set holds, each once.
    pub closed spec fn grams(self) -> Seq<Seq<char>> {
        keys(self.grams@)
    }

    /// What the set shares with another one: for each of its n-grams the
    /// lesser of the numbers of times that the two sets hold it, all added
    /// up. Every n-gram that the set holds at all is among its n-grams, and
    /// none stands there twice.
    pub fn shared(&self, other: &NgramSet) -> (r: u64)
        ensures
            r == shared_among(self.grams(), *self, *other),
            r <= self.total_count(),
            self.grams().no_duplicates(),
            forall|gram: Seq<char>| self.count(gram) > 0 ==> self.grams().contains(gram),
    {
        proof {
            use_type_invariant(self);
        }
        let ghost all = self.grams@;
        let ghost names = keys(all);
        proof {
            assert forall|i: int, j: int| 0 <= i < names.len() && 0 <= j < names.len() && i
                != j implies names[i] != names[j] by {
                if i < j {
                    assert(all[i].0@ != all[j].0@);
                } else {
                    assert(all[j].0@ != all[i].0@);
                }
            }
            assert forall|gram: Seq<char>| self.count(gram) > 0 implies names.contains(gram) by {
                lemma_counted_is_key(all, gram);
            }
        }
        let mut sum: u64 = 0;
        let mut i: usize = 0;
        assert(names.take(0) =~= Seq::<Seq<char>>::empty());
        assert(all.take(0) =~= Seq::<(String, u32)>::empty());
        while i < self.grams.len()
            invariant
                i <= self.grams.len(),
                all == self.grams@,
                names == keys(all),
                distinct(all),
                total(all) == self.total_count(),
                sum == shared_among(names.take(i as int), *self, *other),
                sum <= total_upto(all, i as int),
            decreases self.grams.len() - i,
        {
            let count = self.grams[i].1;
            let theirs = other.get(self.grams[i].0.as_str());
            let less = if count <= theirs {
                count
            } else {
                theirs
            };
            proof {
                lemma_count_at(all, i as int);
                lemma_total_grows(all, i + 1);
                assert(all.take(i + 1).drop_last() =~= all.take(i as int));
                assert(names.take(i + 1).drop_last() =~= names.take(i as int));
                assert(names.take(i + 1).last() == all[i as int].0@);
            }
            sum = sum + less as u64;
            i += 1;
        }
        proof {
            assert(names.take(i as int) =~= names);
            assert(all.take(i as int) =~= all);
        }
        sum
    }

    /// The number of n-grams that were added.
    pub fn len(&self) -> (r: usize)
        ensures
            r == self.total_count(),
    {
        self.size
    }

    /// Whether no n-gram was added.
    pub fn is_empty(&self) -> (r: bool)
        ensures
            r == (self.total_count() == 0),
    {
        self.size == 0
    }

    /// The n-grams that were added, each with the number of times.
    pub fn entries(&self) -> (r: &[(String, u32)])
        ensures
            forall|gram: Seq<char>| count_in(r@, gram) == self.count(gram),
            distinct(r@),
    {
        proof {
            use_type_invariant(self);
        }
        self.grams.as_slice()
    }
}

/// The position of the first space at or after `from`, or the length of
/// the text.
pub fn find_word_end(text: &[u8], from: usize) -> (r: usize)
    requires
        from <= text.len(),
    ensures
        r == word_end(text@, from as int),
        from <= r <= text.len(),
{
    let mut i = from;
    while i < text.len() && text[i] != 0x20
        invariant
            from <= i <= text.len(),
            word_end(text@, from as int) == word_end(text@, i as int),
        decreases text.len() - i,
    {
        i += 1;
    }
    i
}

/// Where the run of `n` words that starts at `from` ends.
pub fn find_run_end(text: &[u8], from: usize, n: u8) -> (r: Option<usize>)
    requires
        from <= text.len(),
    ensures
        match run_end(text@, from as int, n as nat) {
            Some(end) => r == Some(end as usize) && from <= end <= text.len(),
            None => r is None,
        },
{
    if n == 0 {
        return None;
    }
    let mut left = n;
    let mut at = from;
    loop
        invariant
            from <= at <= text.len(),
            1 <= left <= n,
            run_end(text@, from as int, n as nat) == run_end(text@, at as int, left as nat),
        decreases left,
    {
        let end = find_word_end(text, at);
        if left == 1 {
            return Some(end);
        }
        if end >= text.len() {
            return None;
        }
        at = end + 1;
        left -= 1;
    }
}

} // verus!
