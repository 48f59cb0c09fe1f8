//! Byte-level helpers shared by the lexer, the registry and the matching rules.
//!
//! All positions in this crate are byte offsets into UTF-8 text.

use vstd::prelude::*;
use vstd::string::*;
use vstd::utf8::*;

verus! {

/// `p` occurs at the very start of `s`.
pub open spec fn has_prefix(s: Seq<u8>, p: Seq<u8>) -> bool {
    p.len() <= s.len() && s.subrange(0, p.len() as int) == p
}

/// `p` occurs at the very end of `s`.
pub open spec fn has_suffix(s: Seq<u8>, p: Seq<u8>) -> bool {
    p.len() <= s.len() && s.subrange(s.len() - p.len(), s.len() as int) == p
}

/// `s` without its last `n` bytes.
pub open spec fn without_last(s: Seq<u8>, n: int) -> Seq<u8> {
    s.subrange(0, s.len() - n)
}

/// The lower-case form of an ASCII letter; any other byte is unchanged.
pub open spec fn lower(b: u8) -> u8 {
    if 0x41 <= b <= 0x5a {
        (b + 0x20) as u8
    } else {
        b
    }
}

/// `a` and `b` are the same bytes once ASCII letters are folded to lower case.
pub open spec fn same_ignoring_case(a: Seq<u8>, b: Seq<u8>) -> bool {
    a.len() == b.len() && forall|i: int| 0 <= i < a.len() ==> lower(#[trigger] a[i]) == lower(b[i])
}

/// `p`, ignoring ASCII case, occurs at the very start of `s`.
pub open spec fn has_prefix_ignoring_case(s: Seq<u8>, p: Seq<u8>) -> bool {
    p.len() <= s.len() && same_ignoring_case(s.subrange(0, p.len() as int), p)
}

/// A byte that may stand in a reference: a letter, a digit, `-` or `.`.
pub open spec fn is_ref_byte(b: u8) -> bool {
    (0x30 <= b <= 0x39) || (0x41 <= b <= 0x5a) || (0x61 <= b <= 0x7a) || b == 0x2d || b == 0x2e
}

/// A byte that may stand in a term: a byte of a reference, or `:`.
pub open spec fn is_term_byte(b: u8) -> bool {
    is_ref_byte(b) || b == 0x3a
}

/// A text of term bytes that is not empty.
pub open spec fn is_term_text(s: Seq<u8>) -> bool {
    s.len() > 0 && forall|i: int| 0 <= i < s.len() ==> is_term_byte(#[trigger] s[i])
}

/// One of the operators, in upper case or in lower case.
pub open spec fn is_operator_word(s: Seq<u8>) -> bool {
    ||| s == "AND".spec_bytes()
    ||| s == "and".spec_bytes()
    ||| s == "OR".spec_bytes()
    ||| s == "or".spec_bytes()
    ||| s == "WITH".spec_bytes()
    ||| s == "with".spec_bytes()
}

/// `p` with its last byte raised by one: what sorts just behind all that
/// begins with `p`.
pub open spec fn behind_prefix(p: Seq<u8>) -> Seq<u8> {
    p.drop_last().push((p.last() + 1) as u8)
}

/// Every byte of `s` is an ASCII character.
pub open spec fn is_ascii_bytes(s: Seq<u8>) -> bool {
    forall|i: int| 0 <= i < s.len() ==> #[trigger] s[i] < 0x80
}

/// Byte-wise lexicographic order: `a` sorts before `b`, or they are equal.
pub open spec fn bytes_le(a: Seq<u8>, b: Seq<u8>) -> bool {
    ||| has_prefix(b, a)
    ||| exists|k: int| differs_below(a, b, k)
}

/// `a` and `b` agree before position `k`, where `a` holds the smaller byte.
pub open spec fn differs_below(a: Seq<u8>, b: Seq<u8>, k: int) -> bool {
    &&& 0 <= k < a.len()
    &&& k < b.len()
    &&& a.subrange(0, k) == b.subrange(0, k)
    &&& a[k] < b[k]
}

/// Byte-wise lexicographic order: `a` sorts before `b` and is not equal to
/// it.
pub open spec fn sorts_before(a: Seq<u8>, b: Seq<u8>) -> bool {
    ||| (a.len() < b.len() && has_prefix(b, a))
    ||| exists|k: int| differs_below(a, b, k)
}

/// The position of the last `-` in `s`, or the length of `s` when it has none.
pub open spec fn last_dash(s: Seq<u8>) -> int
    decreases s.len(),
{
    if s.len() == 0 {
        0
    } else if s.last() == 0x2du8 {
        s.len() - 1
    } else {
        let rest = last_dash(s.drop_last());
        if rest == s.len() - 1 {
            s.len() as int
        } else {
            rest
        }
    }
}

/// The first position at or after `from` that holds `b`, or the length of
/// `s` when there is none.
pub open spec fn first_at(s: Seq<u8>, b: u8, from: int) -> int
    decreases s.len() - from,
{
    if from < 0 || from >= s.len() {
        s.len() as int
    } else if s[from] == b {
        from
    } else {
        first_at(s, b, from + 1)
    }
}

pub fn bytes_eq(a: &[u8], b: &[u8]) -> (r: bool)
    ensures
        r == (a@ == b@),
{
    if a.len() != b.len() {
        return false;
    }
    let mut i: usize = 0;
    while i < a.len()
        invariant
            a.len() == b.len(),
            i <= a.len(),
            a@.subrange(0, i as int) == b@.subrange(0, i as int),
        decreases a.len() - i,
    {
        if a[i] != b[i] {
            return false;
        }
        assert(a@.subrange(0, i + 1) =~= a@.subrange(0, i as int).push(a@[i as int]));
        assert(b@.subrange(0, i + 1) =~= b@.subrange(0, i as int).push(b@[i as int]));
        i += 1;
    }
    assert(a@ =~= a@.subrange(0, i as int));
    assert(b@ =~= b@.subrange(0, i as int));
    true
}

/// Whether the bytes of `s` from `from` on begin with `p`.
pub fn starts_with_at(s: &[u8], from: usize, p: &[u8]) -> (r: bool)
    requires
        from <= s.len(),
    ensures
        r == has_prefix(s@.subrange(from as int, s.len() as int), p@),
{
    let ghost tail = s@.subrange(from as int, s.len() as int);
    if p.len() > s.len() - from {
        return false;
    }
    let mut i: usize = 0;
    while i < p.len()
        invariant
            from + p.len() <= s.len(),
            i <= p.len(),
            tail == s@.subrange(from as int, s.len() as int),
            tail.subrange(0, i as int) == p@.subrange(0, i as int),
        decreases p.len() - i,
    {
        if s[from + i] != p[i] {
            assert(tail.subrange(0, p.len() as int)[i as int] != p@[i as int]);
            return false;
        }
        assert(tail.subrange(0, i + 1) =~= tail.subrange(0, i as int).push(tail[i as int]));
        assert(p@.subrange(0, i + 1) =~= p@.subrange(0, i as int).push(p@[i as int]));
        i += 1;
    }
    assert(p@ =~= p@.subrange(0, i as int));
    true
}

pub fn starts_with(s: &[u8], p: &[u8]) -> (r: bool)
    ensures
        r == has_prefix(s@, p@),
{
    assert(s@.subrange(0, s.len() as int) =~= s@);
    starts_with_at(s, 0, p)
}

pub fn ends_with(s: &[u8], p: &[u8]) -> (r: bool)
    ensures
        r == has_suffix(s@, p@),
{
    if p.len() > s.len() {
        return false;
    }
    let from = s.len() - p.len();
    let r = starts_with_at(s, from, p);
    proof {
        let tail = s@.subrange(from as int, s.len() as int);
        assert(tail.subrange(0, p.len() as int) =~= tail);
    }
    r
}

pub fn to_lower(b: u8) -> (r: u8)
    ensures
        r == lower(b),
{
    if 0x41 <= b && b <= 0x5a {
        b + 0x20
    } else {
        b
    }
}

/// Whether the bytes of `s` from `from` on begin with `p`, ignoring ASCII case.
pub fn starts_with_ignoring_case_at(s: &[u8], from: usize, p: &[u8]) -> (r: bool)
    requires
        from <= s.len(),
    ensures
        r == has_prefix_ignoring_case(s@.subrange(from as int, s.len() as int), p@),
{
    let ghost tail = s@.subrange(from as int, s.len() as int);
    if p.len() > s.len() - from {
        return false;
    }
    let ghost head = tail.subrange(0, p.len() as int);
    let mut i: usize = 0;
    while i < p.len()
        invariant
            from + p.len() <= s.len(),
            i <= p.len(),
            tail == s@.subrange(from as int, s.len() as int),
            head == tail.subrange(0, p.len() as int),
            forall|j: int| 0 <= j < i ==> lower(#[trigger] head[j]) == lower(p@[j]),
        decreases p.len() - i,
    {
        if to_lower(s[from + i]) != to_lower(p[i]) {
            assert(lower(head[i as int]) != lower(p@[i as int]));
            return false;
        }
        i += 1;
    }
    true
}

/// Whether every byte of `s` is an ASCII character.
pub fn all_ascii(s: &[u8]) -> (r: bool)
    ensures
        r == is_ascii_bytes(s@),
{
    let mut i: usize = 0;
    while i < s.len()
        invariant
            i <= s.len(),
            forall|j: int| 0 <= j < i ==> #[trigger] s@[j] < 0x80,
        decreases s.len() - i,
    {
        if s[i] >= 0x80 {
            return false;
        }
        i += 1;
    }
    true
}

/// Byte-wise lexicographic comparison, as `<=` on strings.
pub fn le_bytes(a: &[u8], b: &[u8]) -> (r: bool)
    ensures
        r == bytes_le(a@, b@),
{
    let mut i: usize = 0;
    while i < a.len() && i < b.len()
        invariant
            i <= a.len(),
            i <= b.len(),
            a@.subrange(0, i as int) == b@.subrange(0, i as int),
        decreases a.len() - i,
    {
        if a[i] != b[i] {
            let r = a[i] < b[i];
            proof {
                if r {
                    assert(differs_below(a@, b@, i as int));
                } else {
                    lemma_first_difference(a@, b@, i as int);
                }
            }
            return r;
        }
        assert(a@.subrange(0, i + 1) =~= a@.subrange(0, i as int).push(a@[i as int]));
        assert(b@.subrange(0, i + 1) =~= b@.subrange(0, i as int).push(b@[i as int]));
        i += 1;
    }
    if i == a.len() {
        assert(a@ =~= a@.subrange(0, i as int));
        true
    } else {
        proof {
            assert forall|k: int| !differs_below(a@, b@, k) by {
                if differs_below(a@, b@, k) {
                    assert(a@.subrange(0, i as int)[k] == b@.subrange(0, i as int)[k]);
                }
            }
        }
        false
    }
}

/// Where two sequences first differ decides their order.
pub proof fn lemma_first_difference(a: Seq<u8>, b: Seq<u8>, i: int)
    requires
        0 <= i < a.len(),
        i < b.len(),
        a.subrange(0, i) == b.subrange(0, i),
        a[i] > b[i],
    ensures
        !bytes_le(a, b),
{
    if has_prefix(b, a) {
        assert(b.subrange(0, a.len() as int)[i] == a[i]);
    }
    assert forall|k: int| !differs_below(a, b, k) by {
        if differs_below(a, b, k) {
            if k < i {
                assert(a.subrange(0, i)[k] == a[k]);
                assert(b.subrange(0, i)[k] == b[k]);
            } else if k > i {
                assert(a.subrange(0, k)[i] == a[i]);
                assert(b.subrange(0, k)[i] == b[i]);
            }
        }
    }
}

/// What differs from `p` at one of its places does not begin with `p`.
pub proof fn lemma_not_prefix(s: Seq<u8>, p: Seq<u8>, k: int)
    requires
        0 <= k < p.len(),
        k < s.len(),
        s[k] != p[k],
    ensures
        !has_prefix(s, p),
{
    if has_prefix(s, p) {
        assert(s.subrange(0, p.len() as int)[k] == s[k]);
    }
}

/// The ten digits.
pub open spec fn digit_text(d: nat) -> Seq<char> {
    if d == 0 {
        "0"@
    } else if d == 1 {
        "1"@
    } else if d == 2 {
        "2"@
    } else if d == 3 {
        "3"@
    } else if d == 4 {
        "4"@
    } else if d == 5 {
        "5"@
    } else if d == 6 {
        "6"@
    } else if d == 7 {
        "7"@
    } else if d == 8 {
        "8"@
    } else {
        "9"@
    }
}

/// The number `n` written in decimal digits, without leading zeros.
pub open spec fn decimal(n: nat) -> Seq<char>
    decreases n,
{
    if n < 10 {
        digit_text(n)
    } else {
        decimal(n / 10) + digit_text(n % 10)
    }
}

/// The digit `d`.
pub fn digit_str(d: usize) -> (r: &'static str)
    requires
        d < 10,
    ensures
        r@ == digit_text(d as nat),
{
    if d == 0 {
        "0"
    } else if d == 1 {
        "1"
    } else if d == 2 {
        "2"
    } else if d == 3 {
        "3"
    } else if d == 4 {
        "4"
    } else if d == 5 {
        "5"
    } else if d == 6 {
        "6"
    } else if d == 7 {
        "7"
    } else if d == 8 {
        "8"
    } else {
        "9"
    }
}

/// The number `n` written in decimal digits, without leading zeros.
pub fn decimal_string(n: usize) -> (r: String)
    ensures
        r@ == decimal(n as nat),
    decreases n,
{
    if n < 10 {
        let mut out = String::new();
        out.append(digit_str(n));
        assert(out@ =~= digit_text(n as nat));
        out
    } else {
        let mut out = decimal_string(n / 10);
        out.append(digit_str(n % 10));
        out
    }
}

/// Nothing sorts before itself.
pub proof fn lemma_sorts_before_irreflexive(a: Seq<u8>)
    ensures
        !sorts_before(a, a),
{
}

/// What sorts before something that sorts before a third, sorts before
/// the third.
pub proof fn lemma_sorts_before_transitive(a: Seq<u8>, b: Seq<u8>, c: Seq<u8>)
    requires
        sorts_before(a, b),
        sorts_before(b, c),
    ensures
        sorts_before(a, c),
{
    let a_prefix = a.len() < b.len() && has_prefix(b, a);
    let b_prefix = b.len() < c.len() && has_prefix(c, b);
    assert forall|i: int| 0 <= i < a.len() && a_prefix implies a[i] == b[i] by {
        assert(b.subrange(0, a.len() as int)[i] == b[i]);
    }
    assert forall|i: int| 0 <= i < b.len() && b_prefix implies b[i] == c[i] by {
        assert(c.subrange(0, b.len() as int)[i] == c[i]);
    }
    if a_prefix && b_prefix {
        assert(c.subrange(0, a.len() as int) =~= a);
    } else if a_prefix {
        let k = choose|k: int| differs_below(b, c, k);
        assert forall|i: int| 0 <= i < k implies b[i] == c[i] by {
            assert(b.subrange(0, k)[i] == b[i]);
            assert(c.subrange(0, k)[i] == c[i]);
        }
        if k < a.len() {
            assert(a.subrange(0, k) =~= c.subrange(0, k));
            assert(differs_below(a, c, k));
        } else {
            assert(c.subrange(0, a.len() as int) =~= a);
        }
    } else if b_prefix {
        let k = choose|k: int| differs_below(a, b, k);
        assert forall|i: int| 0 <= i < k implies a[i] == b[i] by {
            assert(a.subrange(0, k)[i] == a[i]);
            assert(b.subrange(0, k)[i] == b[i]);
        }
        assert(a.subrange(0, k) =~= c.subrange(0, k));
        assert(differs_below(a, c, k));
    } else {
        let k1 = choose|k: int| differs_below(a, b, k);
        let k2 = choose|k: int| differs_below(b, c, k);
        assert forall|i: int| 0 <= i < k1 implies a[i] == b[i] by {
            assert(a.subrange(0, k1)[i] == a[i]);
            assert(b.subrange(0, k1)[i] == b[i]);
        }
        assert forall|i: int| 0 <= i < k2 implies b[i] == c[i] by {
            assert(b.subrange(0, k2)[i] == b[i]);
            assert(c.subrange(0, k2)[i] == c[i]);
        }
        let k = if k1 <= k2 {
            k1
        } else {
            k2
        };
        assert(a.subrange(0, k) =~= c.subrange(0, k));
        assert(differs_below(a, c, k));
    }
}

/// What begins with `p` lies between what sorts before `p` and what does
/// not sort before the successor of `p`.
pub proof fn lemma_prefixed_between(w: Seq<u8>, p: Seq<u8>, lo: Seq<u8>, hi: Seq<u8>)
    requires
        p.len() > 0,
        p.last() < 255,
        has_prefix(w, p),
        sorts_before(lo, p),
        hi == behind_prefix(p) || sorts_before(behind_prefix(p), hi),
    ensures
        sorts_before(lo, w),
        sorts_before(w, hi),
{
    let n = p.len() as int;
    let next = behind_prefix(p);
    assert forall|i: int| 0 <= i < n implies w[i] == p[i] by {
        assert(w.subrange(0, n)[i] == w[i]);
    }
    if w.len() > n {
        assert(w.subrange(0, n) =~= p);
        assert(sorts_before(p, w));
        lemma_sorts_before_transitive(lo, p, w);
    } else {
        assert(w =~= p);
    }
    assert(w.subrange(0, n - 1) =~= next.subrange(0, n - 1));
    assert(differs_below(w, next, n - 1));
    if hi != next {
        lemma_sorts_before_transitive(w, next, hi);
    }
}

/// How two byte strings compare: which of them sorts before the other, if
/// they are not equal.
pub enum Order {
    Before,
    Same,
    After,
}

/// Byte-wise lexicographic comparison of `a` with `b`.
pub fn order_of(a: &[u8], b: &[u8]) -> (r: Order)
    ensures
        r is Before ==> sorts_before(a@, b@),
        r is Same ==> a@ == b@,
        r is After ==> sorts_before(b@, a@),
{
    let mut i: usize = 0;
    while i < a.len() && i < b.len()
        invariant
            i <= a.len(),
            i <= b.len(),
            a@.subrange(0, i as int) == b@.subrange(0, i as int),
        decreases a.len() - i,
    {
        if a[i] < b[i] {
            assert(differs_below(a@, b@, i as int));
            return Order::Before;
        }
        if a[i] > b[i] {
            assert(differs_below(b@, a@, i as int));
            return Order::After;
        }
        assert(a@.subrange(0, i + 1) =~= a@.subrange(0, i as int).push(a@[i as int]));
        assert(b@.subrange(0, i + 1) =~= b@.subrange(0, i as int).push(b@[i as int]));
        i += 1;
    }
    if a.len() < b.len() {
        assert(a@ =~= a@.subrange(0, i as int));
        Order::Before
    } else if a.len() > b.len() {
        assert(b@ =~= b@.subrange(0, i as int));
        Order::After
    } else {
        assert(a@ =~= a@.subrange(0, i as int));
        assert(b@ =~= b@.subrange(0, i as int));
        Order::Same
    }
}

/// The position of the last `-` in `s`, or its length when it has none.
pub fn find_last_dash(s: &[u8]) -> (r: usize)
    ensures
        r == last_dash(s@),
        r <= s.len(),
{
    let mut found: usize = 0;
    let mut i: usize = 0;
    while i < s.len()
        invariant
            i <= s.len(),
            found <= i,
            found == last_dash(s@.subrange(0, i as int)),
        decreases s.len() - i,
    {
        let ghost before = s@.subrange(0, i as int);
        let ghost after = s@.subrange(0, i + 1);
        assert(after.drop_last() =~= before);
        assert(after.last() == s@[i as int]);
        if s[i] == 0x2d {
            found = i;
        } else if found == i {
            found = i + 1;
        }
        i += 1;
    }
    assert(s@ =~= s@.subrange(0, i as int));
    found
}

/// After one UTF-8 scalar that starts on a character boundary comes
/// another boundary.
pub proof fn lemma_boundary_step(bytes: Seq<u8>, i: int)
    requires
        valid_utf8(bytes),
        is_char_boundary(bytes, i),
        0 <= i < bytes.len(),
    ensures
        i + length_of_first_scalar(bytes.subrange(i, bytes.len() as int)) <= bytes.len(),
        is_char_boundary(
            bytes,
            i + length_of_first_scalar(bytes.subrange(i, bytes.len() as int)),
        ),
        valid_first_scalar(bytes.subrange(i, bytes.len() as int)),
    decreases bytes.len(),
{
    reveal_with_fuel(is_char_boundary, 2);
    reveal_with_fuel(valid_utf8, 2);
    let n = bytes.len() as int;
    let first = length_of_first_scalar(bytes);
    let tail = pop_first_scalar(bytes);
    if i == 0 {
        assert(bytes.subrange(0, n) =~= bytes);
    } else {
        lemma_boundary_step(tail, i - first);
        assert(tail.subrange(i - first, tail.len() as int) =~= bytes.subrange(i, n));
    }
}

/// A position that follows a run of ASCII bytes begun on a character
/// boundary is a character boundary too.
pub proof fn lemma_ascii_run_boundary(bytes: Seq<u8>, from: int, to: int)
    requires
        valid_utf8(bytes),
        is_char_boundary(bytes, from),
        0 <= from <= to <= bytes.len(),
        forall|j: int| from <= j < to ==> #[trigger] bytes[j] < 0x80,
    ensures
        is_char_boundary(bytes, to),
    decreases to - from,
{
    if from < to {
        lemma_boundary_step(bytes, from);
        assert(bytes.subrange(from, bytes.len() as int)[0] == bytes[from]);
        lemma_ascii_run_boundary(bytes, from + 1, to);
    }
}

/// The part of `s` between two character boundaries.
pub fn slice_between<'a>(s: &'a str, from: usize, to: usize) -> (r: &'a str)
    requires
        from <= to <= s.spec_bytes().len(),
        is_char_boundary(s.spec_bytes(), from as int),
        is_char_boundary(s.spec_bytes(), to as int),
    ensures
        r.spec_bytes() == s.spec_bytes().subrange(from as int, to as int),
        r@ == decode_utf8(s.spec_bytes().subrange(from as int, to as int)),
{
    let (head, _) = s.split_at(to);
    proof {
        let bytes = s.spec_bytes();
        let hb = head.spec_bytes();
        encode_utf8_valid_utf8(s@);
        encode_utf8_valid_utf8(head@);
        if from == to {
            is_char_boundary_start_end_of_seq(hb);
        } else {
            is_char_boundary_iff_not_is_continuation_byte(bytes, from as int);
            is_char_boundary_iff_not_is_continuation_byte(hb, from as int);
        }
    }
    let (_, mid) = head.split_at(from);
    proof {
        assert(mid.spec_bytes() =~= s.spec_bytes().subrange(from as int, to as int));
        encode_utf8_decode_utf8(mid@);
    }
    mid
}

/// Two texts are equal exactly when their UTF-8 encodings are.
pub proof fn lemma_same_text(a: Seq<char>, b: Seq<char>)
    ensures
        (a == b) <==> (encode_utf8(a) == encode_utf8(b)),
{
    encode_utf8_decode_utf8(a);
    encode_utf8_decode_utf8(b);
}

/// Equality of two strings.
pub fn str_eq(a: &str, b: &str) -> (r: bool)
    ensures
        r == (a@ == b@),
{
    proof {
        lemma_same_text(a@, b@);
    }
    bytes_eq(a.as_bytes(), b.as_bytes())
}

} // verus!
