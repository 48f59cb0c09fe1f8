//! Canonical text stays canonical.
//!
//! The canonical text of an expression is what its tokens are rewritten to
//! and then written as, one after the other. Lexed again, it gives the
//! rewritten tokens back, which are written as before: canonicalizing it
//! changes nothing.

use crate::expression::canonical::{
    canonical_from, canonical_text, is_gnu_token, prepend, token_adds, token_text,
    CanonicalOutcome,
};
use crate::identifiers::{
    lemma_addition_ref_is_no_exception, lemma_addition_ref_is_no_license,
    lemma_document_ref_is_no_exception, lemma_document_ref_is_no_license,
    lemma_license_ref_is_no_exception, lemma_license_ref_is_no_license, EXCEPTION_COUNT, IS_GNU,
    LICENSE_COUNT,
};
use crate::expression::parser::{
    advance, initial_state, parse_from, parse_outcome, Last, ParserState, Step,
};
use crate::laws::{ends, lemma_parse_by_tokens, lexes, lexes_all, run_tokens, Lexed};
use crate::lexer::{
    after_whitespace, doc_text, lax_mode, lex_step, lex_term, ref_end, reference_at, term_end,
    text_between, whitespace_width, LexStep, RefParts, TokenView,
};
use crate::registry::{
    exception_bytes, exception_lookup, lemma_exception_lookup, lemma_exception_names_differ,
    lemma_exceptions_increase, lemma_license_lookup, lemma_license_names_differ,
    lemma_licenses_increase, license_bytes, license_has, license_lookup,
};
use crate::text::{
    has_prefix, is_operator_word, is_ref_byte, is_term_byte, is_term_text,
    lemma_sorts_before_irreflexive, lemma_sorts_before_transitive, sorts_before,
};
use vstd::prelude::*;
use vstd::string::*;
use vstd::utf8::*;

verus! {

/// The text `t` holds the bytes `piece` from the position `at` on.
pub open spec fn holds_at(t: Seq<u8>, at: int, piece: Seq<u8>) -> bool {
    0 <= at && at + piece.len() <= t.len() && t.subrange(at, at + piece.len()) == piece
}

/// No term goes on at the position `at` of the text.
pub open spec fn ends_term(t: Seq<u8>, at: int) -> bool {
    at == t.len() || (0 <= at < t.len() && !is_term_byte(t[at]))
}

/// The bytes of the text from `from` up to `to` are spaces.
pub open spec fn spaces_between(t: Seq<u8>, from: int, to: int) -> bool {
    0 <= from <= to <= t.len() && forall|j: int| from <= j < to ==> #[trigger] t[j] == 0x20
}

/// Every byte of the text is a reference byte.
pub open spec fn is_ref_run(s: Seq<u8>) -> bool {
    forall|i: int| 0 <= i < s.len() ==> is_ref_byte(#[trigger] s[i])
}

/// The encoding of two texts in a row is the two encodings in a row.
pub proof fn lemma_encode_concat(a: Seq<char>, b: Seq<char>)
    ensures
        encode_utf8(a + b) == encode_utf8(a) + encode_utf8(b),
    decreases a.len(),
{
    if a.len() == 0 {
        assert(a + b =~= b);
        assert(encode_utf8(a) + encode_utf8(b) =~= encode_utf8(b));
    } else {
        assert((a + b).drop_first() =~= a.drop_first() + b);
        assert((a + b)[0] == a[0]);
        lemma_encode_concat(a.drop_first(), b);
        assert(encode_utf8(a + b) =~= encode_utf8(a) + encode_utf8(b));
    }
}

/// The bytes of a piece that the text holds.
pub proof fn lemma_holds_at(t: Seq<u8>, at: int, piece: Seq<u8>)
    requires
        holds_at(t, at, piece),
    ensures
        forall|j: int| 0 <= j < piece.len() ==> #[trigger] t[at + j] == piece[j],
{
    assert forall|j: int| 0 <= j < piece.len() implies #[trigger] t[at + j] == piece[j] by {
        assert(t.subrange(at, at + piece.len())[j] == t[at + j]);
    }
}

/// A text that holds two pieces in a row holds each of them.
pub proof fn lemma_holds_both(t: Seq<u8>, at: int, a: Seq<u8>, b: Seq<u8>)
    requires
        holds_at(t, at, a + b),
    ensures
        holds_at(t, at, a),
        holds_at(t, at + a.len(), b),
{
    lemma_holds_at(t, at, a + b);
    assert(t.subrange(at, at + a.len()) =~= a) by {
        assert forall|j: int| 0 <= j < a.len() implies t.subrange(at, at + a.len())[j] == a[j] by {
            assert(t[at + j] == (a + b)[j]);
        }
    }
    assert(t.subrange(at + a.len(), at + a.len() + b.len()) =~= b) by {
        assert forall|j: int| 0 <= j < b.len() implies t.subrange(
            at + a.len(),
            at + a.len() + b.len(),
        )[j] == b[j] by {
            assert(t[at + (a.len() + j)] == (a + b)[a.len() + j]);
        }
    }
}

/// A term that the text holds between a position and a byte that is no
/// term byte is found as a whole.
pub proof fn lemma_term_found(t: Seq<u8>, from: int, to: int)
    requires
        0 <= from <= to <= t.len(),
        forall|j: int| from <= j < to ==> is_term_byte(#[trigger] t[j]),
        ends_term(t, to),
    ensures
        term_end(t, from) == to,
    decreases to - from,
{
    if from < to {
        assert(is_term_byte(t[from]));
        lemma_term_found(t, from + 1, to);
    }
}

/// A run of reference bytes that the text holds between a position and a
/// byte that is no reference byte is found as a whole.
pub proof fn lemma_ref_found(t: Seq<u8>, from: int, to: int)
    requires
        0 <= from <= to <= t.len(),
        forall|j: int| from <= j < to ==> is_ref_byte(#[trigger] t[j]),
        to == t.len() || !is_ref_byte(t[to]),
    ensures
        ref_end(t, from) == to,
    decreases to - from,
{
    if from < to {
        assert(is_ref_byte(t[from]));
        lemma_ref_found(t, from + 1, to);
    }
}

/// Spaces are passed over up to a byte that starts no whitespace.
pub proof fn lemma_spaces_passed(t: Seq<u8>, from: int, to: int)
    requires
        spaces_between(t, from, to),
        whitespace_width(t, to) == 0,
    ensures
        after_whitespace(t, from) == to,
    decreases to - from,
{
    if from < to {
        assert(t[from] == 0x20);
        lemma_spaces_passed(t, from + 1, to);
    }
}

/// A term that stands in the text behind spaces is lexed as a term.
pub proof fn lemma_lexes_term(t: Seq<u8>, pos: int, start: int, end: int)
    requires
        spaces_between(t, pos, start),
        start < end <= t.len(),
        forall|j: int| start <= j < end ==> is_term_byte(#[trigger] t[j]),
        ends_term(t, end),
    ensures
        lex_step(t, lax_mode(), pos) == lex_term(t, lax_mode(), start, end),
{
    assert(is_term_byte(t[start]));
    lemma_spaces_passed(t, pos, start);
    lemma_term_found(t, start, end);
}

/// The bytes that a token is written as in canonical text.
pub open spec fn piece_of(token: TokenView) -> Seq<u8> {
    encode_utf8(token_text(token))
}

/// A license that can be read back from canonical text: its identifier is
/// a term, and no operator.
pub open spec fn readable_license(k: usize) -> bool {
    &&& k < LICENSE_COUNT
    &&& is_term_text(license_bytes(k))
    &&& !is_operator_word(license_bytes(k))
}

/// An exception that can be read back from canonical text: its identifier
/// is a term, no operator, and no license.
pub open spec fn readable_exception(e: usize) -> bool {
    &&& e < EXCEPTION_COUNT
    &&& is_term_text(exception_bytes(e))
    &&& !is_operator_word(exception_bytes(e))
    &&& license_lookup(exception_bytes(e)) is None
}

/// A license of the list that stands in the text as a whole term is lexed
/// as that license.
pub proof fn lemma_lexes_license(t: Seq<u8>, pos: int, start: int, k: usize)
    requires
        spaces_between(t, pos, start),
        readable_license(k),
        holds_at(t, start, license_bytes(k)),
        ends_term(t, start + license_bytes(k).len()),
    ensures
        lex_step(t, lax_mode(), pos) == (LexStep::Token {
            token: TokenView::Spdx(k),
            start,
            end: start + license_bytes(k).len(),
        }),
{
    let end = start + license_bytes(k).len();
    lemma_holds_at(t, start, license_bytes(k));
    assert forall|j: int| start <= j < end implies is_term_byte(#[trigger] t[j]) by {
        assert(t[start + (j - start)] == license_bytes(k)[j - start]);
    }
    lemma_lexes_term(t, pos, start, end);
    lemma_license_names_differ(k, k);
}

/// An exception of the list that stands in the text as a whole term is
/// lexed as that exception.
pub proof fn lemma_lexes_exception(t: Seq<u8>, pos: int, start: int, e: usize)
    requires
        spaces_between(t, pos, start),
        readable_exception(e),
        holds_at(t, start, exception_bytes(e)),
        ends_term(t, start + exception_bytes(e).len()),
    ensures
        lex_step(t, lax_mode(), pos) == (LexStep::Token {
            token: TokenView::Exception(e),
            start,
            end: start + exception_bytes(e).len(),
        }),
{
    let end = start + exception_bytes(e).len();
    lemma_holds_at(t, start, exception_bytes(e));
    assert forall|j: int| start <= j < end implies is_term_byte(#[trigger] t[j]) by {
        assert(t[start + (j - start)] == exception_bytes(e)[j - start]);
    }
    lemma_lexes_term(t, pos, start, end);
    lemma_exception_names_differ(e, e);
}

/// What the operators are written as.
pub proof fn lemma_operator_pieces()
    ensures
        piece_of(TokenView::And) == seq![0x20u8, 0x41u8, 0x4eu8, 0x44u8, 0x20u8],
        piece_of(TokenView::Or) == seq![0x20u8, 0x4fu8, 0x52u8, 0x20u8],
        piece_of(TokenView::With) == seq![0x20u8, 0x57u8, 0x49u8, 0x54u8, 0x48u8, 0x20u8],
        piece_of(TokenView::Plus) == seq![0x2bu8],
        piece_of(TokenView::OpenParen) == seq![0x28u8],
        piece_of(TokenView::CloseParen) == seq![0x29u8],
        "AND".spec_bytes() == seq![0x41u8, 0x4eu8, 0x44u8],
        "OR".spec_bytes() == seq![0x4fu8, 0x52u8],
        "WITH".spec_bytes() == seq![0x57u8, 0x49u8, 0x54u8, 0x48u8],
        "and".spec_bytes().len() == 3,
        "or".spec_bytes().len() == 2,
        "with".spec_bytes().len() == 4,
        "and".spec_bytes()[0] == 0x61,
        "or".spec_bytes()[0] == 0x6f,
        "with".spec_bytes()[0] == 0x77,
{
    reveal_strlit(" AND ");
    reveal_strlit(" OR ");
    reveal_strlit(" WITH ");
    reveal_strlit("+");
    reveal_strlit("(");
    reveal_strlit(")");
    reveal_strlit("AND");
    reveal_strlit("OR");
    reveal_strlit("WITH");
    reveal_strlit("and");
    reveal_strlit("or");
    reveal_strlit("with");
    is_ascii_chars_encode_utf8(" AND "@);
    is_ascii_chars_encode_utf8(" OR "@);
    is_ascii_chars_encode_utf8(" WITH "@);
    is_ascii_chars_encode_utf8("+"@);
    is_ascii_chars_encode_utf8("("@);
    is_ascii_chars_encode_utf8(")"@);
    is_ascii_chars_encode_utf8("AND"@);
    is_ascii_chars_encode_utf8("OR"@);
    is_ascii_chars_encode_utf8("WITH"@);
    is_ascii_chars_encode_utf8("and"@);
    is_ascii_chars_encode_utf8("or"@);
    is_ascii_chars_encode_utf8("with"@);
    assert(piece_of(TokenView::And) =~= seq![0x20u8, 0x41u8, 0x4eu8, 0x44u8, 0x20u8]);
    assert(piece_of(TokenView::Or) =~= seq![0x20u8, 0x4fu8, 0x52u8, 0x20u8]);
    assert(piece_of(TokenView::With) =~= seq![0x20u8, 0x57u8, 0x49u8, 0x54u8, 0x48u8, 0x20u8]);
    assert(piece_of(TokenView::Plus) =~= seq![0x2bu8]);
    assert(piece_of(TokenView::OpenParen) =~= seq![0x28u8]);
    assert(piece_of(TokenView::CloseParen) =~= seq![0x29u8]);
    assert("AND".spec_bytes() =~= seq![0x41u8, 0x4eu8, 0x44u8]);
    assert("OR".spec_bytes() =~= seq![0x4fu8, 0x52u8]);
    assert("WITH".spec_bytes() =~= seq![0x57u8, 0x49u8, 0x54u8, 0x48u8]);
}

/// The word of an operator, in upper case.
pub open spec fn operator_word(token: TokenView) -> Seq<u8> {
    match token {
        TokenView::And => "AND".spec_bytes(),
        TokenView::Or => "OR".spec_bytes(),
        _ => "WITH".spec_bytes(),
    }
}

/// An operator is written as its word between two spaces.
pub proof fn lemma_operator_term(t: Seq<u8>, at: int, token: TokenView)
    requires
        token is And || token is Or || token is With,
        holds_at(t, at, piece_of(token)),
    ensures
        piece_of(token).len() == operator_word(token).len() + 2,
        operator_word(token).len() >= 2,
        0 <= at,
        at + piece_of(token).len() <= t.len(),
        t[at] == 0x20,
        t[at + piece_of(token).len() - 1] == 0x20,
        t.subrange(at + 1, at + piece_of(token).len() - 1) == operator_word(token),
        forall|j: int|
            at + 1 <= j < at + piece_of(token).len() - 1 ==> is_term_byte(#[trigger] t[j]),
        "OR".spec_bytes() != "AND".spec_bytes(),
        "OR".spec_bytes() != "and".spec_bytes(),
        "WITH".spec_bytes() != "AND".spec_bytes(),
        "WITH".spec_bytes() != "and".spec_bytes(),
        "WITH".spec_bytes() != "OR".spec_bytes(),
        "WITH".spec_bytes() != "or".spec_bytes(),
{
    lemma_operator_pieces();
    let piece = piece_of(token);
    let start = at + 1;
    let end = at + piece.len() - 1;
    lemma_holds_at(t, at, piece);
    assert(t[at + 0] == piece[0]);
    assert(t[at + (piece.len() - 1)] == piece[piece.len() - 1]);
    assert forall|j: int| start <= j < end implies is_term_byte(#[trigger] t[j]) by {
        assert(t[at + (j - at)] == piece[j - at]);
    }
    let term = t.subrange(start, end);
    assert forall|j: int| 0 <= j < term.len() implies #[trigger] term[j] == piece[j + 1] by {
        assert(t[at + (j + 1)] == piece[j + 1]);
    }
    assert(term =~= operator_word(token));
}

/// An operator that stands in the text between its two spaces is lexed as
/// that operator; its second space is left.
pub proof fn lemma_lexes_operator(t: Seq<u8>, pos: int, at: int, token: TokenView)
    requires
        spaces_between(t, pos, at),
        token is And || token is Or || token is With,
        holds_at(t, at, piece_of(token)),
    ensures
        lex_step(t, lax_mode(), pos) == (LexStep::Token {
            token,
            start: at + 1,
            end: at + piece_of(token).len() - 1,
        }),
        spaces_between(t, at + piece_of(token).len() - 1, at + piece_of(token).len()),
{
    lemma_operator_term(t, at, token);
    let start = at + 1;
    let end = at + piece_of(token).len() - 1;
    assert(spaces_between(t, pos, start));
    lemma_lexes_term(t, pos, start, end);
}

/// A parenthesis that stands in the text is lexed as that parenthesis.
pub proof fn lemma_lexes_paren(t: Seq<u8>, pos: int, at: int, token: TokenView)
    requires
        spaces_between(t, pos, at),
        token is OpenParen || token is CloseParen,
        holds_at(t, at, piece_of(token)),
    ensures
        lex_step(t, lax_mode(), pos) == (LexStep::Token { token, start: at, end: at + 1 }),
        piece_of(token).len() == 1,
{
    lemma_operator_pieces();
    lemma_holds_at(t, at, piece_of(token));
    assert(t[at + 0] == piece_of(token)[0]);
    lemma_spaces_passed(t, pos, at);
}

/// A `+` that stands in the text where the last token ended is lexed as
/// a `+`.
pub proof fn lemma_lexes_plus(t: Seq<u8>, at: int)
    requires
        holds_at(t, at, piece_of(TokenView::Plus)),
    ensures
        lex_step(t, lax_mode(), at) == (LexStep::Token {
            token: TokenView::Plus,
            start: at,
            end: at + 1,
        }),
        piece_of(TokenView::Plus).len() == 1,
{
    lemma_operator_pieces();
    lemma_holds_at(t, at, piece_of(TokenView::Plus));
    assert(t[at + 0] == piece_of(TokenView::Plus)[0]);
}

/// What is not between two licenses that follow each other in the table
/// is no license.
pub proof fn lemma_no_license_in_gap(w: Seq<u8>, gap: usize)
    requires
        gap + 1 < LICENSE_COUNT,
        sorts_before(license_bytes(gap), w),
        sorts_before(w, license_bytes((gap + 1) as usize)),
    ensures
        license_lookup(w) is None,
{
    lemma_sorts_before_irreflexive(w);
    assert forall|j: usize| j < LICENSE_COUNT implies license_bytes(j) != w by {
        if j < gap {
            lemma_licenses_increase(j, gap);
            lemma_sorts_before_transitive(license_bytes(j), license_bytes(gap), w);
        } else if j > gap + 1 {
            lemma_licenses_increase((gap + 1) as usize, j);
            lemma_sorts_before_transitive(w, license_bytes((gap + 1) as usize), license_bytes(j));
        }
    }
    lemma_license_lookup(w, 0);
}

/// What is not between two exceptions that follow each other in the table
/// is no exception.
pub proof fn lemma_no_exception_in_gap(w: Seq<u8>, gap: usize)
    requires
        gap + 1 < EXCEPTION_COUNT,
        sorts_before(exception_bytes(gap), w),
        sorts_before(w, exception_bytes((gap + 1) as usize)),
    ensures
        exception_lookup(w) is None,
{
    lemma_sorts_before_irreflexive(w);
    assert forall|j: usize| j < EXCEPTION_COUNT implies exception_bytes(j) != w by {
        if j < gap {
            lemma_exceptions_increase(j, gap);
            lemma_sorts_before_transitive(exception_bytes(j), exception_bytes(gap), w);
        } else if j > gap + 1 {
            lemma_exceptions_increase((gap + 1) as usize, j);
            lemma_sorts_before_transitive(
                w,
                exception_bytes((gap + 1) as usize),
                exception_bytes(j),
            );
        }
    }
    lemma_exception_lookup(w, 0);
}

/// What the words that begin a reference are written as.
pub proof fn lemma_reference_words()
    ensures
        "DocumentRef-".spec_bytes() == seq![
            0x44u8,
            0x6fu8,
            0x63u8,
            0x75u8,
            0x6du8,
            0x65u8,
            0x6eu8,
            0x74u8,
            0x52u8,
            0x65u8,
            0x66u8,
            0x2du8,
        ],
        "LicenseRef-".spec_bytes() == seq![
            0x4cu8,
            0x69u8,
            0x63u8,
            0x65u8,
            0x6eu8,
            0x73u8,
            0x65u8,
            0x52u8,
            0x65u8,
            0x66u8,
            0x2du8,
        ],
        "AdditionRef-".spec_bytes() == seq![
            0x41u8,
            0x64u8,
            0x64u8,
            0x69u8,
            0x74u8,
            0x69u8,
            0x6fu8,
            0x6eu8,
            0x52u8,
            0x65u8,
            0x66u8,
            0x2du8,
        ],
        ":".spec_bytes() == seq![0x3au8],
        encode_utf8("DocumentRef-"@) == "DocumentRef-".spec_bytes(),
        encode_utf8("LicenseRef-"@) == "LicenseRef-".spec_bytes(),
        encode_utf8("AdditionRef-"@) == "AdditionRef-".spec_bytes(),
        encode_utf8(":"@) == ":".spec_bytes(),
{
    reveal_strlit("DocumentRef-");
    reveal_strlit("LicenseRef-");
    reveal_strlit("AdditionRef-");
    reveal_strlit(":");
    is_ascii_chars_encode_utf8("DocumentRef-"@);
    is_ascii_chars_encode_utf8("LicenseRef-"@);
    is_ascii_chars_encode_utf8("AdditionRef-"@);
    is_ascii_chars_encode_utf8(":"@);
    assert("DocumentRef-".spec_bytes() =~= seq![
        0x44u8,
        0x6fu8,
        0x63u8,
        0x75u8,
        0x6du8,
        0x65u8,
        0x6eu8,
        0x74u8,
        0x52u8,
        0x65u8,
        0x66u8,
        0x2du8,
    ]);
    assert("LicenseRef-".spec_bytes() =~= seq![
        0x4cu8,
        0x69u8,
        0x63u8,
        0x65u8,
        0x6eu8,
        0x73u8,
        0x65u8,
        0x52u8,
        0x65u8,
        0x66u8,
        0x2du8,
    ]);
    assert("AdditionRef-".spec_bytes() =~= seq![
        0x41u8,
        0x64u8,
        0x64u8,
        0x69u8,
        0x74u8,
        0x69u8,
        0x6fu8,
        0x6eu8,
        0x52u8,
        0x65u8,
        0x66u8,
        0x2du8,
    ]);
    assert(":".spec_bytes() =~= seq![0x3au8]);
}

/// The word that begins a reference of the one kind or the other.
pub open spec fn kind_word(addition: bool) -> Seq<u8> {
    if addition {
        "AdditionRef-".spec_bytes()
    } else {
        "LicenseRef-".spec_bytes()
    }
}

/// The bytes of a reference: `DocumentRef-<d>:<kind><r>`, or `<kind><r>`
/// without a document.
pub open spec fn ref_bytes(doc: Option<Seq<u8>>, addition: bool, name: Seq<u8>) -> Seq<u8> {
    match doc {
        Some(d) => "DocumentRef-".spec_bytes() + d + ":".spec_bytes() + kind_word(addition) + name,
        None => kind_word(addition) + name,
    }
}

/// Where the reference of kind `kind` stands in a term that is a reference
/// without a document.
pub proof fn lemma_plain_reference(
    t: Seq<u8>,
    start: int,
    addition: bool,
    name: Seq<u8>,
    other: bool,
)
    requires
        holds_at(t, start, ref_bytes(None, addition, name)),
        ends_term(t, start + ref_bytes(None, addition, name).len()),
        is_ref_run(name),
    ensures
        reference_at(
            t,
            start,
            start + ref_bytes(None, addition, name).len(),
            kind_word(other),
        ) == (if other == addition {
            Some(
                RefParts {
                    doc: None,
                    name: (
                        start + kind_word(addition).len(),
                        start + ref_bytes(None, addition, name).len(),
                    ),
                },
            )
        } else {
            None
        }),
        t.subrange(
            start + kind_word(addition).len(),
            start + ref_bytes(None, addition, name).len(),
        ) == name,
{
    lemma_reference_words();
    let piece = ref_bytes(None, addition, name);
    let end = start + piece.len();
    let word = kind_word(addition);
    lemma_holds_at(t, start, piece);
    lemma_holds_both(t, start, word, name);
    lemma_holds_at(t, start, word);
    lemma_holds_at(t, start + word.len(), name);
    let term = t.subrange(start, end);
    assert(term =~= piece);
    assert(term[0] == word[0]);
    assert(!has_prefix(term, "DocumentRef-".spec_bytes())) by {
        if has_prefix(term, "DocumentRef-".spec_bytes()) {
            assert(term.subrange(0, 12)[0] == term[0]);
        }
    }
    if other == addition {
        assert(term.subrange(0, word.len() as int) =~= word);
        let from = start + word.len();
        assert forall|j: int| from <= j < end implies is_ref_byte(#[trigger] t[j]) by {
            assert(t[from + (j - from)] == name[j - from]);
        }
        lemma_ref_found(t, from, end);
    } else {
        assert(!has_prefix(term, kind_word(other))) by {
            if has_prefix(term, kind_word(other)) {
                assert(term.subrange(0, kind_word(other).len() as int)[0] == term[0]);
            }
        }
    }
}

/// Where the reference of kind `kind` stands in a term that is a reference
/// with a document.
pub proof fn lemma_document_reference(
    t: Seq<u8>,
    start: int,
    doc: Seq<u8>,
    addition: bool,
    name: Seq<u8>,
    other: bool,
)
    requires
        holds_at(t, start, ref_bytes(Some(doc), addition, name)),
        ends_term(t, start + ref_bytes(Some(doc), addition, name).len()),
        is_ref_run(doc),
        is_ref_run(name),
    ensures
        reference_at(
            t,
            start,
            start + ref_bytes(Some(doc), addition, name).len(),
            kind_word(other),
        ) == (if other == addition {
            Some(
                RefParts {
                    doc: Some((start + 12, start + 12 + doc.len())),
                    name: (
                        start + 13 + doc.len() + kind_word(addition).len(),
                        start + ref_bytes(Some(doc), addition, name).len(),
                    ),
                },
            )
        } else {
            None
        }),
        t.subrange(start + 12, start + 12 + doc.len()) == doc,
        t.subrange(
            start + 13 + doc.len() + kind_word(addition).len(),
            start + ref_bytes(Some(doc), addition, name).len(),
        ) == name,
{
    lemma_reference_words();
    let piece = ref_bytes(Some(doc), addition, name);
    let end = start + piece.len();
    let word = kind_word(addition);
    let head = "DocumentRef-".spec_bytes();
    let colon = ":".spec_bytes();
    lemma_holds_at(t, start, piece);
    lemma_holds_both(t, start, head + doc + colon + word, name);
    lemma_holds_both(t, start, head + doc + colon, word);
    lemma_holds_both(t, start, head + doc, colon);
    lemma_holds_both(t, start, head, doc);
    lemma_holds_at(t, start, head);
    lemma_holds_at(t, start + 12, doc);
    lemma_holds_at(t, start + 12 + doc.len(), colon);
    lemma_holds_at(t, start + 13 + doc.len(), word);
    lemma_holds_at(t, start + 13 + doc.len() + word.len(), name);
    let term = t.subrange(start, end);
    assert(term.subrange(0, 12) =~= head);
    let doc_start = start + 12;
    let doc_end = doc_start + doc.len();
    assert forall|j: int| doc_start <= j < doc_end implies is_ref_byte(#[trigger] t[j]) by {
        assert(t[doc_start + (j - doc_start)] == doc[j - doc_start]);
    }
    assert(t[doc_end + 0] == colon[0]);
    lemma_ref_found(t, doc_start, doc_end);
    let rest = t.subrange(doc_end + 1, end);
    assert(t[doc_end + 1 + 0] == word[0]);
    assert(rest[0] == word[0]);
    assert(term[0] == head[0]) by {
        assert(t[start + 0] == head[0]);
    }
    if other == addition {
        assert(rest.subrange(0, word.len() as int) =~= word) by {
            assert forall|j: int| 0 <= j < word.len() implies rest.subrange(
                0,
                word.len() as int,
            )[j] == word[j] by {
                assert(t[doc_end + 1 + j] == word[j]);
            }
        }
        let from = doc_end + 1 + word.len();
        assert forall|j: int| from <= j < end implies is_ref_byte(#[trigger] t[j]) by {
            assert(t[from + (j - from)] == name[j - from]);
        }
        lemma_ref_found(t, from, end);
    } else {
        assert(!has_prefix(rest, kind_word(other))) by {
            if has_prefix(rest, kind_word(other)) {
                assert(rest.subrange(0, kind_word(other).len() as int)[0] == rest[0]);
            }
        }
        assert(!has_prefix(term, kind_word(other))) by {
            if has_prefix(term, kind_word(other)) {
                assert(term.subrange(0, kind_word(other).len() as int)[0] == term[0]);
            }
        }
    }
}

/// The encoding of an optional text.
pub open spec fn encoded(doc: Option<Seq<char>>) -> Option<Seq<u8>> {
    match doc {
        Some(d) => Some(encode_utf8(d)),
        None => None,
    }
}

/// A reference whose names are made of reference bytes.
pub open spec fn readable_ref(doc: Option<Seq<char>>, name: Seq<char>) -> bool {
    is_ref_run(encode_utf8(name)) && (doc matches Some(d) ==> is_ref_run(encode_utf8(d)))
}

/// The token of a reference of the one kind or the other.
pub open spec fn ref_token(doc: Option<Seq<char>>, addition: bool, name: Seq<char>) -> TokenView {
    if addition {
        TokenView::AdditionRef { doc_ref: doc, add_ref: name }
    } else {
        TokenView::LicenseRef { doc_ref: doc, lic_ref: name }
    }
}

/// What a reference is written as, in bytes.
pub proof fn lemma_ref_piece(doc: Option<Seq<char>>, addition: bool, name: Seq<char>)
    ensures
        piece_of(ref_token(doc, addition, name)) == ref_bytes(
            encoded(doc),
            addition,
            encode_utf8(name),
        ),
{
    lemma_reference_words();
    let kind = if addition {
        "AdditionRef-"@
    } else {
        "LicenseRef-"@
    };
    match doc {
        Some(d) => {
            lemma_encode_concat("DocumentRef-"@ + d + ":"@ + kind, name);
            lemma_encode_concat("DocumentRef-"@ + d + ":"@, kind);
            lemma_encode_concat("DocumentRef-"@ + d, ":"@);
            lemma_encode_concat("DocumentRef-"@, d);
        },
        None => {
            lemma_encode_concat(kind, name);
        },
    }
}

/// The bytes of a reference make one term that is longer than any
/// operator, and that begins with the word of a reference.
pub proof fn lemma_ref_bytes(doc: Option<Seq<u8>>, addition: bool, name: Seq<u8>)
    requires
        is_ref_run(name),
        doc matches Some(d) ==> is_ref_run(d),
    ensures
        ref_bytes(doc, addition, name).len() >= 11,
        forall|j: int|
            0 <= j < ref_bytes(doc, addition, name).len() ==> is_term_byte(
                #[trigger] ref_bytes(doc, addition, name)[j],
            ),
        has_prefix(
            ref_bytes(doc, addition, name),
            if doc is Some {
                "DocumentRef-".spec_bytes()
            } else {
                kind_word(addition)
            },
        ),
        !is_operator_word(ref_bytes(doc, addition, name)),
{
    lemma_reference_words();
    lemma_operator_pieces();
    let piece = ref_bytes(doc, addition, name);
    let word = kind_word(addition);
    match doc {
        Some(d) => {
            let head = "DocumentRef-".spec_bytes();
            assert(piece.subrange(0, 12) =~= head);
            assert forall|j: int| 0 <= j < piece.len() implies is_term_byte(
                #[trigger] piece[j],
            ) by {
                if j < 12 {
                    assert(piece[j] == head[j]);
                } else if j < 12 + d.len() {
                    assert(piece[j] == d[j - 12]);
                } else if j < 13 + d.len() {
                } else if j < 13 + d.len() + word.len() {
                    assert(piece[j] == word[j - 13 - d.len()]);
                } else {
                    assert(piece[j] == name[j - 13 - d.len() - word.len()]);
                }
            }
        },
        None => {
            assert(piece.subrange(0, word.len() as int) =~= word);
            assert forall|j: int| 0 <= j < piece.len() implies is_term_byte(
                #[trigger] piece[j],
            ) by {
                if j < word.len() {
                    assert(piece[j] == word[j]);
                } else {
                    assert(piece[j] == name[j - word.len()]);
                }
            }
        },
    }
}

/// A reference is neither a license nor an exception of the list.
pub proof fn lemma_ref_is_no_name(doc: Option<Seq<u8>>, addition: bool, name: Seq<u8>)
    requires
        is_ref_run(name),
        doc matches Some(d) ==> is_ref_run(d),
    ensures
        license_lookup(ref_bytes(doc, addition, name)) is None,
        exception_lookup(ref_bytes(doc, addition, name)) is None,
{
    lemma_ref_bytes(doc, addition, name);
    let piece = ref_bytes(doc, addition, name);
    if doc is Some {
        let gap = lemma_document_ref_is_no_license(piece);
        lemma_no_license_in_gap(piece, gap);
        let gap = lemma_document_ref_is_no_exception(piece);
        lemma_no_exception_in_gap(piece, gap);
    } else if addition {
        let gap = lemma_addition_ref_is_no_license(piece);
        lemma_no_license_in_gap(piece, gap);
        let gap = lemma_addition_ref_is_no_exception(piece);
        lemma_no_exception_in_gap(piece, gap);
    } else {
        let gap = lemma_license_ref_is_no_license(piece);
        lemma_no_license_in_gap(piece, gap);
        let gap = lemma_license_ref_is_no_exception(piece);
        lemma_no_exception_in_gap(piece, gap);
    }
}

/// A reference that stands in the text as a whole term is lexed as that
/// reference.
pub proof fn lemma_lexes_reference(
    t: Seq<u8>,
    pos: int,
    start: int,
    doc: Option<Seq<char>>,
    addition: bool,
    name: Seq<char>,
)
    requires
        spaces_between(t, pos, start),
        readable_ref(doc, name),
        holds_at(t, start, piece_of(ref_token(doc, addition, name))),
        ends_term(t, start + piece_of(ref_token(doc, addition, name)).len()),
    ensures
        lex_step(t, lax_mode(), pos) == (LexStep::Token {
            token: ref_token(doc, addition, name),
            start,
            end: start + piece_of(ref_token(doc, addition, name)).len(),
        }),
{
    let token = ref_token(doc, addition, name);
    let piece = piece_of(token);
    let end = start + piece.len();
    let d = encoded(doc);
    let n = encode_utf8(name);
    lemma_ref_piece(doc, addition, name);
    lemma_ref_bytes(d, addition, n);
    lemma_ref_is_no_name(d, addition, n);
    lemma_holds_at(t, start, piece);
    assert forall|j: int| start <= j < end implies is_term_byte(#[trigger] t[j]) by {
        assert(t[start + (j - start)] == piece[j - start]);
    }
    lemma_lexes_term(t, pos, start, end);
    assert(t.subrange(start, end) == piece);
    encode_utf8_decode_utf8(name);
    match doc {
        Some(dc) => {
            encode_utf8_decode_utf8(dc);
            lemma_document_reference(t, start, encode_utf8(dc), addition, n, false);
            lemma_document_reference(t, start, encode_utf8(dc), addition, n, true);
        },
        None => {
            lemma_plain_reference(t, start, addition, n, false);
            lemma_plain_reference(t, start, addition, n, true);
        },
    }
    lemma_reference_words();
}

/// A token that is written as a term: a license, an exception or a
/// reference.
pub open spec fn is_word(token: TokenView) -> bool {
    token is Spdx || token is Exception || token is LicenseRef || token is AdditionRef
}

/// A token that can be read back from what it is written as.
pub open spec fn readable(token: TokenView) -> bool {
    match token {
        TokenView::Spdx(k) => readable_license(k),
        TokenView::Exception(e) => readable_exception(e),
        TokenView::LicenseRef { doc_ref, lic_ref } => readable_ref(doc_ref, lic_ref),
        TokenView::AdditionRef { doc_ref, add_ref } => readable_ref(doc_ref, add_ref),
        TokenView::Unknown(_) => false,
        _ => true,
    }
}

/// Whether `token` can stand directly behind `before` in canonical text:
/// two terms in a row would run into one; a `+` must follow a license
/// that is no GNU license, or it would be written as `-or-later`.
pub open spec fn may_follow(before: TokenView, token: TokenView) -> bool {
    &&& !(is_word(before) && is_word(token))
    &&& token is Plus ==> (before matches TokenView::Spdx(k) && !license_has(k, IS_GNU))
}

/// The token at `i` may follow the one before it in canonical text.
pub open spec fn follows_at(tokens: Seq<TokenView>, i: int) -> bool {
    may_follow(tokens[i - 1], tokens[i])
}

/// The tokens are written as they are in canonical text, and can stand
/// next to each other: each can be read back, and each may follow the one
/// before it.
pub open spec fn well_written(tokens: Seq<TokenView>) -> bool {
    &&& forall|i: int| 0 <= i < tokens.len() ==> readable(#[trigger] tokens[i])
    &&& forall|i: int| 0 < i < tokens.len() ==> #[trigger] follows_at(tokens, i)
    &&& tokens.len() > 0 ==> !(tokens[0] is Plus)
}

/// What the tokens from position `i` on are written as, one after the
/// other.
pub open spec fn written_from(tokens: Seq<TokenView>, i: int) -> Seq<char>
    decreases tokens.len() - i,
{
    if i < 0 || i >= tokens.len() {
        Seq::empty()
    } else {
        token_text(tokens[i]) + written_from(tokens, i + 1)
    }
}

/// What a token that is no term is written as does not begin like a term.
pub proof fn lemma_no_word_begins(token: TokenView)
    requires
        !is_word(token),
        readable(token),
    ensures
        piece_of(token).len() > 0,
        !is_term_byte(piece_of(token)[0]),
{
    lemma_operator_pieces();
}

/// The text after a token holds what the next tokens are written as.
proof fn lemma_written_step(t: Seq<u8>, tokens: Seq<TokenView>, i: int, at: int)
    requires
        0 <= i < tokens.len(),
        0 <= at <= t.len(),
        t.subrange(at, t.len() as int) == encode_utf8(written_from(tokens, i)),
    ensures
        holds_at(t, at, piece_of(tokens[i])),
        t.subrange(at + piece_of(tokens[i]).len(), t.len() as int) == encode_utf8(
            written_from(tokens, i + 1),
        ),
        i + 1 < tokens.len() ==> holds_at(
            t,
            at + piece_of(tokens[i]).len(),
            piece_of(tokens[i + 1]),
        ),
{
    let piece = piece_of(tokens[i]);
    let rest = encode_utf8(written_from(tokens, i + 1));
    lemma_encode_concat(token_text(tokens[i]), written_from(tokens, i + 1));
    let tail = t.subrange(at, t.len() as int);
    assert(tail == piece + rest);
    assert(tail.len() == t.len() - at);
    assert(t.subrange(at, at + piece.len()) =~= piece) by {
        assert forall|j: int| 0 <= j < piece.len() implies t.subrange(at, at + piece.len())[j]
            == piece[j] by {
            assert(tail[j] == t[at + j]);
            assert((piece + rest)[j] == piece[j]);
        }
    }
    assert(t.subrange(at + piece.len(), t.len() as int) =~= rest) by {
        assert forall|j: int| 0 <= j < rest.len() implies t.subrange(
            at + piece.len(),
            t.len() as int,
        )[j] == rest[j] by {
            assert(tail[piece.len() + j] == t[at + piece.len() + j]);
            assert((piece + rest)[piece.len() + j] == rest[j]);
        }
    }
    if i + 1 < tokens.len() {
        let next = piece_of(tokens[i + 1]);
        let after = encode_utf8(written_from(tokens, i + 2));
        lemma_encode_concat(token_text(tokens[i + 1]), written_from(tokens, i + 2));
        assert(rest == next + after);
        let from = at + piece.len();
        assert(t.subrange(from, from + next.len()) =~= next) by {
            assert forall|j: int| 0 <= j < next.len() implies t.subrange(
                from,
                from + next.len(),
            )[j] == next[j] by {
                assert(t.subrange(from, t.len() as int)[j] == t[from + j]);
                assert((next + after)[j] == next[j]);
            }
        }
    }
}

/// Behind a term of well-written tokens no term goes on.
proof fn lemma_word_ends(t: Seq<u8>, tokens: Seq<TokenView>, i: int, at: int)
    requires
        well_written(tokens),
        0 <= i < tokens.len(),
        is_word(tokens[i]),
        0 <= at <= t.len(),
        t.subrange(at, t.len() as int) == encode_utf8(written_from(tokens, i)),
    ensures
        ends_term(t, at + piece_of(tokens[i]).len()),
{
    lemma_written_step(t, tokens, i, at);
    let end = at + piece_of(tokens[i]).len();
    if i + 1 < tokens.len() {
        let next = tokens[i + 1];
        assert(follows_at(tokens, i + 1));
        assert(readable(next));
        lemma_no_word_begins(next);
        lemma_holds_at(t, end, piece_of(next));
        assert(t[end + 0] == piece_of(next)[0]);
    } else {
        assert(written_from(tokens, i + 1) =~= Seq::<char>::empty());
        assert(encode_utf8(written_from(tokens, i + 1)).len() == 0);
        assert(t.subrange(end, t.len() as int).len() == t.len() - end);
    }
}

/// What lexing makes of the next of well-written tokens in their text.
proof fn lemma_lexes_written(t: Seq<u8>, tokens: Seq<TokenView>, i: int, pos: int, at: int) -> (end:
    int)
    requires
        well_written(tokens),
        0 <= i < tokens.len(),
        spaces_between(t, pos, at),
        t.subrange(at, t.len() as int) == encode_utf8(written_from(tokens, i)),
        tokens[i] is Plus ==> pos == at,
    ensures
        (lex_step(t, lax_mode(), pos) matches LexStep::Token { token, end: e, .. } && token
            == tokens[i] && e == end),
        spaces_between(t, end, at + piece_of(tokens[i]).len()),
        is_word(tokens[i]) || tokens[i] is Plus ==> end == at + piece_of(tokens[i]).len(),
{
    lemma_written_step(t, tokens, i, at);
    let token = tokens[i];
    let piece = piece_of(token);
    assert(readable(token));
    match token {
        TokenView::Spdx(k) => {
            lemma_word_ends(t, tokens, i, at);
            lemma_lexes_license(t, pos, at, k);
            at + piece.len()
        },
        TokenView::Exception(e) => {
            lemma_word_ends(t, tokens, i, at);
            lemma_lexes_exception(t, pos, at, e);
            at + piece.len()
        },
        TokenView::LicenseRef { doc_ref, lic_ref } => {
            lemma_word_ends(t, tokens, i, at);
            lemma_lexes_reference(t, pos, at, doc_ref, false, lic_ref);
            at + piece.len()
        },
        TokenView::AdditionRef { doc_ref, add_ref } => {
            lemma_word_ends(t, tokens, i, at);
            lemma_lexes_reference(t, pos, at, doc_ref, true, add_ref);
            at + piece.len()
        },
        TokenView::Plus => {
            lemma_lexes_plus(t, at);
            at + 1
        },
        TokenView::OpenParen | TokenView::CloseParen => {
            lemma_lexes_paren(t, pos, at, token);
            at + 1
        },
        TokenView::Unknown(_) => {
            at
        },
        _ => {
            lemma_lexes_operator(t, pos, at, token);
            at + piece.len() - 1
        },
    }
}

/// From any of well-written tokens on, the canonical text of their text is
/// what they are written as.
proof fn lemma_stable_from(t: Seq<u8>, tokens: Seq<TokenView>, i: int, pos: int, at: int)
    requires
        well_written(tokens),
        0 <= i <= tokens.len(),
        spaces_between(t, pos, at),
        t.subrange(at, t.len() as int) == encode_utf8(written_from(tokens, i)),
        i < tokens.len() && tokens[i] is Plus ==> pos == at,
    ensures
        canonical_from(t, pos, i > 0 && is_gnu_token(tokens[i - 1])) == CanonicalOutcome::Text(
            written_from(tokens, i),
        ),
    decreases tokens.len() - i,
{
    let gnu = i > 0 && is_gnu_token(tokens[i - 1]);
    crate::expression::canonical::lemma_canonical_unfold(t, pos, gnu);
    if i == tokens.len() {
        assert(written_from(tokens, i) =~= Seq::<char>::empty());
        assert(t.subrange(at, t.len() as int).len() == t.len() - at);
        assert(at == t.len());
        lemma_spaces_passed(t, pos, at);
    } else {
        let token = tokens[i];
        let end = lemma_lexes_written(t, tokens, i, pos, at);
        lemma_written_step(t, tokens, i, at);
        let next_at = at + piece_of(token).len();
        if i + 1 < tokens.len() && tokens[i + 1] is Plus {
            assert(follows_at(tokens, i + 1));
        }
        lemma_stable_from(t, tokens, i + 1, end, next_at);
        let adds = token_adds(token, gnu);
        if token is Plus {
            assert(follows_at(tokens, i));
            assert(!gnu);
        }
        assert(adds == token_text(token));
        assert(canonical_from(t, pos, gnu) == prepend(
            adds,
            canonical_from(t, end, is_gnu_token(token)),
        ));
    }
}

/// What well-written tokens are written as is canonical text: its
/// canonical text is the text itself.
pub proof fn lemma_written_is_canonical(tokens: Seq<TokenView>)
    requires
        well_written(tokens),
    ensures
        canonical_text(encode_utf8(written_from(tokens, 0))) == CanonicalOutcome::Text(
            written_from(tokens, 0),
        ),
{
    let t = encode_utf8(written_from(tokens, 0));
    assert(t.subrange(0, t.len() as int) =~= t);
    lemma_stable_from(t, tokens, 0, 0, 0);
}

/// A term is made of term bytes.
pub proof fn lemma_term_run(t: Seq<u8>, from: int)
    requires
        0 <= from <= t.len(),
    ensures
        forall|j: int| from <= j < term_end(t, from) ==> is_term_byte(#[trigger] t[j]),
    decreases t.len() - from,
{
    if from < t.len() && is_term_byte(t[from]) {
        lemma_term_run(t, from + 1);
    }
}

/// ASCII text is its own encoding: decoded and encoded again it is the
/// same bytes.
pub proof fn lemma_ascii_round_trip(bytes: Seq<u8>)
    requires
        forall|i: int| 0 <= i < bytes.len() ==> #[trigger] bytes[i] < 0x80,
    ensures
        valid_utf8(bytes),
        encode_utf8(decode_utf8(bytes)) == bytes,
    decreases bytes.len(),
{
    if bytes.len() > 0 {
        let rest = pop_first_scalar(bytes);
        assert(bytes[0] < 0x80);
        assert(rest =~= bytes.subrange(1, bytes.len() as int));
        assert forall|i: int| 0 <= i < rest.len() implies #[trigger] rest[i] < 0x80 by {
            assert(rest[i] == bytes[i + 1]);
        }
        lemma_ascii_round_trip(rest);
    }
    decode_utf8_encode_utf8(bytes);
}

/// The names of a reference that was lexed are made of reference bytes.
pub proof fn lemma_lexed_reference(t: Seq<u8>, start: int, end: int, kind: Seq<u8>)
    requires
        0 <= start <= end <= t.len(),
        ends_term(t, end),
        kind.len() > 0,
    ensures
        reference_at(t, start, end, kind) matches Some(parts) ==> readable_ref(
            doc_text(t, parts),
            text_between(t, parts.name.0, parts.name.1),
        ),
{
    match reference_at(t, start, end, kind) {
        Some(parts) => {
            let (a, b) = parts.name;
            crate::lexer::lemma_reference_bounds(t, start, end, kind);
            let doc_start = start + "DocumentRef-".spec_bytes().len();
            if parts.doc is Some {
                let doc_end = ref_end(t, doc_start);
                crate::lexer::lemma_ref_end_in_term(t, doc_start, end);
                crate::lexer::lemma_ref_end_in_term(t, doc_end + 1 + kind.len(), end);
                let d = t.subrange(doc_start, doc_end);
                assert forall|i: int| 0 <= i < d.len() implies is_ref_byte(#[trigger] d[i]) by {
                    assert(d[i] == t[doc_start + i]);
                }
                assert forall|i: int| 0 <= i < d.len() implies #[trigger] d[i] < 0x80 by {
                    assert(is_ref_byte(d[i]));
                }
                lemma_ascii_round_trip(d);
            } else {
                crate::lexer::lemma_ref_end_in_term(t, start + kind.len(), end);
            }
            let n = t.subrange(a, b);
            assert forall|i: int| 0 <= i < n.len() implies is_ref_byte(#[trigger] n[i]) by {
                assert(n[i] == t[a + i]);
            }
            assert forall|i: int| 0 <= i < n.len() implies #[trigger] n[i] < 0x80 by {
                assert(is_ref_byte(n[i]));
            }
            lemma_ascii_round_trip(n);
        },
        None => {},
    }
}

/// A token that the lax mode lexes can be read back from what it is
/// written as.
pub proof fn lemma_lexed_is_readable(t: Seq<u8>, pos: int)
    requires
        0 <= pos <= t.len(),
    ensures
        lex_step(t, lax_mode(), pos) matches LexStep::Token { token, .. } ==> readable(token),
{
    crate::lexer::lemma_whitespace_bounds(t, pos);
    let start = after_whitespace(t, pos);
    if start < t.len() {
        crate::lexer::lemma_term_end(t, start);
        lemma_term_run(t, start);
        let end = term_end(t, start);
        if end > start {
            let term = t.subrange(start, end);
            assert forall|i: int| 0 <= i < term.len() implies is_term_byte(#[trigger] term[i]) by {
                assert(term[i] == t[start + i]);
            }
            lemma_license_lookup(term, 0);
            lemma_exception_lookup(term, 0);
            lemma_reference_words();
            lemma_lexed_reference(t, start, end, "LicenseRef-".spec_bytes());
            lemma_lexed_reference(t, start, end, "AdditionRef-".spec_bytes());
            let rest = t.subrange(start, t.len() as int);
            crate::registry::lemma_imprecise_best(rest, crate::identifiers::IMPRECISE_COUNT);
            match crate::registry::imprecise_best(rest, crate::identifiers::IMPRECISE_COUNT) {
                Some(b) => {
                    crate::identifiers::lemma_target_is_term(b);
                    lemma_license_lookup(crate::identifiers::imprecise_target(b).spec_bytes(), 0);
                },
                None => {},
            }
        }
    }
}

/// The tokens of a sequence of lexed tokens.
pub open spec fn tokens_of(lexed: Seq<Lexed>) -> Seq<TokenView> {
    lexed.map_values(|l: Lexed| l.token)
}

/// The tokens that the lax mode lexes can be read back from what they are
/// written as.
pub proof fn lemma_all_readable(t: Seq<u8>, pos: int, lexed: Seq<Lexed>)
    requires
        lexes_all(t, lax_mode(), pos, lexed),
    ensures
        forall|i: int| 0 <= i < lexed.len() ==> readable(#[trigger] tokens_of(lexed)[i]),
    decreases lexed.len(),
{
    reveal(lexes);
    reveal(ends);
    if lexed.len() > 0 {
        lemma_lexed_is_readable(t, pos);
        lemma_all_readable(t, lexed[0].end, lexed.drop_first());
        assert forall|i: int| 0 <= i < lexed.len() implies readable(
            #[trigger] tokens_of(lexed)[i],
        ) by {
            if i > 0 {
                assert(tokens_of(lexed.drop_first())[i - 1] == tokens_of(lexed)[i]);
            }
        }
    }
}

/// The canonical text from a position where a token is lexed: what the
/// token adds, then the canonical text from the end of the token.
pub proof fn lemma_canonical_step(t: Seq<u8>, pos: int, gnu: bool, lexed: Lexed)
    requires
        lexes(t, lax_mode(), pos, lexed),
    ensures
        canonical_from(t, pos, gnu) == prepend(
            token_adds(lexed.token, gnu),
            canonical_from(t, lexed.end, is_gnu_token(lexed.token)),
        ),
{
    reveal(lexes);
    crate::expression::canonical::lemma_canonical_unfold(t, pos, gnu);
}

/// The canonical text from a position where no token is left: nothing.
pub proof fn lemma_canonical_end(t: Seq<u8>, pos: int, gnu: bool)
    requires
        ends(t, lax_mode(), pos),
    ensures
        canonical_from(t, pos, gnu) == CanonicalOutcome::Text(Seq::empty()),
{
    reveal(ends);
    crate::expression::canonical::lemma_canonical_unfold(t, pos, gnu);
}

/// Whether `token` may stand directly behind `before` in an expression, as
/// far as it matters here: a term follows neither a term nor a `+`, and a
/// `+` follows a license of the list.
pub open spec fn grammar_allows(before: TokenView, token: TokenView) -> bool {
    &&& is_word(token) ==> !is_word(before) && !(before is Plus)
    &&& token is Plus ==> before is Spdx
}

/// Each token may stand behind the one before it, and the first is no `+`.
pub open spec fn follow_grammar(tokens: Seq<TokenView>) -> bool {
    &&& forall|i: int| 0 < i < tokens.len() ==> #[trigger] allowed_at(tokens, i)
    &&& tokens.len() > 0 ==> !(tokens[0] is Plus)
}

/// The token at `i` may stand behind the one before it in an expression.
pub open spec fn allowed_at(tokens: Seq<TokenView>, i: int) -> bool {
    grammar_allows(tokens[i - 1], tokens[i])
}

/// The license whose identifier is that of the license at `k` with
/// `-or-later` behind it.
pub open spec fn later_form(k: usize) -> Option<usize> {
    license_lookup(license_bytes(k) + "-or-later".spec_bytes())
}

/// Whether the token at `i` is a GNU license with a `+` directly behind it.
pub open spec fn gnu_with_plus(tokens: Seq<TokenView>, i: int) -> bool {
    0 <= i && i + 1 < tokens.len() && is_gnu_token(tokens[i]) && tokens[i + 1] is Plus
}

/// Of each GNU license with a `+` behind it the list has the `-or-later`
/// form.
pub open spec fn later_forms_exist(tokens: Seq<TokenView>) -> bool {
    forall|i: int| #[trigger] gnu_with_plus(tokens, i) ==> later_form(tokens[i]->Spdx_0) is Some
}

/// What the tokens from position `i` on are written as in canonical text:
/// a GNU license with a `+` behind it as its `-or-later` form, anything
/// else as it is.
pub open spec fn rewritten_from(tokens: Seq<TokenView>, i: int) -> Seq<TokenView>
    decreases tokens.len() - i,
{
    if i < 0 || i >= tokens.len() {
        Seq::empty()
    } else if gnu_with_plus(tokens, i) {
        seq![TokenView::Spdx(later_form(tokens[i]->Spdx_0)->0)] + rewritten_from(tokens, i + 2)
    } else {
        seq![tokens[i]] + rewritten_from(tokens, i + 1)
    }
}

/// What tokens are written as, one after the other.
pub open spec fn written(tokens: Seq<TokenView>) -> Seq<char> {
    written_from(tokens, 0)
}

/// What is written for a token and more tokens behind it.
pub proof fn lemma_written_cons(token: TokenView, rest: Seq<TokenView>)
    ensures
        written(seq![token] + rest) == token_text(token) + written(rest),
{
    let all = seq![token] + rest;
    assert(all.skip(1) =~= rest.skip(0));
    lemma_written_shift(all, rest, 1, 0);
    assert(all[0] == token);
}

/// What is written from a position on depends on the tokens from there on
/// alone.
proof fn lemma_written_shift(a: Seq<TokenView>, b: Seq<TokenView>, i: int, j: int)
    requires
        0 <= i <= a.len(),
        0 <= j <= b.len(),
        a.skip(i) == b.skip(j),
    ensures
        written_from(a, i) == written_from(b, j),
    decreases a.len() - i,
{
    assert(a.skip(i).len() == a.len() - i);
    assert(b.skip(j).len() == b.len() - j);
    if i < a.len() {
        assert(a.skip(i)[0] == a[i]);
        assert(b.skip(j)[0] == b[j]);
        assert(a.skip(i + 1) =~= a.skip(i).drop_first());
        assert(b.skip(j + 1) =~= b.skip(j).drop_first());
        lemma_written_shift(a, b, i + 1, j + 1);
    }
}

/// The suffix `-or-later`, in bytes.
pub proof fn lemma_later_suffix()
    ensures
        "-or-later".spec_bytes() == seq![
            0x2du8,
            0x6fu8,
            0x72u8,
            0x2du8,
            0x6cu8,
            0x61u8,
            0x74u8,
            0x65u8,
            0x72u8,
        ],
        encode_utf8("-or-later"@) == "-or-later".spec_bytes(),
{
    reveal_strlit("-or-later");
    is_ascii_chars_encode_utf8("-or-later"@);
    assert("-or-later".spec_bytes() =~= seq![
        0x2du8,
        0x6fu8,
        0x72u8,
        0x2du8,
        0x6cu8,
        0x61u8,
        0x74u8,
        0x65u8,
        0x72u8,
    ]);
}

/// The `-or-later` form of a license: it is written as the license and
/// `-or-later`, and can be read back.
pub proof fn lemma_suffixed_form(k: usize, form: usize)
    requires
        readable_license(k),
        later_form(k) == Some(form),
    ensures
        readable_license(form),
        token_text(TokenView::Spdx(form)) == token_text(TokenView::Spdx(k)) + "-or-later"@,
{
    lemma_later_suffix();
    lemma_operator_pieces();
    let suffix = "-or-later".spec_bytes();
    let name = license_bytes(k);
    let whole = name + suffix;
    lemma_license_lookup(whole, 0);
    assert(license_bytes(form) == whole);
    assert forall|i: int| 0 <= i < whole.len() implies is_term_byte(#[trigger] whole[i]) by {
        if i < name.len() {
            assert(whole[i] == name[i]);
        } else {
            assert(whole[i] == suffix[i - name.len()]);
        }
    }
    lemma_encode_concat(crate::identifiers::license_name(k)@, "-or-later"@);
    crate::text::lemma_same_text(
        crate::identifiers::license_name(form)@,
        crate::identifiers::license_name(k)@ + "-or-later"@,
    );
}

/// The tokens can be read back, and each may follow the one before it.
pub open spec fn chain_ok(tokens: Seq<TokenView>) -> bool {
    &&& forall|i: int| 0 <= i < tokens.len() ==> readable(#[trigger] tokens[i])
    &&& forall|i: int| 0 < i < tokens.len() ==> #[trigger] follows_at(tokens, i)
}

/// A chain of tokens with one more token before it.
proof fn lemma_chain_cons(token: TokenView, rest: Seq<TokenView>)
    requires
        chain_ok(rest),
        readable(token),
        rest.len() > 0 ==> may_follow(token, rest[0]),
    ensures
        chain_ok(seq![token] + rest),
{
    let all = seq![token] + rest;
    assert forall|i: int| 0 <= i < all.len() implies readable(#[trigger] all[i]) by {
        if i > 0 {
            assert(all[i] == rest[i - 1]);
        }
    }
    assert forall|i: int| 0 < i < all.len() implies #[trigger] follows_at(all, i) by {
        assert(all[i] == rest[i - 1]);
        if i > 1 {
            assert(all[i - 1] == rest[i - 2]);
            assert(follows_at(rest, i - 1));
        }
    }
}

/// What the tokens of an expression are rewritten to can be read back and
/// fits together.
proof fn lemma_rewritten_chain(tokens: Seq<TokenView>, i: int)
    requires
        follow_grammar(tokens),
        later_forms_exist(tokens),
        forall|j: int| 0 <= j < tokens.len() ==> readable(#[trigger] tokens[j]),
        0 <= i <= tokens.len(),
        !gnu_with_plus(tokens, i - 1),
    ensures
        chain_ok(rewritten_from(tokens, i)),
        rewritten_from(tokens, i).len() > 0 <==> i < tokens.len(),
        i < tokens.len() ==> (is_word(rewritten_from(tokens, i)[0]) <==> is_word(tokens[i])),
        i < tokens.len() ==> (rewritten_from(tokens, i)[0] is Plus <==> tokens[i] is Plus),
    decreases tokens.len() - i,
{
    if i < tokens.len() {
        let token = tokens[i];
        assert(readable(token));
        if gnu_with_plus(tokens, i) {
            let k = token->Spdx_0;
            let form = later_form(k)->0;
            lemma_suffixed_form(k, form);
            lemma_rewritten_chain(tokens, i + 2);
            let rest = rewritten_from(tokens, i + 2);
            if i + 2 < tokens.len() {
                assert(allowed_at(tokens, i + 2));
            }
            lemma_chain_cons(TokenView::Spdx(form), rest);
        } else {
            lemma_rewritten_chain(tokens, i + 1);
            let rest = rewritten_from(tokens, i + 1);
            if i + 1 < tokens.len() {
                assert(allowed_at(tokens, i + 1));
            }
            lemma_chain_cons(token, rest);
        }
    }
}

/// What the license or other token at `i` is written as in canonical
/// text, with what a `+` behind a GNU license makes of it.
pub open spec fn unit_text(tokens: Seq<TokenView>, i: int) -> Seq<char> {
    if gnu_with_plus(tokens, i) {
        token_text(tokens[i]) + "-or-later"@
    } else {
        token_text(tokens[i])
    }
}

/// The position of the token behind the one at `i`, and behind its `+`
/// where it is a GNU license with a `+`.
pub open spec fn unit_end(tokens: Seq<TokenView>, i: int) -> int {
    if gnu_with_plus(tokens, i) {
        i + 2
    } else {
        i + 1
    }
}

/// What the tokens from `i` on are rewritten to is written as what the
/// token at `i` is written as, then the rest.
proof fn lemma_unit(tokens: Seq<TokenView>, i: int)
    requires
        0 <= i < tokens.len(),
        later_forms_exist(tokens),
        readable(tokens[i]),
    ensures
        written(rewritten_from(tokens, i)) == unit_text(tokens, i) + written(
            rewritten_from(tokens, unit_end(tokens, i)),
        ),
{
    let token = tokens[i];
    if gnu_with_plus(tokens, i) {
        let k = token->Spdx_0;
        let form = later_form(k)->0;
        lemma_suffixed_form(k, form);
        lemma_written_cons(TokenView::Spdx(form), rewritten_from(tokens, i + 2));
    } else {
        lemma_written_cons(token, rewritten_from(tokens, i + 1));
    }
}

/// The canonical text of a text is what its tokens are rewritten to.
proof fn lemma_canonical_rewritten(t: Seq<u8>, lexed: Seq<Lexed>, i: int, pos: int, gnu: bool)
    requires
        0 <= i <= lexed.len(),
        lexes_all(t, lax_mode(), pos, lexed.skip(i)),
        follow_grammar(tokens_of(lexed)),
        later_forms_exist(tokens_of(lexed)),
        forall|j: int| 0 <= j < lexed.len() ==> readable(#[trigger] tokens_of(lexed)[j]),
        i > 0 ==> gnu == is_gnu_token(tokens_of(lexed)[i - 1]),
        i == 0 ==> !gnu,
        !gnu_with_plus(tokens_of(lexed), i - 1),
    ensures
        canonical_from(t, pos, gnu) == CanonicalOutcome::Text(
            written(rewritten_from(tokens_of(lexed), i)),
        ),
    decreases lexed.len() - i,
{
    let tokens = tokens_of(lexed);
    let rest = lexed.skip(i);
    if i == lexed.len() {
        assert(rest.len() == 0);
        lemma_canonical_end(t, pos, gnu);
        assert(written(rewritten_from(tokens, i)) =~= Seq::<char>::empty());
    } else {
        assert(rest[0] == lexed[i]);
        assert(rest.drop_first() =~= lexed.skip(i + 1));
        let token = tokens[i];
        assert(token == lexed[i].token);
        assert(readable(token));
        lemma_unit(tokens, i);
        lemma_canonical_step(t, pos, gnu, lexed[i]);
        let next = unit_end(tokens, i);
        let tail = written(rewritten_from(tokens, next));
        if gnu_with_plus(tokens, i) {
            let after = lexed.skip(i + 1);
            assert(lexes_all(t, lax_mode(), lexed[i].end, after));
            assert(after[0] == lexed[i + 1]);
            assert(after.drop_first() =~= lexed.skip(i + 2));
            assert(lexes(t, lax_mode(), lexed[i].end, lexed[i + 1]));
            assert(lexes_all(t, lax_mode(), lexed[i + 1].end, lexed.skip(i + 2)));
            assert(tokens[i + 1] == lexed[i + 1].token);
            lemma_canonical_step(t, lexed[i].end, true, lexed[i + 1]);
            lemma_canonical_rewritten(t, lexed, i + 2, lexed[i + 1].end, false);
            assert(token_text(token) + ("-or-later"@ + tail) =~= (token_text(token)
                + "-or-later"@) + tail);
        } else if token is Plus {
            assert(allowed_at(tokens, i));
            lemma_canonical_rewritten(t, lexed, i + 1, lexed[i].end, false);
        } else {
            lemma_canonical_rewritten(t, lexed, i + 1, lexed[i].end, is_gnu_token(token));
        }
    }
}

/// Canonical text stays canonical: canonicalizing the canonical text of a
/// text changes nothing, where the tokens of the text follow the grammar
/// of expressions and the list has the `-or-later` form of each GNU
/// license that a `+` follows.
///
/// The canonical text is what the tokens are rewritten to.
pub proof fn lemma_canonical_text_is_stable(text: Seq<u8>, lexed: Seq<Lexed>)
    requires
        lexes_all(text, lax_mode(), 0, lexed),
        follow_grammar(tokens_of(lexed)),
        later_forms_exist(tokens_of(lexed)),
    ensures
        canonical_text(text) == CanonicalOutcome::Text(
            written(rewritten_from(tokens_of(lexed), 0)),
        ),
        canonical_text(encode_utf8(written(rewritten_from(tokens_of(lexed), 0))))
            == canonical_text(text),
{
    let tokens = tokens_of(lexed);
    let units = rewritten_from(tokens, 0);
    assert(lexed.skip(0) =~= lexed);
    lemma_all_readable(text, 0, lexed);
    lemma_canonical_rewritten(text, lexed, 0, 0, false);
    lemma_rewritten_chain(tokens, 0);
    assert(well_written(units));
    lemma_written_is_canonical(units);
}

/// The tokens of the text from `pos` on, up to its end or to the first
/// error of the lexer.
pub open spec fn lexed_from(text: Seq<u8>, pos: int) -> Seq<Lexed>
    decreases text.len() - pos,
    when 0 <= pos <= text.len()
{
    match lex_step(text, lax_mode(), pos) {
        LexStep::Token { token, start, end } => {
            proof {
                crate::lexer::lemma_token_bounds(text, lax_mode(), pos);
            }
            seq![Lexed { token, start, end }] + lexed_from(text, end)
        },
        _ => Seq::empty(),
    }
}

/// What a parse has seen last after a token.
pub open spec fn last_of(token: TokenView) -> Last {
    match token {
        TokenView::Spdx(_) => Last::Spdx,
        TokenView::LicenseRef { .. } => Last::LicenseRef,
        TokenView::Exception(_) => Last::Exception,
        TokenView::AdditionRef { .. } => Last::AdditionRef,
        TokenView::Unknown(_) => Last::Start,
        TokenView::Plus => Last::Plus,
        TokenView::OpenParen => Last::OpenParen,
        TokenView::CloseParen => Last::CloseParen,
        TokenView::With => Last::With,
        TokenView::And => Last::And,
        TokenView::Or => Last::Or,
    }
}

/// A token that the parser takes may stand where it stands.
proof fn lemma_taken_is_allowed(
    st: ParserState,
    token: TokenView,
    start: usize,
    end: usize,
    before: Option<TokenView>,
)
    requires
        advance(st, lax_mode(), token, start, end) is Next,
        match before {
            Some(b) => st.last == last_of(b) && !(b is Unknown),
            None => st.last is Start,
        },
    ensures
        advance(st, lax_mode(), token, start, end)->Next_0.last == last_of(token),
        !(token is Unknown),
        match before {
            Some(b) => grammar_allows(b, token),
            None => !(token is Plus),
        },
{
}

/// Tokens that the parser takes follow the grammar.
proof fn lemma_taken_follow(tokens: Seq<Lexed>, st: ParserState, before: Option<TokenView>)
    requires
        run_tokens(tokens, lax_mode(), st) is Next,
        match before {
            Some(b) => st.last == last_of(b) && !(b is Unknown),
            None => st.last is Start,
        },
    ensures
        forall|i: int| 0 < i < tokens.len() ==> #[trigger] allowed_at(tokens_of(tokens), i),
        tokens.len() > 0 ==> (match before {
            Some(b) => grammar_allows(b, tokens[0].token),
            None => !(tokens[0].token is Plus),
        }),
    decreases tokens.len(),
{
    if tokens.len() > 0 {
        let first = tokens[0];
        lemma_taken_is_allowed(st, first.token, first.start as usize, first.end as usize, before);
        let next = advance(
            st,
            lax_mode(),
            first.token,
            first.start as usize,
            first.end as usize,
        )->Next_0;
        let rest = tokens.drop_first();
        lemma_taken_follow(rest, next, Some(first.token));
        assert forall|i: int| 0 < i < tokens.len() implies #[trigger] allowed_at(
            tokens_of(tokens),
            i,
        ) by {
            assert(tokens_of(tokens)[i] == tokens[i].token);
            assert(tokens_of(tokens)[i - 1] == tokens[i - 1].token);
            if i == 1 {
                assert(rest[0] == tokens[1]);
            } else {
                assert(allowed_at(tokens_of(rest), i - 1));
                assert(tokens_of(rest)[i - 1] == rest[i - 1].token);
                assert(tokens_of(rest)[i - 2] == rest[i - 2].token);
                assert(rest[i - 1] == tokens[i]);
                assert(rest[i - 2] == tokens[i - 1]);
            }
        }
    }
}

/// A text that parses lexes without an error up to its end.
proof fn lemma_parsed_lexes(text: Seq<u8>, pos: int, st: ParserState)
    requires
        0 <= pos <= text.len(),
        parse_from(text, lax_mode(), pos, st) is Parsed,
    ensures
        lexes_all(text, lax_mode(), pos, lexed_from(text, pos)),
    decreases text.len() - pos,
{
    reveal(lexes);
    reveal(ends);
    crate::lexer::lemma_token_bounds(text, lax_mode(), pos);
    match lex_step(text, lax_mode(), pos) {
        LexStep::Token { token, start, end } => {
            match advance(st, lax_mode(), token, start as usize, end as usize) {
                Step::Next(next) => {
                    lemma_parsed_lexes(text, end, next);
                    let all = lexed_from(text, pos);
                    assert(all[0] == (Lexed { token, start, end }));
                    assert(all.drop_first() =~= lexed_from(text, end));
                },
                Step::Stop { .. } => {},
            }
        },
        _ => {},
    }
}

/// Canonicalizing is idempotent on expressions: where a text parses in
/// the lax mode, and the list has the `-or-later` form of each GNU license
/// that a `+` follows in it, the canonical text of the text is canonical:
/// canonicalizing it again changes nothing.
pub proof fn lemma_canonicalize_is_idempotent(text: Seq<u8>)
    requires
        parse_outcome(text, lax_mode()) is Parsed,
        later_forms_exist(tokens_of(lexed_from(text, 0))),
    ensures
        canonical_text(text) is Text,
        canonical_text(encode_utf8(canonical_text(text)->Text_0)) == canonical_text(text),
{
    let lexed = lexed_from(text, 0);
    lemma_parsed_lexes(text, 0, initial_state());
    lemma_parse_by_tokens(text, lax_mode(), 0, initial_state(), lexed);
    lemma_taken_follow(lexed, initial_state(), None);
    if lexed.len() > 0 {
        assert(tokens_of(lexed)[0] == lexed[0].token);
    }
    lemma_canonical_text_is_stable(text, lexed);
}

} // verus!
