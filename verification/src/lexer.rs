//! Contains types for lexing an SPDX license expression
//!
//! Lexing is one forward pass over the bytes of the text. What the next
//! token from a position is says [`lex_step`]; [`Lexer::next`] computes it.

use crate::error::{ParseError, Reason, ReasonView};
use crate::identifiers::IS_DEPRECATED;
use crate::registry::{
    exception_lookup, find_exception, find_imprecise, find_license, imprecise_lookup,
    lemma_imprecise_lookup,
    lemma_ascii_text, license_has, license_lookup, ExceptionId, LicenseId,
};
use crate::text::{
    is_ref_byte, is_term_byte, bytes_eq, has_prefix, lemma_ascii_run_boundary, lemma_boundary_step, slice_between,
    starts_with_at,
};
use std::ops::Range;
use vstd::prelude::*;
use vstd::slice::slice_subrange;
use vstd::string::*;
use vstd::utf8::*;

verus! {

/// Parsing configuration for SPDX expression
#[derive(Copy, Clone, Debug, PartialEq, Eq)]
pub struct ParseMode {
    /// Allows the use of `/` as a synonym for the `OR` operator.
    ///
    /// This also allows for not having whitespace between the `/` and the terms
    /// on either side
    pub allow_slash_as_or_operator: bool,
    /// Allows some invalid/imprecise identifiers as synonyms for an actual
    /// license identifier.
    pub allow_imprecise_license_names: bool,
    /// The various GPL licenses diverge from every other license in the SPDX
    /// license list by having an `-or-later` variant that is used as a suffix
    /// on a base license (eg. `GPL-3.0-or-later`) rather than the canonical
    /// `GPL-3.0+`.
    ///
    /// This option just allows GPL licenses to be treated similarly to all of
    /// the other SPDX licenses.
    pub allow_postfix_plus_on_gpl: bool,
    /// Whether deprecated license identifiers are allowed
    pub allow_deprecated: bool,
    /// Whether unknown license or exception identifiers are allowed
    pub allow_unknown: bool,
    /// Whether the operators may be written in lower case: `and`, `or`,
    /// `with`
    pub allow_lowercase_operators: bool,
}

/// Strict, specification compliant SPDX parsing.
///
/// 1. Only license identifiers in the SPDX license list, or
///    Document/LicenseRef, are allowed. The license identifiers are also
///    case-sensitive.
/// 1. `WITH`, `AND`, and `OR`, in upper case or in lower case, are the
///    only valid operators
/// 1. Deprecated licenses are not allowed
/// 1. Unknown licenses or exceptions are not allowed
pub open spec fn strict_mode() -> ParseMode {
    ParseMode {
        allow_slash_as_or_operator: false,
        allow_imprecise_license_names: false,
        allow_postfix_plus_on_gpl: false,
        allow_deprecated: false,
        allow_unknown: false,
        allow_lowercase_operators: true,
    }
}

/// Allow non-conforming syntax for crates-io compatibility
///
/// 1. Additional, invalid, identifiers are accepted and mapped to a correct
///    SPDX license identifier.
/// 1. `/` can by used as a synonym for `OR`, and doesn't need to be
///    separated by whitespace from the terms it combines
/// 1. Deprecated license identifiers are allowed
/// 1. A `+` may follow a GNU license
/// 1. Unknown licenses or exceptions are not allowed
pub open spec fn lax_mode() -> ParseMode {
    ParseMode {
        allow_slash_as_or_operator: true,
        allow_imprecise_license_names: true,
        allow_postfix_plus_on_gpl: true,
        allow_deprecated: true,
        allow_unknown: false,
        allow_lowercase_operators: true,
    }
}

impl ParseMode {
    /// Strict, specification compliant SPDX parsing: see [`strict_mode`].
    pub fn strict() -> (r: ParseMode)
        ensures
            r == strict_mode(),
    {
        ParseMode {
            allow_slash_as_or_operator: false,
            allow_imprecise_license_names: false,
            allow_postfix_plus_on_gpl: false,
            allow_deprecated: false,
            allow_unknown: false,
            allow_lowercase_operators: true,
        }
    }

    /// Non-conforming syntax for crates-io compatibility: see [`lax_mode`].
    pub fn lax() -> (r: ParseMode)
        ensures
            r == lax_mode(),
    {
        ParseMode {
            allow_slash_as_or_operator: true,
            allow_imprecise_license_names: true,
            allow_postfix_plus_on_gpl: true,
            allow_deprecated: true,
            allow_unknown: false,
            allow_lowercase_operators: true,
        }
    }
}

impl Default for ParseMode {
    /// The strict mode.
    fn default() -> (r: ParseMode)
        ensures
            r == strict_mode(),
    {
        ParseMode::strict()
    }
}

/// A single token in an SPDX license expression
#[derive(Clone, Debug, PartialEq, Eq)]
pub enum Token<'a> {
    /// A recognized SPDX license id
    Spdx(LicenseId),
    /// A `LicenseRef-` prefixed id, with an optional `DocumentRef-`
    LicenseRef {
        /// An optional document reference
        doc_ref: Option<&'a str>,
        /// The name of the license reference
        lic_ref: &'a str,
    },
    /// A recognized SPDX exception id
    Exception(ExceptionId),
    /// A `AdditionRef-` prefixed id, with an optional `DocumentRef-`
    AdditionRef {
        /// An optional document reference
        doc_ref: Option<&'a str>,
        /// The name of the addition reference
        add_ref: &'a str,
    },
    /// An unknown license term was encountered
    Unknown(&'a str),
    /// A postfix `+` indicating "or later" for a particular SPDX license id
    Plus,
    /// A `(` for starting a group
    OpenParen,
    /// A `)` for ending a group
    CloseParen,
    /// A `WITH` operator
    With,
    /// An `AND` operator
    And,
    /// An `OR` operator
    Or,
}

/// What a [`Token`] holds; identifiers stand as positions in their table.
pub enum TokenView {
    Spdx(usize),
    LicenseRef { doc_ref: Option<Seq<char>>, lic_ref: Seq<char> },
    Exception(usize),
    AdditionRef { doc_ref: Option<Seq<char>>, add_ref: Seq<char> },
    Unknown(Seq<char>),
    Plus,
    OpenParen,
    CloseParen,
    With,
    And,
    Or,
}

/// The text of an optional string slice.
pub open spec fn slice_text(s: Option<&str>) -> Option<Seq<char>> {
    match s {
        Some(s) => Some(s@),
        None => None,
    }
}

impl<'a> View for Token<'a> {
    type V = TokenView;

    open spec fn view(&self) -> TokenView {
        match *self {
            Token::Spdx(id) => TokenView::Spdx(id.position()),
            Token::LicenseRef { doc_ref, lic_ref } => TokenView::LicenseRef {
                doc_ref: slice_text(doc_ref),
                lic_ref: lic_ref@,
            },
            Token::Exception(id) => TokenView::Exception(id.position()),
            Token::AdditionRef { doc_ref, add_ref } => TokenView::AdditionRef {
                doc_ref: slice_text(doc_ref),
                add_ref: add_ref@,
            },
            Token::Unknown(text) => TokenView::Unknown(text@),
            Token::Plus => TokenView::Plus,
            Token::OpenParen => TokenView::OpenParen,
            Token::CloseParen => TokenView::CloseParen,
            Token::With => TokenView::With,
            Token::And => TokenView::And,
            Token::Or => TokenView::Or,
        }
    }
}

/// A wrapper around a particular token that includes the span of the characters
/// in the original string, for diagnostic purposes
#[derive(Debug)]
pub struct LexerToken<'a> {
    /// The token that was lexed
    pub token: Token<'a>,
    /// The range of the token characters in the original license expression
    pub span: Range<usize>,
}

/// What lexing finds from a position on.
pub enum LexStep {
    /// Nothing but whitespace is left.
    End,
    /// A token, with the bytes it spans.
    Token { token: TokenView, start: int, end: int },
    /// An error, with the bytes it is about.
    Fail { reason: ReasonView, start: int, end: int },
}

/// The number of bytes of the whitespace character that is encoded at
/// `at`, or 0 where none is: one of U+0009 to U+000D, U+0020, U+0085,
/// U+00A0, U+1680, U+2000 to U+200A, U+2028, U+2029, U+202F, U+205F and
/// U+3000.
pub open spec fn whitespace_width(text: Seq<u8>, at: int) -> int {
    if at < 0 || at >= text.len() {
        0
    } else if text[at] == 0x20 || (0x09 <= text[at] <= 0x0d) {
        1
    } else if at + 1 < text.len() && text[at] == 0xc2 && (text[at + 1] == 0x85 || text[at + 1]
        == 0xa0) {
        2
    } else if at + 2 < text.len() && ((text[at] == 0xe1 && text[at + 1] == 0x9a && text[at + 2]
        == 0x80) || (text[at] == 0xe2 && text[at + 1] == 0x80 && ((0x80 <= text[at + 2] <= 0x8a)
        || text[at + 2] == 0xa8 || text[at + 2] == 0xa9 || text[at + 2] == 0xaf)) || (text[at]
        == 0xe2 && text[at + 1] == 0x81 && text[at + 2] == 0x9f) || (text[at] == 0xe3 && text[at
        + 1] == 0x80 && text[at + 2] == 0x80)) {
        3
    } else {
        0
    }
}

/// The first position at or after `pos` where no whitespace starts.
pub open spec fn after_whitespace(text: Seq<u8>, pos: int) -> int
    decreases text.len() - pos,
{
    if whitespace_width(text, pos) > 0 {
        after_whitespace(text, pos + whitespace_width(text, pos))
    } else {
        pos
    }
}

/// The end of the longest run of reference bytes that starts at `from`.
pub open spec fn ref_end(text: Seq<u8>, from: int) -> int
    decreases text.len() - from,
{
    if 0 <= from < text.len() && is_ref_byte(text[from]) {
        ref_end(text, from + 1)
    } else {
        from
    }
}

/// The end of the longest run of term bytes that starts at `from`.
pub open spec fn term_end(text: Seq<u8>, from: int) -> int
    decreases text.len() - from,
{
    if 0 <= from < text.len() && is_term_byte(text[from]) {
        term_end(text, from + 1)
    } else {
        from
    }
}

/// The text that the bytes from `from` up to `to` spell.
pub open spec fn text_between(text: Seq<u8>, from: int, to: int) -> Seq<char> {
    decode_utf8(text.subrange(from, to))
}

/// A reference found in a term: where the name of its document stands, if
/// it has one, and where its own name stands.
pub struct RefParts {
    pub doc: Option<(int, int)>,
    pub name: (int, int),
}

/// The reference of kind `kind` (`LicenseRef-` or `AdditionRef-`) that the
/// term from `start` to `end` begins with, if it does: either
/// `DocumentRef-<d>:<kind><r>` or `<kind><r>`, where `<d>` and `<r>` are
/// runs of reference bytes, as long as they can be, and may be empty.
pub open spec fn reference_at(text: Seq<u8>, start: int, end: int, kind: Seq<u8>) -> Option<
    RefParts,
> {
    let term = text.subrange(start, end);
    let doc_start = start + "DocumentRef-".spec_bytes().len();
    let doc_end = ref_end(text, doc_start);
    if has_prefix(term, "DocumentRef-".spec_bytes()) && doc_end < end && has_prefix(
        text.subrange(doc_end + 1, end),
        kind,
    ) {
        let name_start = doc_end + 1 + kind.len();
        Some(RefParts { doc: Some((doc_start, doc_end)), name: (name_start, ref_end(text, name_start)) })
    } else if has_prefix(term, kind) {
        let name_start = start + kind.len();
        Some(RefParts { doc: None, name: (name_start, ref_end(text, name_start)) })
    } else {
        None
    }
}

/// The text of the document's name of a reference.
pub open spec fn doc_text(text: Seq<u8>, parts: RefParts) -> Option<Seq<char>> {
    match parts.doc {
        Some((from, to)) => Some(text_between(text, from, to)),
        None => None,
    }
}

/// What the term from `start` to `end` is, by the first of these that
/// applies: an operator; a license of the list, which fails where it is
/// deprecated and the mode does not allow that; an exception of the list; a
/// license reference; an addition reference; where the mode allows it, a
/// loosely written license name at the start of what is left of the text,
/// which then ends the token; an unknown term, which fails unless the mode
/// allows it.
pub open spec fn lex_term(text: Seq<u8>, mode: ParseMode, start: int, end: int) -> LexStep {
    let term = text.subrange(start, end);
    if term == "AND".spec_bytes() || (mode.allow_lowercase_operators && term
        == "and".spec_bytes()) {
        LexStep::Token { token: TokenView::And, start, end }
    } else if term == "OR".spec_bytes() || (mode.allow_lowercase_operators && term
        == "or".spec_bytes()) {
        LexStep::Token { token: TokenView::Or, start, end }
    } else if term == "WITH".spec_bytes() || (mode.allow_lowercase_operators && term
        == "with".spec_bytes()) {
        LexStep::Token { token: TokenView::With, start, end }
    } else if let Some(id) = license_lookup(term) {
        if !mode.allow_deprecated && license_has(id, IS_DEPRECATED) {
            LexStep::Fail { reason: ReasonView::DeprecatedLicenseId, start, end }
        } else {
            LexStep::Token { token: TokenView::Spdx(id), start, end }
        }
    } else if let Some(id) = exception_lookup(term) {
        LexStep::Token { token: TokenView::Exception(id), start, end }
    } else if let Some(parts) = reference_at(text, start, end, "LicenseRef-".spec_bytes()) {
        LexStep::Token {
            token: TokenView::LicenseRef {
                doc_ref: doc_text(text, parts),
                lic_ref: text_between(text, parts.name.0, parts.name.1),
            },
            start,
            end: parts.name.1,
        }
    } else if let Some(parts) = reference_at(text, start, end, "AdditionRef-".spec_bytes()) {
        LexStep::Token {
            token: TokenView::AdditionRef {
                doc_ref: doc_text(text, parts),
                add_ref: text_between(text, parts.name.0, parts.name.1),
            },
            start,
            end: parts.name.1,
        }
    } else if mode.allow_imprecise_license_names && imprecise_lookup(
        text.subrange(start, text.len() as int),
    ) is Some {
        let found = imprecise_lookup(text.subrange(start, text.len() as int))->0;
        LexStep::Token { token: TokenView::Spdx(found.0), start, end: start + found.1 }
    } else if mode.allow_unknown {
        LexStep::Token { token: TokenView::Unknown(text_between(text, start, end)), start, end }
    } else {
        LexStep::Fail { reason: ReasonView::UnknownTerm, start, end }
    }
}

/// What lexing finds from `pos` on.
///
/// Whitespace is passed over. A `+` is a token only where no whitespace
/// stands before it; `(` and `)` are tokens; `/` is an `OR` where the mode
/// allows it. Anything else must begin a term, the longest run of term
/// bytes, or the rest of the text is reported as invalid.
pub open spec fn lex_step(text: Seq<u8>, mode: ParseMode, pos: int) -> LexStep {
    let start = after_whitespace(text, pos);
    if start >= text.len() {
        LexStep::End
    } else if text[start] == 0x2b {
        if start == pos {
            LexStep::Token { token: TokenView::Plus, start, end: start + 1 }
        } else {
            LexStep::Fail { reason: ReasonView::SeparatedPlus, start: pos, end: start }
        }
    } else if text[start] == 0x28 {
        LexStep::Token { token: TokenView::OpenParen, start, end: start + 1 }
    } else if text[start] == 0x29 {
        LexStep::Token { token: TokenView::CloseParen, start, end: start + 1 }
    } else if text[start] == 0x2f && mode.allow_slash_as_or_operator {
        LexStep::Token { token: TokenView::Or, start, end: start + 1 }
    } else if term_end(text, start) == start {
        LexStep::Fail { reason: ReasonView::InvalidCharacters, start, end: text.len() as int }
    } else {
        lex_term(text, mode, start, term_end(text, start))
    }
}

/// The length in bytes of `DocumentRef-<d>:`, or 0 without a document.
pub open spec fn doc_len(doc_ref: Option<Seq<char>>) -> int {
    match doc_ref {
        Some(d) => 12 + encode_utf8(d).len() as int + 1,
        None => 0,
    }
}

/// The length in bytes of a token as it is written.
pub open spec fn token_len(token: TokenView) -> int {
    match token {
        TokenView::Spdx(id) => crate::registry::license_bytes(id).len() as int,
        TokenView::Exception(id) => crate::registry::exception_bytes(id).len() as int,
        TokenView::With => 4,
        TokenView::And => 3,
        TokenView::Or => 2,
        TokenView::Plus | TokenView::OpenParen | TokenView::CloseParen => 1,
        TokenView::LicenseRef { doc_ref, lic_ref } => doc_len(doc_ref) + 11 + encode_utf8(
            lic_ref,
        ).len() as int,
        TokenView::AdditionRef { doc_ref, add_ref } => doc_len(doc_ref) + 12 + encode_utf8(
            add_ref,
        ).len() as int,
        TokenView::Unknown(text) => encode_utf8(text).len() as int,
    }
}

impl<'a> Token<'a> {
    /// The length in bytes of the token as it is written.
    pub fn len(&self) -> (r: usize)
        requires
            token_len(self@) <= usize::MAX,
        ensures
            r == token_len(self@),
    {
        match self {
            Token::Spdx(id) => id.name().len(),
            Token::Exception(e) => e.name().len(),
            Token::With => 4,
            Token::And => 3,
            Token::Or => 2,
            Token::Plus | Token::OpenParen | Token::CloseParen => 1,
            Token::LicenseRef { doc_ref, lic_ref } => {
                let d = match doc_ref {
                    Some(d) => 12 + d.len() + 1,
                    None => 0,
                };
                d + 11 + lic_ref.len()
            },
            Token::AdditionRef { doc_ref, add_ref } => {
                let d = match doc_ref {
                    Some(d) => 12 + d.len() + 1,
                    None => 0,
                };
                d + 12 + add_ref.len()
            },
            Token::Unknown(u) => u.len(),
        }
    }
}

/// Whether `b` may stand in a reference.
pub fn is_ref_char(b: u8) -> (r: bool)
    ensures
        r == is_ref_byte(b),
{
    (0x30 <= b && b <= 0x39) || (0x41 <= b && b <= 0x5a) || (0x61 <= b && b <= 0x7a) || b == 0x2d
        || b == 0x2e
}

/// The end of the longest run of reference bytes that starts at `from`.
pub fn find_ref(text: &[u8], from: usize) -> (r: usize)
    requires
        from <= text.len(),
    ensures
        r == ref_end(text@, from as int),
        from <= r <= text.len(),
        forall|j: int| from <= j < r ==> is_ref_byte(#[trigger] text@[j]),
{
    let mut i = from;
    while i < text.len() && is_ref_char(text[i])
        invariant
            from <= i <= text.len(),
            ref_end(text@, from as int) == ref_end(text@, i as int),
            forall|j: int| from <= j < i ==> is_ref_byte(#[trigger] text@[j]),
        decreases text.len() - i,
    {
        i += 1;
    }
    i
}

/// The end of the longest run of term bytes that starts at `from`.
pub fn find_text_token(text: &[u8], from: usize) -> (r: usize)
    requires
        from <= text.len(),
    ensures
        r == term_end(text@, from as int),
        from <= r <= text.len(),
        forall|j: int| from <= j < r ==> is_term_byte(#[trigger] text@[j]),
        r < text.len() ==> !is_term_byte(text@[r as int]),
{
    let mut i = from;
    while i < text.len() && (is_ref_char(text[i]) || text[i] == 0x3a)
        invariant
            from <= i <= text.len(),
            term_end(text@, from as int) == term_end(text@, i as int),
            forall|j: int| from <= j < i ==> is_term_byte(#[trigger] text@[j]),
        decreases text.len() - i,
    {
        i += 1;
    }
    i
}

/// A run of reference bytes inside a term ends inside the term.
pub proof fn lemma_ref_end_in_term(text: Seq<u8>, from: int, end: int)
    requires
        0 <= from <= end <= text.len(),
        end < text.len() ==> !is_term_byte(text[end]),
    ensures
        from <= ref_end(text, from) <= end,
        forall|j: int| from <= j < ref_end(text, from) ==> is_ref_byte(#[trigger] text[j]),
    decreases end - from,
{
    if from < end && is_ref_byte(text[from]) {
        lemma_ref_end_in_term(text, from + 1, end);
    }
}

/// The positions of the reference of kind `kind` that the term from
/// `start` to `end` begins with.
pub fn find_reference(text: &[u8], start: usize, end: usize, kind: &[u8]) -> (r: Option<
    (Option<(usize, usize)>, usize, usize),
>)
    requires
        start <= end <= text.len(),
        end < text.len() ==> !is_term_byte(text@[end as int]),
    ensures
        match reference_at(text@, start as int, end as int, kind@) {
            None => r is None,
            Some(parts) => r matches Some((doc, from, to)) && from == parts.name.0 && to
                == parts.name.1 && (match doc {
                Some((a, b)) => parts.doc == Some((a as int, b as int)),
                None => parts.doc is None,
            }),
        },
        r matches Some((doc, from, to)) ==> start <= from <= to <= end && (doc matches Some(
            (a, b),
        ) ==> start <= a <= b < from),
{
    let term = slice_subrange(text, start, end);
    let doc_prefix = "DocumentRef-".as_bytes();
    let ghost doc_start = start + doc_prefix@.len();
    if starts_with_at(term, 0, doc_prefix) {
        assert(term@.subrange(0, term@.len() as int) =~= term@);
        let doc_from = start + doc_prefix.len();
        let doc_to = find_ref(text, doc_from);
        proof {
            lemma_ref_end_in_term(text@, doc_from as int, end as int);
        }
        if doc_to < end {
            let rest = slice_subrange(text, doc_to + 1, end);
            assert(rest@.subrange(0, rest@.len() as int) =~= rest@);
            if starts_with_at(rest, 0, kind) {
                let name_from = doc_to + 1 + kind.len();
                let name_to = find_ref(text, name_from);
                proof {
                    lemma_ref_end_in_term(text@, name_from as int, end as int);
                }
                return Some((Some((doc_from, doc_to)), name_from, name_to));
            }
        }
    } else {
        assert(term@.subrange(0, term@.len() as int) =~= term@);
    }
    if starts_with_at(term, 0, kind) {
        let name_from = start + kind.len();
        let name_to = find_ref(text, name_from);
        proof {
            lemma_ref_end_in_term(text@, name_from as int, end as int);
        }
        Some((None, name_from, name_to))
    } else {
        None
    }
}

/// Whitespace ends inside the text.
pub proof fn lemma_whitespace_bounds(text: Seq<u8>, pos: int)
    requires
        0 <= pos <= text.len(),
    ensures
        pos <= after_whitespace(text, pos) <= text.len(),
    decreases text.len() - pos,
{
    if whitespace_width(text, pos) > 0 {
        lemma_whitespace_bounds(text, pos + whitespace_width(text, pos));
    }
}

/// A term ends inside the text, at a byte that cannot stand in a term.
pub proof fn lemma_term_end(text: Seq<u8>, from: int)
    requires
        0 <= from <= text.len(),
    ensures
        from <= term_end(text, from) <= text.len(),
        term_end(text, from) < text.len() ==> !is_term_byte(text[term_end(text, from)]),
    decreases text.len() - from,
{
    if from < text.len() && is_term_byte(text[from]) {
        lemma_term_end(text, from + 1);
    }
}

/// A token is not empty and lies inside the text, at or after the
/// position from which it was looked for.
pub proof fn lemma_token_bounds(text: Seq<u8>, mode: ParseMode, pos: int)
    requires
        0 <= pos <= text.len(),
    ensures
        lex_step(text, mode, pos) matches LexStep::Token { start, end, .. } ==> pos <= start < end
            <= text.len(),
{
    lemma_whitespace_bounds(text, pos);
    let start = after_whitespace(text, pos);
    if start < text.len() {
        lemma_term_end(text, start);
        let end = term_end(text, start);
        if end > start {
            reveal_strlit("LicenseRef-");
            lemma_ascii_text("LicenseRef-"@);
            reveal_strlit("AdditionRef-");
            lemma_ascii_text("AdditionRef-"@);
            reveal_strlit("DocumentRef-");
            lemma_ascii_text("DocumentRef-"@);
            lemma_imprecise_lookup(text.subrange(start, text.len() as int));
            lemma_reference_bounds(text, start, end, "LicenseRef-".spec_bytes());
            lemma_reference_bounds(text, start, end, "AdditionRef-".spec_bytes());
        }
    }
}

/// A reference ends inside its term, and behind the start of the term
/// where its kind is not empty.
pub proof fn lemma_reference_bounds(text: Seq<u8>, start: int, end: int, kind: Seq<u8>)
    requires
        0 <= start <= end <= text.len(),
        end < text.len() ==> !is_term_byte(text[end]),
        kind.len() > 0,
    ensures
        reference_at(text, start, end, kind) matches Some(parts) ==> start < parts.name.1 <= end,
{
    let doc_start = start + "DocumentRef-".spec_bytes().len();
    if doc_start <= end {
        lemma_ref_end_in_term(text, doc_start, end);
        let doc_end = ref_end(text, doc_start);
        if doc_end < end && doc_end + 1 + kind.len() <= end {
            lemma_ref_end_in_term(text, doc_end + 1 + kind.len(), end);
        }
    }
    if start + kind.len() <= end {
        lemma_ref_end_in_term(text, start + kind.len(), end);
    }
}

/// Whitespace starts and ends on character boundaries.
pub proof fn lemma_whitespace_boundary(text: Seq<u8>, at: int)
    requires
        valid_utf8(text),
        is_char_boundary(text, at),
        0 <= at <= text.len(),
        whitespace_width(text, at) > 0,
    ensures
        at + whitespace_width(text, at) <= text.len(),
        is_char_boundary(text, at + whitespace_width(text, at)),
{
    lemma_boundary_step(text, at);
    let rest = text.subrange(at, text.len() as int);
    assert(rest[0] == text[at]);
    if rest.len() > 1 {
        assert(rest[1] == text[at + 1]);
    }
    if rest.len() > 2 {
        assert(rest[2] == text[at + 2]);
    }
}

/// The number of bytes of the whitespace character at `at`, or 0.
pub fn whitespace_at(text: &[u8], at: usize) -> (r: usize)
    requires
        at <= text.len(),
    ensures
        r == whitespace_width(text@, at as int),
{
    let n = text.len();
    if at >= n {
        return 0;
    }
    let b0 = text[at];
    if b0 == 0x20 || (0x09 <= b0 && b0 <= 0x0d) {
        return 1;
    }
    if n - at > 1 {
        let b1 = text[at + 1];
        if b0 == 0xc2 && (b1 == 0x85 || b1 == 0xa0) {
            return 2;
        }
        if n - at > 2 {
            let b2 = text[at + 2];
            if (b0 == 0xe1 && b1 == 0x9a && b2 == 0x80) || (b0 == 0xe2 && b1 == 0x80 && ((0x80
                <= b2 && b2 <= 0x8a) || b2 == 0xa8 || b2 == 0xa9 || b2 == 0xaf)) || (b0 == 0xe2
                && b1 == 0x81 && b2 == 0x9f) || (b0 == 0xe3 && b1 == 0x80 && b2 == 0x80) {
                return 3;
            }
        }
    }
    0
}

/// The first position at or after `pos` where no whitespace starts.
pub fn skip_whitespace(text: &[u8], pos: usize) -> (r: usize)
    requires
        pos <= text.len(),
        valid_utf8(text@),
        is_char_boundary(text@, pos as int),
    ensures
        r == after_whitespace(text@, pos as int),
        pos <= r <= text.len(),
        is_char_boundary(text@, r as int),
{
    let mut i = pos;
    loop
        invariant
            pos <= i <= text.len(),
            valid_utf8(text@),
            is_char_boundary(text@, i as int),
            after_whitespace(text@, pos as int) == after_whitespace(text@, i as int),
        decreases text.len() - i,
    {
        let w = whitespace_at(text, i);
        if w == 0 {
            return i;
        }
        proof {
            lemma_whitespace_boundary(text@, i as int);
        }
        i += w;
    }
}

/// The operator that `term` spells, if it spells one.
fn operator_of<'a>(term: &[u8], mode: ParseMode) -> (r: Option<Token<'a>>)
    ensures
        r == (if term@ == "AND".spec_bytes() || (mode.allow_lowercase_operators && term@
            == "and".spec_bytes()) {
            Some(Token::And)
        } else if term@ == "OR".spec_bytes() || (mode.allow_lowercase_operators && term@
            == "or".spec_bytes()) {
            Some(Token::Or)
        } else if term@ == "WITH".spec_bytes() || (mode.allow_lowercase_operators && term@
            == "with".spec_bytes()) {
            Some(Token::With)
        } else {
            None
        }),
{
    let lower = mode.allow_lowercase_operators;
    if bytes_eq(term, "AND".as_bytes()) || (lower && bytes_eq(term, "and".as_bytes())) {
        Some(Token::And)
    } else if bytes_eq(term, "OR".as_bytes()) || (lower && bytes_eq(term, "or".as_bytes())) {
        Some(Token::Or)
    } else if bytes_eq(term, "WITH".as_bytes()) || (lower && bytes_eq(term, "with".as_bytes())) {
        Some(Token::With)
    } else {
        None
    }
}

/// The parts of `text` that the positions of a reference name.
fn reference_texts<'a>(
    text: &'a str,
    start: usize,
    doc: Option<(usize, usize)>,
    from: usize,
    to: usize,
) -> (r: (Option<&'a str>, &'a str))
    requires
        start <= from <= to <= text.spec_bytes().len(),
        doc matches Some((a, b)) ==> start <= a <= b <= from,
        is_char_boundary(text.spec_bytes(), start as int),
        forall|j: int| start <= j < to ==> #[trigger] text.spec_bytes()[j] < 0x80,
    ensures
        r.1@ == text_between(text.spec_bytes(), from as int, to as int),
        match doc {
            Some((a, b)) => r.0 matches Some(d) && d@ == text_between(
                text.spec_bytes(),
                a as int,
                b as int,
            ),
            None => r.0 is None,
        },
{
    proof {
        encode_utf8_valid_utf8(text@);
        lemma_ascii_run_boundary(text.spec_bytes(), start as int, from as int);
        lemma_ascii_run_boundary(text.spec_bytes(), start as int, to as int);
    }
    let doc_ref = match doc {
        Some((a, b)) => {
            proof {
                lemma_ascii_run_boundary(text.spec_bytes(), start as int, a as int);
                lemma_ascii_run_boundary(text.spec_bytes(), start as int, b as int);
            }
            Some(slice_between(text, a, b))
        },
        None => None,
    };
    (doc_ref, slice_between(text, from, to))
}

/// The reference token that the term from `start` to `end` begins with,
/// and where it ends.
fn reference_token<'a>(text: &'a str, start: usize, end: usize) -> (r: Option<(Token<'a>, usize)>)
    requires
        start < end <= text.spec_bytes().len(),
        is_char_boundary(text.spec_bytes(), start as int),
        forall|j: int| start <= j < end ==> is_term_byte(#[trigger] text.spec_bytes()[j]),
        end < text.spec_bytes().len() ==> !is_term_byte(text.spec_bytes()[end as int]),
    ensures
        match reference_at(
            text.spec_bytes(),
            start as int,
            end as int,
            "LicenseRef-".spec_bytes(),
        ) {
            Some(parts) => r matches Some((token, to)) && to == parts.name.1 && token@
                == (TokenView::LicenseRef {
                doc_ref: doc_text(text.spec_bytes(), parts),
                lic_ref: text_between(text.spec_bytes(), parts.name.0, parts.name.1),
            }),
            None => match reference_at(
                text.spec_bytes(),
                start as int,
                end as int,
                "AdditionRef-".spec_bytes(),
            ) {
                Some(parts) => r matches Some((token, to)) && to == parts.name.1 && token@
                    == (TokenView::AdditionRef {
                    doc_ref: doc_text(text.spec_bytes(), parts),
                    add_ref: text_between(text.spec_bytes(), parts.name.0, parts.name.1),
                }),
                None => r is None,
            },
        },
        r matches Some((_, to)) ==> start < to <= end,
{
    let bytes = text.as_bytes();
    proof {
        reveal_strlit("LicenseRef-");
        lemma_ascii_text("LicenseRef-"@);
        reveal_strlit("AdditionRef-");
        lemma_ascii_text("AdditionRef-"@);
    }
    if let Some((doc, from, to)) = find_reference(bytes, start, end, "LicenseRef-".as_bytes()) {
        let (doc_ref, lic_ref) = reference_texts(text, start, doc, from, to);
        return Some((Token::LicenseRef { doc_ref, lic_ref }, to));
    }
    if let Some((doc, from, to)) = find_reference(bytes, start, end, "AdditionRef-".as_bytes()) {
        let (doc_ref, add_ref) = reference_texts(text, start, doc, from, to);
        return Some((Token::AdditionRef { doc_ref, add_ref }, to));
    }
    None
}

/// What the term from `start` to `end` is: a token and where it ends, or
/// the reason why it is none.
fn lex_term_at<'a>(text: &'a str, mode: ParseMode, start: usize, end: usize) -> (r: Result<
    (Token<'a>, usize),
    Reason,
>)
    requires
        start < end <= text.spec_bytes().len(),
        is_char_boundary(text.spec_bytes(), start as int),
        forall|j: int| start <= j < end ==> is_term_byte(#[trigger] text.spec_bytes()[j]),
        end < text.spec_bytes().len() ==> !is_term_byte(text.spec_bytes()[end as int]),
    ensures
        match lex_term(text.spec_bytes(), mode, start as int, end as int) {
            LexStep::Token { token, start: from, end: to } => r matches Ok((t, e)) && t@ == token
                && e == to && from == start && start < to <= text.spec_bytes().len()
                && is_char_boundary(text.spec_bytes(), to),
            LexStep::Fail { reason, start: from, end: to } => r matches Err(e) && e@ == reason
                && from == start && to == end,
            LexStep::End => false,
        },
{
    let bytes = text.as_bytes();
    let term = slice_subrange(bytes, start, end);
    proof {
        encode_utf8_valid_utf8(text@);
        assert forall|j: int| start <= j < end implies #[trigger] bytes@[j] < 0x80 by {
            assert(is_term_byte(bytes@[j]));
        }
        lemma_ascii_run_boundary(bytes@, start as int, end as int);
    }
    if let Some(token) = operator_of(term, mode) {
        return Ok((token, end));
    }
    if let Some(id) = find_license(term) {
        if !mode.allow_deprecated && id.is_deprecated() {
            return Err(Reason::DeprecatedLicenseId);
        }
        return Ok((Token::Spdx(id), end));
    }
    if let Some(id) = find_exception(term) {
        return Ok((Token::Exception(id), end));
    }
    if let Some((token, to)) = reference_token(text, start, end) {
        proof {
            lemma_ascii_run_boundary(bytes@, start as int, to as int);
        }
        return Ok((token, to));
    }
    if mode.allow_imprecise_license_names {
        if let Some((id, n)) = find_imprecise(bytes, start) {
            proof {
                lemma_ascii_run_boundary(bytes@, start as int, start + n);
            }
            return Ok((Token::Spdx(id), start + n));
        }
    }
    if mode.allow_unknown {
        return Ok((Token::Unknown(slice_between(text, start, end)), end));
    }
    Err(Reason::UnknownTerm)
}

/// Allows iteration through an SPDX license expression, yielding
/// a token or a `ParseError`.
///
/// Prefer to use `Expression::parse` or `Licensee::parse` rather
/// than directly using the lexer
pub struct Lexer<'a> {
    original: &'a str,
    offset: usize,
    mode: ParseMode,
}

impl<'a> Lexer<'a> {
    #[verifier::type_invariant]
    spec fn on_boundary(self) -> bool {
        self.offset <= self.original.spec_bytes().len() && is_char_boundary(
            self.original.spec_bytes(),
            self.offset as int,
        )
    }

    /// The text that is lexed.
    pub closed spec fn text(self) -> &'a str {
        self.original
    }

    /// The position from which the next token is looked for.
    pub closed spec fn position(self) -> int {
        self.offset as int
    }

    /// The mode by which the text is lexed.
    pub closed spec fn mode(self) -> ParseMode {
        self.mode
    }

    /// Creates a Lexer over a license expression
    #[must_use]
    pub fn new(text: &'a str) -> (r: Lexer<'a>)
        ensures
            r.text() == text,
            r.position() == 0,
            r.mode() == strict_mode(),
    {
        proof {
            encode_utf8_valid_utf8(text@);
            is_char_boundary_start_end_of_seq(text.spec_bytes());
        }
        Lexer { original: text, offset: 0, mode: ParseMode::strict() }
    }

    /// Creates a Lexer over a license expression
    ///
    /// With `ParseMode::LAX` it allows non-conforming syntax
    /// used in crates-io crates.
    #[must_use]
    pub fn new_mode(text: &'a str, mode: ParseMode) -> (r: Lexer<'a>)
        ensures
            r.text() == text,
            r.position() == 0,
            r.mode() == mode,
    {
        proof {
            encode_utf8_valid_utf8(text@);
            is_char_boundary_start_end_of_seq(text.spec_bytes());
        }
        Lexer { original: text, offset: 0, mode }
    }

    /// The error `reason` about the bytes from `start` to `end`.
    fn fail(&self, reason: Reason, start: usize, end: usize) -> (r: ParseError)
        ensures
            r.original@ == self.text()@,
            r.span.start == start,
            r.span.end == end,
            r.reason == reason,
    {
        ParseError { original: self.original.to_owned(), span: start..end, reason }
    }

    /// The next token of the text, an error where what follows is no
    /// token, or `None` at the end of the text.
    ///
    /// The lexer moves behind the token that it returns. An error leaves
    /// it behind the whitespace that it passed over.
    pub fn next(&mut self) -> (r: Option<Result<LexerToken<'a>, ParseError>>)
        ensures
            final(self).text() == old(self).text(),
            final(self).mode() == old(self).mode(),
            match lex_step(old(self).text().spec_bytes(), old(self).mode(), old(self).position()) {
                LexStep::End => r is None && final(self).position() == old(
                    self,
                ).text().spec_bytes().len(),
                LexStep::Token { token, start, end } => r matches Some(Ok(t)) && t.token@ == token
                    && t.span.start == start && t.span.end == end && final(self).position() == end
                    && old(self).position() <= start < end <= old(self).text().spec_bytes().len(),
                LexStep::Fail { reason, start, end } => r matches Some(Err(e)) && e.reason@
                    == reason && e.span.start == start && e.span.end == end && e.original@ == old(
                    self,
                ).text()@ && final(self).position() == after_whitespace(
                    old(self).text().spec_bytes(),
                    old(self).position(),
                ),
            },
    {
        proof {
            use_type_invariant(&*self);
            encode_utf8_valid_utf8(self.original@);
        }
        let original: &'a str = self.original;
        let bytes = original.as_bytes();
        let mode = self.mode;
        let pos = self.offset;
        let start = skip_whitespace(bytes, pos);
        self.offset = start;
        if start >= bytes.len() {
            return None;
        }
        let first = bytes[start];
        if first == 0x2b {
            if start == pos {
                proof {
                    lemma_ascii_run_boundary(bytes@, start as int, start + 1);
                }
                self.offset = start + 1;
                return Some(Ok(LexerToken { token: Token::Plus, span: start..start + 1 }));
            } else {
                return Some(Err(self.fail(Reason::SeparatedPlus, pos, start)));
            }
        }
        if first == 0x28 || first == 0x29 || (first == 0x2f && mode.allow_slash_as_or_operator) {
            proof {
                lemma_ascii_run_boundary(bytes@, start as int, start + 1);
            }
            self.offset = start + 1;
            let token = if first == 0x28 {
                Token::OpenParen
            } else if first == 0x29 {
                Token::CloseParen
            } else {
                Token::Or
            };
            return Some(Ok(LexerToken { token, span: start..start + 1 }));
        }
        let end = find_text_token(bytes, start);
        if end == start {
            return Some(Err(self.fail(Reason::InvalidCharacters, start, bytes.len())));
        }
        match lex_term_at(original, mode, start, end) {
            Ok((token, to)) => {
                self.offset = to;
                Some(Ok(LexerToken { token, span: start..to }))
            },
            Err(reason) => Some(Err(self.fail(reason, start, end))),
        }
    }
}

} // verus!
