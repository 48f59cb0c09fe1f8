//! Licensees: what a piece of software is licensed under.

use crate::error::{
    expect_addition, expect_license, expect_with, expected_addition, expected_license,
    expected_with, ParseError, Reason, ReasonView,
};
use crate::identifiers::IS_GNU;
use crate::lexer::{lex_step, LexStep, Lexer, ParseMode, Token, TokenView};
use crate::registry::{
    all_version_bytes, is_version_byte, license_bytes, license_has, LicenseId,
};
use crate::requirement::{
    same_addition, AdditionItem, AdditionItemView, AdditionRef, AdditionRefView, LicenseItem,
    LicenseItemView, LicenseRef, LicenseRefView, LicenseReq, LicenseReqView,
};
use crate::text::{
    bytes_eq, bytes_le, ends_with, find_last_dash, has_prefix, has_suffix, last_dash, le_bytes,
    starts_with, without_last,
};
use vstd::prelude::*;
use vstd::slice::slice_subrange;
use vstd::string::*;

verus! {

/// A convenience wrapper for a license and optional additional text that can be
/// checked against a license requirement to see if it satisfies the requirement
/// placed by a license holder
#[derive(PartialEq, Eq, PartialOrd, Ord, Debug)]
pub struct Licensee {
    inner: LicenseReq,
}

/// `name` without the GNU suffix `-only` or `-or-later`, if it has one.
pub open spec fn without_gnu_suffix(name: Seq<u8>) -> Seq<u8> {
    if has_suffix(name, "-only".spec_bytes()) {
        without_last(name, "-only".spec_bytes().len() as int)
    } else if has_suffix(name, "-or-later".spec_bytes()) {
        without_last(name, "-or-later".spec_bytes().len() as int)
    } else {
        name
    }
}

/// The name by which the license at `id` is matched, and whether it is a
/// GFDL license with invariants.
///
/// For a license that is not of the GNU family this is its identifier. A
/// GNU license is matched without its suffix `-only` or `-or-later`; of a
/// GFDL license the modifier `-invariants` that is then at the end is
/// taken off too, and noted.
pub open spec fn matching_name(id: usize) -> (Seq<u8>, bool) {
    let name = license_bytes(id);
    if !license_has(id, IS_GNU) {
        (name, false)
    } else {
        let bare = without_gnu_suffix(name);
        if has_prefix(bare, "GFDL".spec_bytes()) && has_suffix(bare, "-invariants".spec_bytes()) {
            (without_last(bare, "-invariants".spec_bytes().len() as int), true)
        } else {
            (bare, false)
        }
    }
}

/// The name without its version, where the version comes last: what
/// stands before the last dash, where what stands behind it is made of
/// digits and dots alone; the whole name otherwise.
pub open spec fn base_prefix(name: Seq<u8>) -> Seq<u8> {
    let dash = last_dash(name);
    if dash < name.len() && all_version_bytes(name, dash + 1, name.len() as int) {
        name.subrange(0, dash)
    } else {
        name
    }
}

/// Whether the license at `licensee` meets a requirement for the license
/// at `required`.
///
/// The same license always does. Another one does only where the
/// requirement accepts later versions: then the two matching names must be
/// the same once a version at their end is taken off, and the licensee's
/// must not sort before the required one. A GFDL license with invariants never meets one
/// without, nor the other way round.
pub open spec fn license_meets(licensee: usize, required: usize, or_later: bool) -> bool {
    licensee == required || (or_later && {
        let (have, have_invariants) = matching_name(licensee);
        let (want, want_invariants) = matching_name(required);
        &&& have_invariants == want_invariants
        &&& base_prefix(have) == base_prefix(want)
        &&& bytes_le(want, have)
    })
}

/// Whether a licensee satisfies a license requirement.
///
/// The two licenses must be of the same kind. References must be the same;
/// licenses of the list must meet as [`license_meets`] says. The additions
/// must be the same, or both absent.
pub open spec fn satisfied(licensee: LicenseReqView, req: LicenseReqView) -> bool {
    &&& match (licensee.license, req.license) {
        (LicenseItemView::Spdx { id: a, .. }, LicenseItemView::Spdx { id: b, or_later }) => {
            license_meets(a, b, or_later)
        },
        (LicenseItemView::Other(a), LicenseItemView::Other(b)) => a == b,
        _ => false,
    }
    &&& req.addition == licensee.addition
}

/// Whether the license at `id` is a GFDL license marked `-no-invariants`.
pub open spec fn is_no_invariants(id: usize) -> bool {
    &&& license_has(id, IS_GNU)
    &&& has_prefix(license_bytes(id), "GFDL".spec_bytes())
    &&& has_suffix(without_gnu_suffix(license_bytes(id)), "-no-invariants".spec_bytes())
}

/// How parsing a licensee ends: with what it holds, or with a reason and the
/// bytes the reason is about.
pub enum LicenseeOutcome {
    Parsed(LicenseReqView),
    Failed { reason: ReasonView, start: int, end: int },
}

/// The license of a licensee, from its first token.
pub open spec fn licensee_license(token: TokenView) -> Option<LicenseItemView> {
    match token {
        TokenView::Spdx(id) => if is_no_invariants(id) {
            None
        } else {
            Some(LicenseItemView::Spdx { id, or_later: false })
        },
        TokenView::LicenseRef { doc_ref, lic_ref } => Some(
            LicenseItemView::Other(LicenseRefView { doc_ref, lic_ref }),
        ),
        _ => None,
    }
}

/// The addition of a licensee, from the token after `WITH`.
pub open spec fn licensee_addition(token: TokenView) -> Option<AdditionItemView> {
    match token {
        TokenView::Exception(id) => Some(AdditionItemView::Spdx(id)),
        TokenView::AdditionRef { doc_ref, add_ref } => Some(
            AdditionItemView::Other(AdditionRefView { doc_ref, add_ref }),
        ),
        _ => None,
    }
}

/// What is parsed after the license of a licensee, from `pos` on: nothing,
/// or `WITH` and an addition. Whatever follows the addition is not looked
/// at.
pub open spec fn licensee_tail(
    text: Seq<u8>,
    mode: ParseMode,
    license: LicenseItemView,
    pos: int,
) -> LicenseeOutcome {
    match lex_step(text, mode, pos) {
        LexStep::End => LicenseeOutcome::Parsed(LicenseReqView { license, addition: None }),
        LexStep::Fail { reason, start, end } => LicenseeOutcome::Failed { reason, start, end },
        LexStep::Token { token: TokenView::With, start, end } => match lex_step(text, mode, end) {
            LexStep::End => LicenseeOutcome::Failed { reason: ReasonView::Empty, start, end },
            LexStep::Fail { reason, start, end } => LicenseeOutcome::Failed { reason, start, end },
            LexStep::Token { token, start, end } => match licensee_addition(token) {
                Some(addition) => LicenseeOutcome::Parsed(
                    LicenseReqView { license, addition: Some(addition) },
                ),
                None => LicenseeOutcome::Failed {
                    reason: ReasonView::Unexpected(expected_addition()),
                    start,
                    end,
                },
            },
        },
        LexStep::Token { token, start, end } => LicenseeOutcome::Failed {
            reason: ReasonView::Unexpected(expected_with()),
            start,
            end,
        },
    }
}

/// How parsing `text` as a licensee ends.
///
/// The text must begin with a license: one of the list, but no GFDL
/// license marked `-no-invariants`, or a license reference. After it may
/// stand `WITH` and an addition. An empty text fails as `Empty` over the
/// whole text, a `WITH` with nothing behind it as `Empty` at the `WITH`.
pub open spec fn licensee_outcome(text: Seq<u8>, mode: ParseMode) -> LicenseeOutcome {
    match lex_step(text, mode, 0) {
        LexStep::End => LicenseeOutcome::Failed {
            reason: ReasonView::Empty,
            start: 0,
            end: text.len() as int,
        },
        LexStep::Fail { reason, start, end } => LicenseeOutcome::Failed { reason, start, end },
        LexStep::Token { token, start, end } => match licensee_license(token) {
            None => LicenseeOutcome::Failed {
                reason: ReasonView::Unexpected(expected_license()),
                start,
                end,
            },
            Some(license) => licensee_tail(text, mode, license, end),
        },
    }
}

/// An error about the bytes of `original` from `start` to `end`.
pub fn error_at(original: &str, reason: Reason, start: usize, end: usize) -> (r: ParseError)
    ensures
        r.original@ == original@,
        r.span.start == start,
        r.span.end == end,
        r.reason == reason,
{
    ParseError { original: original.to_owned(), span: start..end, reason }
}

/// A copy of an optional string slice.
pub fn own_text(s: Option<&str>) -> (r: Option<String>)
    ensures
        crate::requirement::text_of(r) == crate::lexer::slice_text(s),
{
    match s {
        Some(s) => Some(s.to_owned()),
        None => None,
    }
}

/// The bytes of `name` without the GNU suffix `-only` or `-or-later`.
pub fn strip_gnu_suffix(name: &[u8]) -> (r: &[u8])
    ensures
        r@ == without_gnu_suffix(name@),
{
    let only = "-only".as_bytes();
    let later = "-or-later".as_bytes();
    if ends_with(name, only) {
        slice_subrange(name, 0, name.len() - only.len())
    } else if ends_with(name, later) {
        slice_subrange(name, 0, name.len() - later.len())
    } else {
        assert(name@.subrange(0, name@.len() as int) =~= name@);
        slice_subrange(name, 0, name.len())
    }
}

/// The name by which a license is matched, and whether it is a GFDL
/// license with invariants.
pub fn name_for_matching(id: LicenseId) -> (r: (&'static [u8], bool))
    ensures
        r.0@ == matching_name(id.position()).0,
        r.1 == matching_name(id.position()).1,
{
    let name = id.name().as_bytes();
    if !id.is_gnu() {
        (name, false)
    } else {
        let bare = strip_gnu_suffix(name);
        let invariants = "-invariants".as_bytes();
        if starts_with(bare, "GFDL".as_bytes()) && ends_with(bare, invariants) {
            (slice_subrange(bare, 0, bare.len() - invariants.len()), true)
        } else {
            (bare, false)
        }
    }
}

/// The name without its version, where the version comes last.
pub fn base_of(name: &[u8]) -> (r: &[u8])
    ensures
        r@ == base_prefix(name@),
{
    let dash = find_last_dash(name);
    if dash >= name.len() {
        return name;
    }
    let mut i = dash + 1;
    while i < name.len()
        invariant
            dash == last_dash(name@),
            dash < i <= name.len(),
            all_version_bytes(name@, dash + 1, i as int),
        decreases name.len() - i,
    {
        let b = name[i];
        if !(b == 0x2e || (0x30 <= b && b <= 0x39)) {
            assert(!is_version_byte(name@[i as int]));
            return name;
        }
        i += 1;
    }
    slice_subrange(name, 0, dash)
}

/// Whether a license meets a requirement for another one.
pub fn meets(licensee: LicenseId, required: LicenseId, or_later: bool) -> (r: bool)
    ensures
        r == license_meets(licensee.position(), required.position(), or_later),
{
    if licensee.same(required) {
        return true;
    }
    if !or_later {
        return false;
    }
    let (have, have_invariants) = name_for_matching(licensee);
    let (want, want_invariants) = name_for_matching(required);
    if have_invariants != want_invariants {
        return false;
    }
    bytes_eq(base_of(have), base_of(want)) && le_bytes(want, have)
}

impl View for Licensee {
    type V = LicenseReqView;

    open spec fn view(&self) -> LicenseReqView {
        self.req()@
    }
}

impl Licensee {
    #[verifier::type_invariant]
    spec fn exact_version(self) -> bool {
        !(self.inner.license matches LicenseItem::Spdx { or_later: true, .. })
    }

    /// The license and the addition of the licensee, as a requirement.
    pub closed spec fn req(self) -> LicenseReq {
        self.inner
    }

    /// Creates a licensee from its component parts.
    ///
    /// SPDX's `or_later` only applies to the license holder(s), not the
    /// licensee: a license of the list must come without it.
    #[must_use]
    pub fn new(license: LicenseItem, addition: Option<AdditionItem>) -> (r: Licensee)
        requires
            !(license matches LicenseItem::Spdx { or_later: true, .. }),
        ensures
            r.req() == (LicenseReq { license, addition }),
    {
        Licensee { inner: LicenseReq { license, addition } }
    }

    /// See [`Self::parse_mode`], this is a short-hand for parsing in the
    /// strict mode.
    pub fn parse(original: &str) -> (r: Result<Licensee, ParseError>)
        ensures
            match licensee_outcome(original.spec_bytes(), crate::lexer::strict_mode()) {
                LicenseeOutcome::Parsed(req) => r matches Ok(l) && l@ == req,
                LicenseeOutcome::Failed { reason, start, end } => r matches Err(e) && e.reason@
                    == reason && e.span.start == start && e.span.end == end && e.original@
                    == original@,
            },
    {
        Licensee::parse_mode(original, ParseMode::strict())
    }

    /// Parses an simplified version of an SPDX license expression that can
    /// contain at most 1 valid SPDX license with an optional additional text
    /// joined by a `WITH`.
    pub fn parse_mode(original: &str, mode: ParseMode) -> (r: Result<Licensee, ParseError>)
        ensures
            match licensee_outcome(original.spec_bytes(), mode) {
                LicenseeOutcome::Parsed(req) => r matches Ok(l) && l@ == req,
                LicenseeOutcome::Failed { reason, start, end } => r matches Err(e) && e.reason@
                    == reason && e.span.start == start && e.span.end == end && e.original@
                    == original@,
            },
    {
        let mut lexer = Lexer::new_mode(original, mode);
        let first = match lexer.next() {
            None => {
                return Err(error_at(original, Reason::Empty, 0, original.as_bytes().len()));
            },
            Some(Err(e)) => {
                return Err(e);
            },
            Some(Ok(t)) => t,
        };
        let license = match first.token {
            Token::Spdx(id) => {
                if id.is_gnu() && starts_with(id.name().as_bytes(), "GFDL".as_bytes()) && ends_with(
                    strip_gnu_suffix(id.name().as_bytes()),
                    "-no-invariants".as_bytes(),
                ) {
                    return Err(
                        error_at(
                            original,
                            Reason::Unexpected(expect_license()),
                            first.span.start,
                            first.span.end,
                        ),
                    );
                }
                LicenseItem::Spdx { id, or_later: false }
            },
            Token::LicenseRef { doc_ref, lic_ref } => LicenseItem::Other(
                Box::new(LicenseRef { doc_ref: own_text(doc_ref), lic_ref: lic_ref.to_owned() }),
            ),
            _ => {
                return Err(
                    error_at(
                        original,
                        Reason::Unexpected(expect_license()),
                        first.span.start,
                        first.span.end,
                    ),
                );
            },
        };
        let second = match lexer.next() {
            None => {
                return Ok(Licensee { inner: LicenseReq { license, addition: None } });
            },
            Some(Err(e)) => {
                return Err(e);
            },
            Some(Ok(t)) => t,
        };
        match second.token {
            Token::With => {},
            _ => {
                return Err(
                    error_at(
                        original,
                        Reason::Unexpected(expect_with()),
                        second.span.start,
                        second.span.end,
                    ),
                );
            },
        }
        let third = match lexer.next() {
            None => {
                return Err(
                    error_at(original, Reason::Empty, second.span.start, second.span.end),
                );
            },
            Some(Err(e)) => {
                return Err(e);
            },
            Some(Ok(t)) => t,
        };
        let addition = match third.token {
            Token::Exception(id) => AdditionItem::Spdx(id),
            Token::AdditionRef { doc_ref, add_ref } => AdditionItem::Other(
                Box::new(AdditionRef { doc_ref: own_text(doc_ref), add_ref: add_ref.to_owned() }),
            ),
            _ => {
                return Err(
                    error_at(
                        original,
                        Reason::Unexpected(expect_addition()),
                        third.span.start,
                        third.span.end,
                    ),
                );
            },
        };
        Ok(Licensee { inner: LicenseReq { license, addition: Some(addition) } })
    }

    /// Determines whether the specified license requirement is satisfied by
    /// this license (+addition)
    #[must_use]
    pub fn satisfies(&self, req: &LicenseReq) -> (r: bool)
        ensures
            r == satisfied(self@, req@),
    {
        let license_ok = match (&self.inner.license, &req.license) {
            (LicenseItem::Spdx { id: a, .. }, LicenseItem::Spdx { id: b, or_later }) => meets(
                *a,
                *b,
                *or_later,
            ),
            (LicenseItem::Other(a), LicenseItem::Other(b)) => a.same(b),
            _ => false,
        };
        license_ok && same_addition(&req.addition, &self.inner.addition)
    }

    /// The license and the addition of the licensee, as a requirement.
    #[must_use]
    pub fn into_req(self) -> (r: LicenseReq)
        ensures
            r == self.req(),
            !(r.license matches LicenseItem::Spdx { or_later: true, .. }),
    {
        proof {
            use_type_invariant(&self);
        }
        self.inner
    }

    /// The license and the addition of the licensee, as a requirement.
    pub fn as_ref(&self) -> (r: &LicenseReq)
        ensures
            *r == self.req(),
            !(r.license matches LicenseItem::Spdx { or_later: true, .. }),
    {
        proof {
            use_type_invariant(self);
        }
        &self.inner
    }

    /// Whether the two licensees hold the same.
    pub fn same(&self, other: &Licensee) -> (r: bool)
        ensures
            r == (self@ == other@),
    {
        self.inner.same(&other.inner)
    }

    /// A copy of the licensee.
    pub fn duplicate(&self) -> (r: Licensee)
        ensures
            r == *self,
    {
        proof {
            use_type_invariant(self);
        }
        Licensee { inner: self.inner.duplicate() }
    }

    /// The licensee as it is written.
    pub fn to_string(&self) -> (r: String)
        ensures
            r@ == crate::requirement::render_req(self@),
    {
        self.inner.to_string()
    }
}

impl core::str::FromStr for Licensee {
    type Err = ParseError;

    /// Parses the text in the strict mode, as [`Licensee::parse`] does.
    fn from_str(s: &str) -> (r: Result<Licensee, ParseError>)
        ensures
            match licensee_outcome(s.spec_bytes(), crate::lexer::strict_mode()) {
                LicenseeOutcome::Parsed(req) => r matches Ok(l) && l@ == req,
                LicenseeOutcome::Failed { reason, start, end } => r matches Err(e) && e.reason@
                    == reason && e.span.start == start && e.span.end == end && e.original@ == s@,
            },
    {
        Licensee::parse(s)
    }
}

impl Clone for Licensee {
    fn clone(&self) -> (r: Licensee)
        ensures
            r == *self,
    {
        self.duplicate()
    }
}

} // verus!
