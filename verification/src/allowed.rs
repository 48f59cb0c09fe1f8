//! A license that is allowed as it stands.

use crate::error::{
    expect_license, expect_with, expected_license, expected_with, ParseError, Reason, ReasonView,
};
use crate::lexer::{lex_step, strict_mode, LexStep, Lexer, Token, TokenView};
use crate::licensee::{error_at, own_text};
use crate::registry::{license_bytes, ExceptionId};
use crate::requirement::{
    AdditionItem, AdditionItemView, LicenseItem, LicenseItemView, LicenseRef, LicenseRefView,
    LicenseReq, LicenseReqView,
};
use crate::text::{bytes_eq, bytes_le, find_last_dash, last_dash, le_bytes};
use vstd::prelude::*;
use vstd::slice::slice_subrange;
use vstd::string::*;

verus! {

/// A convenience wrapper for a license and optional exception
/// that can be checked against a license requirement to see
/// if it satisfies the requirement
///
/// The licenses are matched by their identifiers as they are written: the
/// GNU licenses are treated like any other.
#[derive(Debug, PartialEq, Eq, PartialOrd, Ord)]
pub struct AllowedLicense {
    pub license: LicenseItem,
    pub exception: Option<ExceptionId>,
}

/// What an [`AllowedLicense`] holds.
pub struct AllowedView {
    pub license: LicenseItemView,
    pub exception: Option<usize>,
}

/// The position of an optional exception.
pub open spec fn exception_of(e: Option<ExceptionId>) -> Option<usize> {
    match e {
        Some(e) => Some(e.position()),
        None => None,
    }
}

impl View for AllowedLicense {
    type V = AllowedView;

    open spec fn view(&self) -> AllowedView {
        AllowedView { license: self.license@, exception: exception_of(self.exception) }
    }
}

/// How parsing an allowed license ends.
pub enum AllowedOutcome {
    Parsed(AllowedView),
    Failed { reason: ReasonView, start: int, end: int },
}

/// The term `<exception>`, as a list of expected terms.
pub open spec fn expected_exception() -> Seq<Seq<char>> {
    seq!["<exception>"@]
}

/// The term `<exception>`, as a list of expected terms.
pub fn expect_exception() -> (r: &'static [&'static str])
    ensures
        crate::error::words(r) == expected_exception(),
{
    let r: &'static [&'static str] = &["<exception>"];
    assert(crate::error::words(r) =~= expected_exception());
    r
}

/// The license that a token names.
pub open spec fn allowed_license(token: TokenView) -> Option<LicenseItemView> {
    match token {
        TokenView::Spdx(id) => Some(LicenseItemView::Spdx { id, or_later: false }),
        TokenView::LicenseRef { doc_ref, lic_ref } => Some(
            LicenseItemView::Other(LicenseRefView { doc_ref, lic_ref }),
        ),
        _ => None,
    }
}

/// What is parsed after the license, from `pos` on: nothing, or `WITH` and
/// an exception of the list. Whatever follows the exception is not looked
/// at.
pub open spec fn allowed_tail(text: Seq<u8>, license: LicenseItemView, pos: int) -> AllowedOutcome {
    match lex_step(text, strict_mode(), pos) {
        LexStep::End => AllowedOutcome::Parsed(AllowedView { license, exception: None }),
        LexStep::Fail { reason, start, end } => AllowedOutcome::Failed { reason, start, end },
        LexStep::Token { token: TokenView::With, start, end } => match lex_step(
            text,
            strict_mode(),
            end,
        ) {
            LexStep::End => AllowedOutcome::Failed { reason: ReasonView::Empty, start, end },
            LexStep::Fail { reason, start, end } => AllowedOutcome::Failed { reason, start, end },
            LexStep::Token { token: TokenView::Exception(id), .. } => AllowedOutcome::Parsed(
                AllowedView { license, exception: Some(id) },
            ),
            LexStep::Token { start, end, .. } => AllowedOutcome::Failed {
                reason: ReasonView::Unexpected(expected_exception()),
                start,
                end,
            },
        },
        LexStep::Token { start, end, .. } => AllowedOutcome::Failed {
            reason: ReasonView::Unexpected(expected_with()),
            start,
            end,
        },
    }
}

/// How parsing `text` as an allowed license ends: the text is lexed in
/// the strict mode and must hold a license, after which `WITH` and an
/// exception of the list may stand.
pub open spec fn allowed_outcome(text: Seq<u8>) -> AllowedOutcome {
    match lex_step(text, strict_mode(), 0) {
        LexStep::End => AllowedOutcome::Failed {
            reason: ReasonView::Empty,
            start: 0,
            end: text.len() as int,
        },
        LexStep::Fail { reason, start, end } => AllowedOutcome::Failed { reason, start, end },
        LexStep::Token { token, start, end } => match allowed_license(token) {
            None => AllowedOutcome::Failed {
                reason: ReasonView::Unexpected(expected_license()),
                start,
                end,
            },
            Some(license) => allowed_tail(text, license, end),
        },
    }
}

/// What stands before the last dash of `name`; the whole name where it has
/// no dash.
pub open spec fn before_last_dash(name: Seq<u8>) -> Seq<u8> {
    name.subrange(0, last_dash(name))
}

/// Whether an allowed license satisfies a requirement.
///
/// The two licenses must be of the same kind. References must be the same.
/// Of two licenses of the list, the same one always satisfies; another one
/// does where the requirement accepts later versions, the two identifiers
/// are the same before their last dash, and the allowed one does not sort
/// before the required one. The requirement's addition must be the allowed
/// exception, or both absent.
pub open spec fn allowed_satisfied(allowed: AllowedView, req: LicenseReqView) -> bool {
    &&& match (allowed.license, req.license) {
        (LicenseItemView::Spdx { id: a, .. }, LicenseItemView::Spdx { id: b, or_later }) => a == b
            || (or_later && before_last_dash(license_bytes(a)) == before_last_dash(license_bytes(b))
            && bytes_le(license_bytes(b), license_bytes(a))),
        (LicenseItemView::Other(a), LicenseItemView::Other(b)) => a == b,
        _ => false,
    }
    &&& match (req.addition, allowed.exception) {
        (Some(AdditionItemView::Spdx(a)), Some(b)) => a == b,
        (None, None) => true,
        _ => false,
    }
}

impl AllowedLicense {
    /// Parses an simplified version of an SPDX license expression that
    /// can contain at most 1 valid SDPX license with an optional exception
    /// joined by a WITH.
    ///
    /// eg `<license-id>` | `<license-id> WITH <exception-id>`
    pub fn parse(original: &str) -> (r: Result<AllowedLicense, ParseError>)
        ensures
            match allowed_outcome(original.spec_bytes()) {
                AllowedOutcome::Parsed(allowed) => r matches Ok(a) && a@ == allowed,
                AllowedOutcome::Failed { reason, start, end } => r matches Err(e) && e.reason@
                    == reason && e.span.start == start && e.span.end == end && e.original@
                    == original@,
            },
    {
        let mut lexer = Lexer::new(original);
        let first = match lexer.next() {
            None => {
                return Err(error_at(original, Reason::Empty, 0, original.as_bytes().len()));
            },
            Some(Err(e)) => {
                return Err(e);
            },
            Some(Ok(t)) => t,
        };
        let license = match first.token {
            Token::Spdx(id) => LicenseItem::Spdx { id, or_later: false },
            Token::LicenseRef { doc_ref, lic_ref } => LicenseItem::Other(
                Box::new(LicenseRef { doc_ref: own_text(doc_ref), lic_ref: lic_ref.to_owned() }),
            ),
            _ => {
                return Err(
                    error_at(
                        original,
                        Reason::Unexpected(expect_license()),
                        first.span.start,
                        first.span.end,
                    ),
                );
            },
        };
        let second = match lexer.next() {
            None => {
                return Ok(AllowedLicense { license, exception: None });
            },
            Some(Err(e)) => {
                return Err(e);
            },
            Some(Ok(t)) => t,
        };
        match second.token {
            Token::With => {},
            _ => {
                return Err(
                    error_at(
                        original,
                        Reason::Unexpected(expect_with()),
                        second.span.start,
                        second.span.end,
                    ),
                );
            },
        }
        let third = match lexer.next() {
            None => {
                return Err(
                    error_at(original, Reason::Empty, second.span.start, second.span.end),
                );
            },
            Some(Err(e)) => {
                return Err(e);
            },
            Some(Ok(t)) => t,
        };
        match third.token {
            Token::Exception(id) => Ok(AllowedLicense { license, exception: Some(id) }),
            _ => Err(
                error_at(
                    original,
                    Reason::Unexpected(expect_exception()),
                    third.span.start,
                    third.span.end,
                ),
            ),
        }
    }

    /// Determines whether the specified license requirement is satisfied by
    /// this license (+exception)
    pub fn satisfies(&self, req: &LicenseReq) -> (r: bool)
        ensures
            r == allowed_satisfied(self@, req@),
    {
        let license_ok = match (&self.license, &req.license) {
            (LicenseItem::Spdx { id: a, .. }, LicenseItem::Spdx { id: b, or_later }) => {
                if a.same(*b) {
                    true
                } else if *or_later {
                    let have = a.name().as_bytes();
                    let want = b.name().as_bytes();
                    let have_base = slice_subrange(have, 0, find_last_dash(have));
                    let want_base = slice_subrange(want, 0, find_last_dash(want));
                    bytes_eq(have_base, want_base) && le_bytes(want, have)
                } else {
                    false
                }
            },
            (LicenseItem::Other(a), LicenseItem::Other(b)) => a.same(b),
            _ => false,
        };
        let exception_ok = match (&req.addition, &self.exception) {
            (Some(AdditionItem::Spdx(a)), Some(b)) => a.same(*b),
            (None, None) => true,
            _ => false,
        };
        license_ok && exception_ok
    }
}

} // verus!
