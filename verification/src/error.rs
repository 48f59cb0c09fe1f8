//! Error types

use std::ops::Range;
use vstd::prelude::*;
use vstd::string::*;

verus! {

/// The particular reason for a `ParseError`
#[derive(Debug, PartialEq, Eq)]
pub enum Reason {
    /// The specified license short-identifier was not
    /// found the SPDX list
    UnknownLicense,
    /// The specified exception short-identifier was not
    /// found the SPDX list
    UnknownException,
    /// The characters are not valid in an SPDX license expression
    InvalidCharacters,
    /// An opening parens was unmatched with a closing parens
    UnclosedParens,
    /// A closing parens was unmatched with an opening parens
    UnopenedParens,
    /// The expression does not contain any valid terms
    Empty,
    /// Found an unexpected term, which wasn't one of the
    /// expected terms that is listed
    Unexpected(&'static [&'static str]),
    /// A + was found after whitespace, which is not allowed
    /// by the SPDX spec
    SeparatedPlus,
    /// When lexing, a term was found that was
    /// 1. Not a license short-id
    /// 2. Not an exception short-id
    /// 3. Not a document/license ref
    /// 4. Not an AND, OR, or WITH
    UnknownTerm,
    /// GNU suffix licenses don't allow `+` because they already have
    /// the `-or-later` suffix to denote that
    GnuNoPlus,
    /// A `+` was added to a GNU license that was specified as `-only` or `-or-later`
    GnuPlusWithSuffix,
    /// A deprecated license id was used
    DeprecatedLicenseId,
}

/// An error related to parsing of an SPDX license expression
/// or identifier
#[derive(Debug, PartialEq, Eq)]
pub struct ParseError {
    /// The string that was attempting to be parsed
    pub original: String,
    /// The range of characters in the original string that result
    /// in this error
    pub span: Range<usize>,
    /// The specific reason for the error
    pub reason: Reason,
}

/// What a [`Reason`] says; the expected terms stand as their texts.
pub enum ReasonView {
    UnknownLicense,
    UnknownException,
    InvalidCharacters,
    UnclosedParens,
    UnopenedParens,
    Empty,
    Unexpected(Seq<Seq<char>>),
    SeparatedPlus,
    UnknownTerm,
    GnuNoPlus,
    GnuPlusWithSuffix,
    DeprecatedLicenseId,
}

/// The texts of a list of terms.
pub open spec fn words(list: &[&str]) -> Seq<Seq<char>> {
    Seq::new(list@.len(), |i: int| list@[i]@)
}

impl View for Reason {
    type V = ReasonView;

    open spec fn view(&self) -> ReasonView {
        match *self {
            Reason::UnknownLicense => ReasonView::UnknownLicense,
            Reason::UnknownException => ReasonView::UnknownException,
            Reason::InvalidCharacters => ReasonView::InvalidCharacters,
            Reason::UnclosedParens => ReasonView::UnclosedParens,
            Reason::UnopenedParens => ReasonView::UnopenedParens,
            Reason::Empty => ReasonView::Empty,
            Reason::Unexpected(list) => ReasonView::Unexpected(words(list)),
            Reason::SeparatedPlus => ReasonView::SeparatedPlus,
            Reason::UnknownTerm => ReasonView::UnknownTerm,
            Reason::GnuNoPlus => ReasonView::GnuNoPlus,
            Reason::GnuPlusWithSuffix => ReasonView::GnuPlusWithSuffix,
            Reason::DeprecatedLicenseId => ReasonView::DeprecatedLicenseId,
        }
    }
}

/// A license or an opening parenthesis, as a list of expected terms.
pub open spec fn expected_operand() -> Seq<Seq<char>> {
    seq!["<license>"@, "("@]
}

/// A license or an opening parenthesis, as a list of expected terms.
pub fn expect_operand() -> (r: &'static [&'static str])
    ensures
        words(r) == expected_operand(),
{
    let r: &'static [&'static str] = &["<license>", "("];
    assert(words(r) =~= expected_operand());
    r
}

/// What may follow a closing parenthesis, as a list of expected terms.
pub open spec fn expected_after_close() -> Seq<Seq<char>> {
    seq!["AND"@, "OR"@]
}

/// What may follow a closing parenthesis, as a list of expected terms.
pub fn expect_after_close() -> (r: &'static [&'static str])
    ensures
        words(r) == expected_after_close(),
{
    let r: &'static [&'static str] = &["AND", "OR"];
    assert(words(r) =~= expected_after_close());
    r
}

/// What may follow an addition, as a list of expected terms.
pub open spec fn expected_after_addition() -> Seq<Seq<char>> {
    seq!["AND"@, "OR"@, ")"@]
}

/// What may follow an addition, as a list of expected terms.
pub fn expect_after_addition() -> (r: &'static [&'static str])
    ensures
        words(r) == expected_after_addition(),
{
    let r: &'static [&'static str] = &["AND", "OR", ")"];
    assert(words(r) =~= expected_after_addition());
    r
}

/// What may follow a license of the list, as a list of expected terms.
pub open spec fn expected_after_license() -> Seq<Seq<char>> {
    seq!["AND"@, "OR"@, "WITH"@, ")"@, "+"@]
}

/// What may follow a license of the list, as a list of expected terms.
pub fn expect_after_license() -> (r: &'static [&'static str])
    ensures
        words(r) == expected_after_license(),
{
    let r: &'static [&'static str] = &["AND", "OR", "WITH", ")", "+"];
    assert(words(r) =~= expected_after_license());
    r
}

/// What may follow a license reference or a `+`, as a list of expected terms.
pub open spec fn expected_after_ref() -> Seq<Seq<char>> {
    seq!["AND"@, "OR"@, "WITH"@, ")"@]
}

/// What may follow a license reference or a `+`, as a list of expected terms.
pub fn expect_after_ref() -> (r: &'static [&'static str])
    ensures
        words(r) == expected_after_ref(),
{
    let r: &'static [&'static str] = &["AND", "OR", "WITH", ")"];
    assert(words(r) =~= expected_after_ref());
    r
}

/// An addition, as a list of expected terms.
pub open spec fn expected_addition() -> Seq<Seq<char>> {
    seq!["<addition>"@]
}

/// An addition, as a list of expected terms.
pub fn expect_addition() -> (r: &'static [&'static str])
    ensures
        words(r) == expected_addition(),
{
    let r: &'static [&'static str] = &["<addition>"];
    assert(words(r) =~= expected_addition());
    r
}

/// A license, as a list of expected terms.
pub open spec fn expected_license() -> Seq<Seq<char>> {
    seq!["<license>"@]
}

/// A license, as a list of expected terms.
pub fn expect_license() -> (r: &'static [&'static str])
    ensures
        words(r) == expected_license(),
{
    let r: &'static [&'static str] = &["<license>"];
    assert(words(r) =~= expected_license());
    r
}

/// The `WITH` operator, as a list of expected terms.
pub open spec fn expected_with() -> Seq<Seq<char>> {
    seq!["WITH"@]
}

/// The `WITH` operator, as a list of expected terms.
pub fn expect_with() -> (r: &'static [&'static str])
    ensures
        words(r) == expected_with(),
{
    let r: &'static [&'static str] = &["WITH"];
    assert(words(r) =~= expected_with());
    r
}

/// The short description of a reason.
pub open spec fn description_of(reason: ReasonView) -> Seq<char> {
    match reason {
        ReasonView::UnknownLicense => "unknown license id"@,
        ReasonView::UnknownException => "unknown exception id"@,
        ReasonView::InvalidCharacters => "invalid character(s)"@,
        ReasonView::UnclosedParens => "unclosed parens"@,
        ReasonView::UnopenedParens => "unopened parens"@,
        ReasonView::Empty => "empty expression"@,
        ReasonView::Unexpected(_) => "unexpected term"@,
        ReasonView::SeparatedPlus => "`+` must not follow whitespace"@,
        ReasonView::UnknownTerm => "unknown term"@,
        ReasonView::GnuNoPlus => "a GNU license was followed by a `+`"@,
        ReasonView::GnuPlusWithSuffix => "a GNU license was followed by a `+` even though it ended in `-only` or `-or-later`"@,
        ReasonView::DeprecatedLicenseId => "a deprecated license identifier was used"@,
    }
}

/// The terms of `list` from position `from` on, each between backquotes,
/// with `, ` before each but the very first of the list.
pub open spec fn quoted_from(list: Seq<Seq<char>>, from: int) -> Seq<char>
    decreases list.len() - from,
{
    if from < 0 || from >= list.len() {
        Seq::empty()
    } else {
        (if from > 0 {
            ", "@
        } else {
            Seq::empty()
        }) + "`"@ + list[from] + "`"@ + quoted_from(list, from + 1)
    }
}

/// The message of a reason.
pub open spec fn message_of(reason: ReasonView) -> Seq<char> {
    match reason {
        ReasonView::Unexpected(list) => if list.len() > 1 {
            "expected one of "@ + quoted_from(list, 0) + " here"@
        } else if list.len() == 0 {
            "the term was not expected here"@
        } else {
            "expected a `"@ + list[0] + "` here"@
        },
        _ => description_of(reason),
    }
}

/// `n` times the text `unit`.
pub open spec fn repeated(unit: Seq<char>, n: int) -> Seq<char>
    decreases n,
{
    if n <= 0 {
        Seq::empty()
    } else {
        repeated(unit, n - 1) + unit
    }
}

/// The report of an error: the text that was parsed, then a line that
/// points at the place and says what is wrong. An unclosed parenthesis is
/// marked with one `-`, an unopened one with one `^`, anything else with a
/// `^` under each byte of its span.
pub open spec fn report_of(original: Seq<char>, start: int, end: int, reason: ReasonView) -> Seq<
    char,
> {
    let head = original + "\n"@ + repeated(" "@, start);
    match reason {
        ReasonView::UnclosedParens => head + "- "@ + message_of(reason),
        ReasonView::UnopenedParens => head + "^ "@ + message_of(reason),
        _ => head + repeated("^"@, end - start) + " "@ + message_of(reason),
    }
}

/// Appends `n` times the text `unit`.
fn append_repeated(out: &mut String, unit: &str, n: usize)
    ensures
        final(out)@ == old(out)@ + repeated(unit@, n as int),
{
    let mut i: usize = 0;
    assert(out@ =~= old(out)@ + repeated(unit@, 0));
    while i < n
        invariant
            i <= n,
            out@ == old(out)@ + repeated(unit@, i as int),
        decreases n - i,
    {
        out.append(unit);
        i += 1;
        assert(out@ =~= old(out)@ + repeated(unit@, i as int));
    }
}

impl Reason {
    /// A short description of the reason.
    pub fn description(&self) -> (r: &'static str)
        ensures
            r@ == description_of(self@),
    {
        match self {
            Reason::UnknownLicense => "unknown license id",
            Reason::UnknownException => "unknown exception id",
            Reason::InvalidCharacters => "invalid character(s)",
            Reason::UnclosedParens => "unclosed parens",
            Reason::UnopenedParens => "unopened parens",
            Reason::Empty => "empty expression",
            Reason::Unexpected(_) => "unexpected term",
            Reason::SeparatedPlus => "`+` must not follow whitespace",
            Reason::UnknownTerm => "unknown term",
            Reason::GnuNoPlus => "a GNU license was followed by a `+`",
            Reason::GnuPlusWithSuffix => "a GNU license was followed by a `+` even though it ended in `-only` or `-or-later`",
            Reason::DeprecatedLicenseId => "a deprecated license identifier was used",
        }
    }

    /// The message of the reason: its description, or, where a term was
    /// unexpected, the terms that were expected in its place.
    pub fn to_string(&self) -> (r: String)
        ensures
            r@ == message_of(self@),
    {
        let mut out = String::new();
        match self {
            Reason::Unexpected(expected) => {
                let ghost list = words(expected);
                if expected.len() > 1 {
                    out.append("expected one of ");
                    let ghost head = out@;
                    let mut i: usize = expected.len();
                    let mut tail = String::new();
                    assert(tail@ =~= quoted_from(list, i as int));
                    while i > 0
                        invariant
                            i <= expected.len(),
                            list == words(expected),
                            tail@ == quoted_from(list, i as int),
                        decreases i,
                    {
                        i -= 1;
                        let mut item = String::new();
                        if i > 0 {
                            item.append(", ");
                        }
                        item.append("`");
                        item.append(expected[i]);
                        item.append("`");
                        item.append(tail.as_str());
                        assert(item@ =~= quoted_from(list, i as int));
                        tail = item;
                    }
                    out.append(tail.as_str());
                    out.append(" here");
                    assert(out@ =~= message_of(self@));
                } else if expected.len() == 0 {
                    out.append("the term was not expected here");
                    assert(out@ =~= message_of(self@));
                } else {
                    out.append("expected a `");
                    out.append(expected[0]);
                    out.append("` here");
                    assert(out@ =~= message_of(self@));
                }
            },
            _ => {
                out.append(self.description());
                assert(out@ =~= message_of(self@));
            },
        }
        out
    }
}

impl ParseError {
    /// The report of the error: the text that was parsed, and under it a
    /// marker at the place of the error with the reason.
    pub fn to_string(&self) -> (r: String)
        ensures
            r@ == report_of(
                self.original@,
                self.span.start as int,
                self.span.end as int,
                self.reason@,
            ),
    {
        let mut out = String::new();
        out.append(self.original.as_str());
        out.append("\n");
        append_repeated(&mut out, " ", self.span.start);
        let message = self.reason.to_string();
        match &self.reason {
            Reason::UnclosedParens => {
                out.append("- ");
            },
            Reason::UnopenedParens => {
                out.append("^ ");
            },
            _ => {
                let n = if self.span.end >= self.span.start {
                    self.span.end - self.span.start
                } else {
                    0
                };
                append_repeated(&mut out, "^", n);
                out.append(" ");
            },
        }
        out.append(message.as_str());
        assert(out@ =~= report_of(
            self.original@,
            self.span.start as int,
            self.span.end as int,
            self.reason@,
        ));
        out
    }
}

} // verus!
