//! Rewriting a loosely written expression into its canonical text.

use crate::error::{ParseError, ReasonView};
use crate::expression::Expression;
use crate::identifiers::{exception_name, license_name, IS_GNU};
use crate::lexer::{
    lax_mode, lemma_token_bounds, lex_step, LexStep, Lexer, ParseMode, Token, TokenView,
};
use crate::registry::license_has;
use crate::requirement::render_ref;
use crate::text::str_eq;
use vstd::prelude::*;
use vstd::string::*;

verus! {

/// How canonicalizing ends: with the canonical text, or with the first
/// error of the lexer.
pub enum CanonicalOutcome {
    Text(Seq<char>),
    Failed { reason: ReasonView, start: int, end: int },
}

/// How a token other than `+` is written in canonical text.
pub open spec fn token_text(token: TokenView) -> Seq<char> {
    match token {
        TokenView::Spdx(id) => license_name(id)@,
        TokenView::And => " AND "@,
        TokenView::Or => " OR "@,
        TokenView::With => " WITH "@,
        TokenView::Plus => "+"@,
        TokenView::OpenParen => "("@,
        TokenView::CloseParen => ")"@,
        TokenView::Exception(id) => exception_name(id)@,
        TokenView::LicenseRef { doc_ref, lic_ref } => render_ref(doc_ref, "LicenseRef-"@, lic_ref),
        TokenView::AdditionRef { doc_ref, add_ref } => render_ref(
            doc_ref,
            "AdditionRef-"@,
            add_ref,
        ),
        TokenView::Unknown(text) => text,
    }
}

/// Whether the token is a GNU license.
pub open spec fn is_gnu_token(token: TokenView) -> bool {
    token matches TokenView::Spdx(id) && license_has(id, IS_GNU)
}

/// What a token adds to the canonical text, given whether the token
/// before it was a GNU license (`gnu`).
///
/// A `+` directly behind a GNU license becomes `-or-later`. The operators
/// are written in upper case between two spaces, `/` as `OR`; identifiers
/// as the list has them.
pub open spec fn token_adds(token: TokenView, gnu: bool) -> Seq<char> {
    if token is Plus && gnu {
        "-or-later"@
    } else {
        token_text(token)
    }
}

/// `head` before the text of an outcome.
pub open spec fn prepend(head: Seq<char>, outcome: CanonicalOutcome) -> CanonicalOutcome {
    match outcome {
        CanonicalOutcome::Text(rest) => CanonicalOutcome::Text(head + rest),
        failed => failed,
    }
}

/// The canonical text of what stands from `pos` on.
#[verifier::opaque]
pub open spec fn canonical_from(text: Seq<u8>, pos: int, gnu: bool) -> CanonicalOutcome
    decreases text.len() - pos,
    when 0 <= pos <= text.len()
{
    match lex_step(text, lax_mode(), pos) {
        LexStep::End => CanonicalOutcome::Text(Seq::empty()),
        LexStep::Fail { reason, start, end } => CanonicalOutcome::Failed { reason, start, end },
        LexStep::Token { token, start, end } => {
            proof {
                lemma_token_bounds(text, lax_mode(), pos);
            }
            prepend(token_adds(token, gnu), canonical_from(text, end, is_gnu_token(token)))
        },
    }
}

/// The canonical text from a position on, by what is lexed there.
pub proof fn lemma_canonical_unfold(text: Seq<u8>, pos: int, gnu: bool)
    requires
        0 <= pos <= text.len(),
    ensures
        canonical_from(text, pos, gnu) == (match lex_step(text, lax_mode(), pos) {
            LexStep::End => CanonicalOutcome::Text(Seq::empty()),
            LexStep::Fail { reason, start, end } => CanonicalOutcome::Failed { reason, start, end },
            LexStep::Token { token, start, end } => prepend(
                token_adds(token, gnu),
                canonical_from(text, end, is_gnu_token(token)),
            ),
        }),
{
    reveal_with_fuel(canonical_from, 2);
    lemma_token_bounds(text, lax_mode(), pos);
}

/// The canonical text of `text`: what its tokens, lexed in the lax mode,
/// add one after the other.
pub open spec fn canonical_text(text: Seq<u8>) -> CanonicalOutcome {
    canonical_from(text, 0, false)
}

/// Appends what a reference is written as.
fn append_ref(out: &mut String, doc_ref: Option<&str>, kind: &str, name: &str)
    ensures
        final(out)@ == old(out)@ + render_ref(crate::lexer::slice_text(doc_ref), kind@, name@),
{
    match doc_ref {
        Some(d) => {
            out.append("DocumentRef-");
            out.append(d);
            out.append(":");
        },
        None => {},
    }
    out.append(kind);
    out.append(name);
    assert(out@ =~= old(out)@ + render_ref(crate::lexer::slice_text(doc_ref), kind@, name@));
}

/// Appends what a token adds to the canonical text.
fn append_token(out: &mut String, token: &Token<'_>, gnu: bool)
    ensures
        final(out)@ == old(out)@ + token_adds(token@, gnu),
{
    match token {
        Token::Spdx(id) => {
            out.append(id.name());
        },
        Token::And => {
            out.append(" AND ");
        },
        Token::Or => {
            out.append(" OR ");
        },
        Token::With => {
            out.append(" WITH ");
        },
        Token::Plus => {
            if gnu {
                out.append("-or-later");
            } else {
                out.append("+");
            }
        },
        Token::OpenParen => {
            out.append("(");
        },
        Token::CloseParen => {
            out.append(")");
        },
        Token::Exception(id) => {
            out.append(id.name());
        },
        Token::LicenseRef { doc_ref, lic_ref } => {
            append_ref(out, *doc_ref, "LicenseRef-", lic_ref);
        },
        Token::AdditionRef { doc_ref, add_ref } => {
            append_ref(out, *doc_ref, "AdditionRef-", add_ref);
        },
        Token::Unknown(text) => {
            out.append(text);
        },
    }
}

/// Whether the token is a GNU license.
fn gnu_token(token: &Token<'_>) -> (r: bool)
    ensures
        r == is_gnu_token(token@),
{
    match token {
        Token::Spdx(id) => id.is_gnu(),
        _ => false,
    }
}

impl Expression {
    /// Canonicalizes the input expression into a form that can be parsed
    /// in the strict mode.
    ///
    /// ## Transforms
    ///
    /// 1. '/' is replaced with ' OR '
    /// 1. Lower-cased operators ('or', 'and', 'with') are upper-cased
    /// 1. '+' is transformed to `-or-later` for GNU licenses
    /// 1. Invalid/imprecise license identifiers (eg. `apache2`) are replaced
    ///    with their valid identifiers
    ///
    /// Nothing else is changed: an identifier of the list is written as the
    /// list has it, a deprecated one too.
    ///
    /// If the provided expression is not modified then `None` is returned
    ///
    /// Note that this only does fixup of otherwise valid expressions, passing
    /// the resulting string to [`Expression::parse`] can still result in
    /// additional parse errors, eg. unbalanced parentheses
    pub fn canonicalize(original: &str) -> (r: Result<Option<String>, ParseError>)
        ensures
            match canonical_text(original.spec_bytes()) {
                CanonicalOutcome::Text(text) => r matches Ok(changed) && (match changed {
                    Some(s) => s@ == text && text != original@,
                    None => text == original@,
                }),
                CanonicalOutcome::Failed { reason, start, end } => r matches Err(e) && e.reason@
                    == reason && e.span.start == start && e.span.end == end && e.original@
                    == original@,
            },
    {
        let ghost text = original.spec_bytes();
        let mut can = String::new();
        let mut lexer = Lexer::new_mode(original, ParseMode::lax());
        let mut gnu = false;
        loop
            invariant
                text == original.spec_bytes(),
                lexer.text() == original,
                lexer.mode() == lax_mode(),
                0 <= lexer.position() <= text.len(),
                canonical_text(text) == prepend(can@, canonical_from(text, lexer.position(), gnu)),
            decreases text.len() - lexer.position(),
        {
            let ghost before = can@;
            let ghost pos = lexer.position();
            proof {
                lemma_canonical_unfold(text, pos, gnu);
            }
            match lexer.next() {
                None => {
                    assert(before + Seq::<char>::empty() =~= before);
                    if str_eq(can.as_str(), original) {
                        return Ok(None);
                    } else {
                        return Ok(Some(can));
                    }
                },
                Some(Err(e)) => {
                    return Err(e);
                },
                Some(Ok(t)) => {
                    append_token(&mut can, &t.token, gnu);
                    proof {
                        let rest = canonical_from(text, t.span.end as int, is_gnu_token(t.token@));
                        match rest {
                            CanonicalOutcome::Text(tail) => {
                                assert(before + (token_adds(t.token@, gnu) + tail) =~= (before
                                    + token_adds(t.token@, gnu)) + tail);
                            },
                            _ => {},
                        }
                    }
                    gnu = gnu_token(&t.token);
                },
            }
        }
    }
}

} // verus!
