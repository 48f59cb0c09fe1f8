//! The shunting-yard construction of an expression.
//!
//! The tokens of the text are taken one by one. Requirements go to the
//! output at once; `AND`, `OR` and `(` wait on a stack until what they join
//! is complete. A `+` and what follows `WITH` change the requirement that
//! was put out last. The output is the expression in postfix order.

use crate::collections::{node_items, op_items, NodeList, OpStack};
use crate::error::{
    expect_addition, expect_after_addition, expect_after_close, expect_after_license,
    expect_after_ref, expect_operand, expected_addition, expected_after_addition,
    expected_after_close, expected_after_license, expected_after_ref, expected_operand,
    ParseError, Reason, ReasonView,
};
use crate::expression::{
    depth, operands_suffice, well_formed, views, ExprNode, Expression, ExpressionReq, NodeView,
    Operator,
};
use crate::identifiers::IS_GNU;
use crate::lexer::{
    lemma_token_bounds, lex_step, strict_mode, LexStep, Lexer, ParseMode, Token,
    TokenView,
};
use crate::licensee::{error_at, own_text};
use crate::registry::license_has;
use crate::requirement::{
    AdditionItem, AdditionItemView, AdditionRef, AdditionRefView, LicenseItem, LicenseItemView,
    LicenseRef, LicenseRefView, LicenseReq, LicenseReqView,
};
use vstd::prelude::*;
use vstd::string::*;

verus! {

/// What the operator stack of a parse holds.
#[derive(Clone, Copy, Debug, PartialEq, Eq)]
pub enum Marker {
    And,
    Or,
    Open,
}

/// An entry of the operator stack, with the bytes of the text it came from.
#[derive(Clone, Copy, Debug)]
pub struct OpAndSpan {
    pub op: Marker,
    pub start: usize,
    pub end: usize,
}

/// What a parse has seen last.
#[derive(Clone, Copy, Debug, PartialEq, Eq)]
pub enum Last {
    Start,
    Spdx,
    LicenseRef,
    Plus,
    With,
    Exception,
    AdditionRef,
    And,
    Or,
    OpenParen,
    CloseParen,
}

/// The state of a parse between two tokens.
pub struct ParserState {
    /// What was seen last
    pub last: Last,
    /// The operators and open parentheses that wait, the oldest first
    pub ops: Seq<OpAndSpan>,
    /// The output so far
    pub queue: Seq<NodeView>,
}

/// What a token makes of the state of a parse.
pub enum Step {
    Next(ParserState),
    Stop { reason: ReasonView, start: usize, end: usize },
}

/// How a parse ends: with the nodes of the expression in postfix order, or
/// with a reason and the bytes the reason is about.
pub enum ParseOutcome {
    Parsed(Seq<NodeView>),
    Failed { reason: ReasonView, start: int, end: int },
}

/// The state before the first token.
pub open spec fn initial_state() -> ParserState {
    ParserState { last: Last::Start, ops: Seq::empty(), queue: Seq::empty() }
}

/// A license or `(` may come next: at the start and after `AND`, `OR`, `(`.
pub open spec fn wants_operand(last: Last) -> bool {
    last is Start || last is And || last is Or || last is OpenParen
}

/// An operand is complete: after a license, a `+`, an addition or `)`.
pub open spec fn has_operand(last: Last) -> bool {
    last is Spdx || last is LicenseRef || last is Plus || last is Exception || last is AdditionRef
        || last is CloseParen
}

/// The terms that may follow what was seen last.
pub open spec fn expected_after(last: Last) -> Seq<Seq<char>> {
    match last {
        Last::Start | Last::And | Last::Or | Last::OpenParen => expected_operand(),
        Last::CloseParen => expected_after_close(),
        Last::Exception | Last::AdditionRef => expected_after_addition(),
        Last::Spdx => expected_after_license(),
        Last::LicenseRef | Last::Plus => expected_after_ref(),
        Last::With => expected_addition(),
    }
}

/// The node for a requirement that was just read: no later version, no
/// addition.
pub open spec fn fresh_req(license: LicenseItemView, start: usize, end: usize) -> NodeView {
    NodeView::Req {
        req: LicenseReqView { license, addition: None },
        start: start as u32,
        end: end as u32,
    }
}

/// The operator that a marker stands for; an open parenthesis stands for
/// none.
pub open spec fn operator_of(marker: Marker) -> Operator {
    match marker {
        Marker::And => Operator::And,
        _ => Operator::Or,
    }
}

/// Whether the waiting operator `top` is put out before `new` is put on
/// the stack: it binds at least as tightly. `AND` binds more tightly than
/// `OR`, and both group from the left.
pub open spec fn yields_to(top: Marker, new: Operator) -> bool {
    match top {
        Marker::And => true,
        Marker::Or => new is Or,
        Marker::Open => false,
    }
}

/// Puts out the waiting operators that yield to `new`, the newest first, up
/// to an open parenthesis.
pub open spec fn emit_tighter(ops: Seq<OpAndSpan>, queue: Seq<NodeView>, new: Operator) -> (
    Seq<OpAndSpan>,
    Seq<NodeView>,
)
    decreases ops.len(),
{
    if ops.len() > 0 && yields_to(ops.last().op, new) {
        emit_tighter(ops.drop_last(), queue.push(NodeView::Op(operator_of(ops.last().op))), new)
    } else {
        (ops, queue)
    }
}

/// Puts out the waiting operators, the newest first, down to the newest
/// open parenthesis, which is dropped. There is no result where no open
/// parenthesis waits.
pub open spec fn emit_group(ops: Seq<OpAndSpan>, queue: Seq<NodeView>) -> Option<
    (Seq<OpAndSpan>, Seq<NodeView>),
>
    decreases ops.len(),
{
    if ops.len() == 0 {
        None
    } else if ops.last().op is Open {
        Some((ops.drop_last(), queue))
    } else {
        emit_group(ops.drop_last(), queue.push(NodeView::Op(operator_of(ops.last().op))))
    }
}

/// Puts out all the waiting operators, the newest first. An open
/// parenthesis that still waits ends this: it is the result then.
pub open spec fn emit_rest(ops: Seq<OpAndSpan>, queue: Seq<NodeView>) -> Result<
    Seq<NodeView>,
    OpAndSpan,
>
    decreases ops.len(),
{
    if ops.len() == 0 {
        Ok(queue)
    } else if ops.last().op is Open {
        Err(ops.last())
    } else {
        emit_rest(ops.drop_last(), queue.push(NodeView::Op(operator_of(ops.last().op))))
    }
}

/// The node with later versions allowed, where it is a requirement for a
/// license of the list to which `mode` allows a `+`. The result is the
/// reason where `mode` does not allow it, and nothing for any other node.
pub open spec fn with_or_later(node: NodeView, mode: ParseMode) -> Option<
    Result<NodeView, ReasonView>,
> {
    match node {
        NodeView::Req {
            req: LicenseReqView { license: LicenseItemView::Spdx { id, .. }, addition },
            start,
            end,
        } => if !mode.allow_postfix_plus_on_gpl && license_has(id, IS_GNU) {
            Some(Err(ReasonView::GnuNoPlus))
        } else {
            Some(
                Ok(
                    NodeView::Req {
                        req: LicenseReqView {
                            license: LicenseItemView::Spdx { id, or_later: true },
                            addition,
                        },
                        start,
                        end,
                    },
                ),
            )
        },
        _ => None,
    }
}

/// The node with `addition` as its addition, where it is a requirement.
pub open spec fn with_addition(node: NodeView, addition: AdditionItemView) -> Option<NodeView> {
    match node {
        NodeView::Req { req, start, end } => Some(
            NodeView::Req {
                req: LicenseReqView { license: req.license, addition: Some(addition) },
                start,
                end,
            },
        ),
        _ => None,
    }
}

/// The state after a license was read.
pub open spec fn take_license(
    st: ParserState,
    license: LicenseItemView,
    last: Last,
    start: usize,
    end: usize,
) -> Step {
    if wants_operand(st.last) {
        Step::Next(
            ParserState { last, ops: st.ops, queue: st.queue.push(fresh_req(license, start, end)) },
        )
    } else {
        Step::Stop { reason: ReasonView::Unexpected(expected_after(st.last)), start, end }
    }
}

/// The state after a `+` was read: it must follow a license of the list
/// directly, and it changes the requirement that was put out last.
pub open spec fn take_plus(st: ParserState, mode: ParseMode, start: usize, end: usize) -> Step {
    if st.last is Spdx && st.queue.len() > 0 && with_or_later(st.queue.last(), mode) is Some {
        match with_or_later(st.queue.last(), mode)->0 {
            Ok(node) => Step::Next(
                ParserState {
                    last: Last::Plus,
                    ops: st.ops,
                    queue: st.queue.drop_last().push(node),
                },
            ),
            Err(reason) => Step::Stop { reason, start, end },
        }
    } else {
        Step::Stop { reason: ReasonView::Unexpected(expected_after(st.last)), start, end }
    }
}

/// The state after an addition was read: it must follow `WITH` directly,
/// and it changes the requirement that was put out last.
pub open spec fn take_addition(
    st: ParserState,
    addition: AdditionItemView,
    last: Last,
    start: usize,
    end: usize,
) -> Step {
    if st.last is With && st.queue.len() > 0 && with_addition(st.queue.last(), addition) is Some {
        Step::Next(
            ParserState {
                last,
                ops: st.ops,
                queue: st.queue.drop_last().push(with_addition(st.queue.last(), addition)->0),
            },
        )
    } else {
        Step::Stop { reason: ReasonView::Unexpected(expected_after(st.last)), start, end }
    }
}

/// The state after `AND` or `OR` was read: the waiting operators that
/// yield to it are put out, then it waits itself.
pub open spec fn take_operator(st: ParserState, op: Operator, start: usize, end: usize) -> Step {
    if has_operand(st.last) {
        let (ops, queue) = emit_tighter(st.ops, st.queue, op);
        let marker = match op {
            Operator::And => Marker::And,
            Operator::Or => Marker::Or,
        };
        Step::Next(
            ParserState {
                last: match op {
                    Operator::And => Last::And,
                    Operator::Or => Last::Or,
                },
                ops: ops.push(OpAndSpan { op: marker, start, end }),
                queue,
            },
        )
    } else {
        Step::Stop { reason: ReasonView::Unexpected(expected_after(st.last)), start, end }
    }
}

/// The state after `)` was read: the operators of the group are put out.
pub open spec fn take_close(st: ParserState, start: usize, end: usize) -> Step {
    if has_operand(st.last) {
        match emit_group(st.ops, st.queue) {
            Some((ops, queue)) => Step::Next(ParserState { last: Last::CloseParen, ops, queue }),
            None => Step::Stop { reason: ReasonView::UnopenedParens, start, end },
        }
    } else {
        Step::Stop { reason: ReasonView::Unexpected(expected_after(st.last)), start, end }
    }
}

/// What the token from `start` to `end` makes of the state `st`.
///
/// What may follow what: a license or `(` stands at the start or after
/// `AND`, `OR`, `(`; a `+` directly after a license of the list, but after
/// a GNU license only where the mode allows it; `WITH` after a license or
/// a `+`; an addition after `WITH`; `AND`, `OR` and `)` after a license, a
/// `+`, an addition or `)`. Anything else is unexpected, but for an
/// unknown term where a license or an addition belongs: that is an unknown
/// license or exception.
pub open spec fn advance(
    st: ParserState,
    mode: ParseMode,
    token: TokenView,
    start: usize,
    end: usize,
) -> Step {
    match token {
        TokenView::Spdx(id) => take_license(
            st,
            LicenseItemView::Spdx { id, or_later: false },
            Last::Spdx,
            start,
            end,
        ),
        TokenView::LicenseRef { doc_ref, lic_ref } => take_license(
            st,
            LicenseItemView::Other(LicenseRefView { doc_ref, lic_ref }),
            Last::LicenseRef,
            start,
            end,
        ),
        TokenView::Plus => take_plus(st, mode, start, end),
        TokenView::With => if st.last is Spdx || st.last is LicenseRef || st.last is Plus {
            Step::Next(ParserState { last: Last::With, ops: st.ops, queue: st.queue })
        } else {
            Step::Stop { reason: ReasonView::Unexpected(expected_after(st.last)), start, end }
        },
        TokenView::Exception(id) => take_addition(
            st,
            AdditionItemView::Spdx(id),
            Last::Exception,
            start,
            end,
        ),
        TokenView::AdditionRef { doc_ref, add_ref } => take_addition(
            st,
            AdditionItemView::Other(AdditionRefView { doc_ref, add_ref }),
            Last::AdditionRef,
            start,
            end,
        ),
        TokenView::And => take_operator(st, Operator::And, start, end),
        TokenView::Or => take_operator(st, Operator::Or, start, end),
        TokenView::OpenParen => if wants_operand(st.last) {
            Step::Next(
                ParserState {
                    last: Last::OpenParen,
                    ops: st.ops.push(OpAndSpan { op: Marker::Open, start, end }),
                    queue: st.queue,
                },
            )
        } else {
            Step::Stop { reason: ReasonView::Unexpected(expected_after(st.last)), start, end }
        },
        TokenView::CloseParen => take_close(st, start, end),
        TokenView::Unknown(_) => if wants_operand(st.last) {
            Step::Stop { reason: ReasonView::UnknownLicense, start, end }
        } else if st.last is With {
            Step::Stop { reason: ReasonView::UnknownException, start, end }
        } else {
            Step::Stop { reason: ReasonView::Unexpected(expected_after(st.last)), start, end }
        },
    }
}

/// How the parse ends when the text of `len` bytes is used up.
///
/// A text without any token is empty. The last token must complete an
/// operand. The operators that wait are put out; an open parenthesis that
/// still waits was never closed.
pub open spec fn finish(st: ParserState, len: int) -> ParseOutcome {
    if st.last is Start {
        ParseOutcome::Failed { reason: ReasonView::Empty, start: 0, end: len }
    } else if !has_operand(st.last) {
        ParseOutcome::Failed {
            reason: ReasonView::Unexpected(expected_after(st.last)),
            start: len,
            end: len,
        }
    } else {
        match emit_rest(st.ops, st.queue) {
            Ok(queue) => ParseOutcome::Parsed(queue),
            Err(open) => ParseOutcome::Failed {
                reason: ReasonView::UnclosedParens,
                start: open.start as int,
                end: open.end as int,
            },
        }
    }
}

/// How the parse of `text` ends that stands at `pos` in the state `st`.
/// The first error ends it.
pub open spec fn parse_from(text: Seq<u8>, mode: ParseMode, pos: int, st: ParserState) -> ParseOutcome
    decreases text.len() - pos,
    when 0 <= pos <= text.len()
{
    match lex_step(text, mode, pos) {
        LexStep::End => finish(st, text.len() as int),
        LexStep::Fail { reason, start, end } => ParseOutcome::Failed { reason, start, end },
        LexStep::Token { token, start, end } => {
            proof {
                lemma_token_bounds(text, mode, pos);
            }
            match advance(st, mode, token, start as usize, end as usize) {
                Step::Stop { reason, start, end } => ParseOutcome::Failed {
                    reason,
                    start: start as int,
                    end: end as int,
                },
                Step::Next(next) => parse_from(text, mode, end, next),
            }
        },
    }
}

/// How the parse of `text` ends.
pub open spec fn parse_outcome(text: Seq<u8>, mode: ParseMode) -> ParseOutcome {
    parse_from(text, mode, 0, initial_state())
}

/// The number of operators among the entries of the stack.
pub open spec fn waiting(ops: Seq<OpAndSpan>) -> int
    decreases ops.len(),
{
    if ops.len() == 0 {
        0
    } else if ops.last().op is Open {
        waiting(ops.drop_last())
    } else {
        waiting(ops.drop_last()) + 1
    }
}

/// What holds of the state of a parse between any two tokens: no operator
/// of the output lacks an operand, and the output holds as many operands
/// more than operators as operators wait, and one more where an operand is
/// complete.
pub open spec fn balanced(st: ParserState) -> bool {
    &&& operands_suffice(st.queue)
    &&& depth(st.queue) == waiting(st.ops) + (if wants_operand(st.last) {
        0int
    } else {
        1int
    })
}

/// A requirement may follow any output of which no operator lacks an
/// operand.
pub proof fn lemma_push_req(queue: Seq<NodeView>, node: NodeView)
    requires
        operands_suffice(queue),
        node is Req,
    ensures
        operands_suffice(queue.push(node)),
        depth(queue.push(node)) == depth(queue) + 1,
        depth(queue) >= 0,
{
    let next = queue.push(node);
    assert(next.drop_last() =~= queue);
    assert(next.last() == node);
    if queue.len() > 0 {
        assert(queue.take(queue.len() as int) =~= queue);
        assert(depth(queue.take(queue.len() as int)) >= 1);
    }
    assert(depth(queue) >= 0);
    assert(depth(next) == depth(queue) + 1);
    assert forall|k: int| 1 <= k <= next.len() implies depth(#[trigger] next.take(k)) >= 1 by {
        if k <= queue.len() {
            assert(next.take(k) =~= queue.take(k));
            assert(depth(queue.take(k)) >= 1);
        } else {
            assert(next.take(k) =~= next);
        }
    }
}

/// An operator may follow an output that holds two operands more than
/// operators.
pub proof fn lemma_push_op(queue: Seq<NodeView>, op: Operator)
    requires
        operands_suffice(queue),
        depth(queue) >= 2,
    ensures
        operands_suffice(queue.push(NodeView::Op(op))),
        depth(queue.push(NodeView::Op(op))) == depth(queue) - 1,
{
    let next = queue.push(NodeView::Op(op));
    assert(next.drop_last() =~= queue);
    assert forall|k: int| 1 <= k <= next.len() implies depth(#[trigger] next.take(k)) >= 1 by {
        if k <= queue.len() {
            assert(next.take(k) =~= queue.take(k));
        } else {
            assert(next.take(k) =~= next);
        }
    }
}

/// A requirement in the last place may be changed for another.
pub proof fn lemma_replace_last(queue: Seq<NodeView>, node: NodeView)
    requires
        operands_suffice(queue),
        queue.len() > 0,
        queue.last() is Req,
        node is Req,
    ensures
        operands_suffice(queue.drop_last().push(node)),
        depth(queue.drop_last().push(node)) == depth(queue),
{
    let before = queue.drop_last();
    assert forall|k: int| 1 <= k <= before.len() implies depth(#[trigger] before.take(k))
        >= 1 by {
        assert(before.take(k) =~= queue.take(k));
    }
    lemma_push_req(before, node);
}

/// Putting out operators that yield keeps the balance.
pub proof fn lemma_emit_tighter(ops: Seq<OpAndSpan>, queue: Seq<NodeView>, new: Operator)
    requires
        operands_suffice(queue),
        depth(queue) == waiting(ops) + 1,
    ensures
        operands_suffice(emit_tighter(ops, queue, new).1),
        depth(emit_tighter(ops, queue, new).1) == waiting(emit_tighter(ops, queue, new).0) + 1,
    decreases ops.len(),
{
    if ops.len() > 0 && yields_to(ops.last().op, new) {
        lemma_waiting_nonnegative(ops.drop_last());
        lemma_push_op(queue, operator_of(ops.last().op));
        lemma_emit_tighter(
            ops.drop_last(),
            queue.push(NodeView::Op(operator_of(ops.last().op))),
            new,
        );
    }
}

/// The number of waiting operators is not negative.
pub proof fn lemma_waiting_nonnegative(ops: Seq<OpAndSpan>)
    ensures
        waiting(ops) >= 0,
    decreases ops.len(),
{
    if ops.len() > 0 {
        lemma_waiting_nonnegative(ops.drop_last());
    }
}

/// Putting out the operators of a group keeps the balance.
pub proof fn lemma_emit_group(ops: Seq<OpAndSpan>, queue: Seq<NodeView>)
    requires
        operands_suffice(queue),
        depth(queue) == waiting(ops) + 1,
    ensures
        emit_group(ops, queue) matches Some((rest, out)) ==> operands_suffice(out) && depth(out)
            == waiting(rest) + 1,
    decreases ops.len(),
{
    if ops.len() > 0 && !(ops.last().op is Open) {
        lemma_waiting_nonnegative(ops.drop_last());
        lemma_push_op(queue, operator_of(ops.last().op));
        lemma_emit_group(ops.drop_last(), queue.push(NodeView::Op(operator_of(ops.last().op))));
    }
}

/// Putting out all the operators that wait makes one expression.
pub proof fn lemma_emit_rest(ops: Seq<OpAndSpan>, queue: Seq<NodeView>)
    requires
        operands_suffice(queue),
        depth(queue) == waiting(ops) + 1,
    ensures
        emit_rest(ops, queue) matches Ok(out) ==> well_formed(out),
    decreases ops.len(),
{
    if ops.len() > 0 && !(ops.last().op is Open) {
        lemma_waiting_nonnegative(ops.drop_last());
        lemma_push_op(queue, operator_of(ops.last().op));
        lemma_emit_rest(ops.drop_last(), queue.push(NodeView::Op(operator_of(ops.last().op))));
    }
}

/// A token keeps the balance of the state.
pub proof fn lemma_advance_balanced(
    st: ParserState,
    mode: ParseMode,
    token: TokenView,
    start: usize,
    end: usize,
)
    requires
        balanced(st),
    ensures
        advance(st, mode, token, start, end) matches Step::Next(next) ==> balanced(next),
{
    match advance(st, mode, token, start, end) {
        Step::Stop { .. } => {},
        Step::Next(next) => {
            match token {
                TokenView::Spdx(id) => {
                    lemma_push_req(
                        st.queue,
                        fresh_req(LicenseItemView::Spdx { id, or_later: false }, start, end),
                    );
                },
                TokenView::LicenseRef { doc_ref, lic_ref } => {
                    lemma_push_req(
                        st.queue,
                        fresh_req(
                            LicenseItemView::Other(LicenseRefView { doc_ref, lic_ref }),
                            start,
                            end,
                        ),
                    );
                },
                TokenView::Plus => {
                    lemma_replace_last(st.queue, with_or_later(st.queue.last(), mode)->0->Ok_0);
                },
                TokenView::With => {},
                TokenView::Exception(id) => {
                    lemma_replace_last(
                        st.queue,
                        with_addition(st.queue.last(), AdditionItemView::Spdx(id))->0,
                    );
                },
                TokenView::AdditionRef { doc_ref, add_ref } => {
                    lemma_replace_last(
                        st.queue,
                        with_addition(
                            st.queue.last(),
                            AdditionItemView::Other(AdditionRefView { doc_ref, add_ref }),
                        )->0,
                    );
                },
                TokenView::And => {
                    lemma_emit_tighter(st.ops, st.queue, Operator::And);
                    let ops = emit_tighter(st.ops, st.queue, Operator::And).0;
                    assert(next.ops.drop_last() =~= ops);
                },
                TokenView::Or => {
                    lemma_emit_tighter(st.ops, st.queue, Operator::Or);
                    let ops = emit_tighter(st.ops, st.queue, Operator::Or).0;
                    assert(next.ops.drop_last() =~= ops);
                },
                TokenView::OpenParen => {
                    assert(next.ops.drop_last() =~= st.ops);
                },
                TokenView::CloseParen => {
                    lemma_emit_group(st.ops, st.queue);
                },
                TokenView::Unknown(_) => {},
            }
        },
    }
}

/// From a balanced state a parse that succeeds ends with one expression in
/// postfix order.
pub proof fn lemma_parse_from_well_formed(
    text: Seq<u8>,
    mode: ParseMode,
    pos: int,
    st: ParserState,
)
    requires
        0 <= pos <= text.len(),
        balanced(st),
    ensures
        parse_from(text, mode, pos, st) matches ParseOutcome::Parsed(nodes) ==> well_formed(nodes),
    decreases text.len() - pos,
{
    match lex_step(text, mode, pos) {
        LexStep::End => {
            if has_operand(st.last) {
                lemma_emit_rest(st.ops, st.queue);
            }
        },
        LexStep::Fail { .. } => {},
        LexStep::Token { token, start, end } => {
            lemma_token_bounds(text, mode, pos);
            lemma_advance_balanced(st, mode, token, start as usize, end as usize);
            match advance(st, mode, token, start as usize, end as usize) {
                Step::Stop { .. } => {},
                Step::Next(next) => {
                    lemma_parse_from_well_formed(text, mode, end, next);
                },
            }
        },
    }
}

/// Every expression that parsing yields is well-formed postfix: reading
/// its nodes in order, a counter that goes one up at each requirement and
/// one down at each operator never drops below 1, and ends at exactly 1.
pub proof fn lemma_parsed_is_postfix(text: Seq<u8>, mode: ParseMode)
    ensures
        parse_outcome(text, mode) matches ParseOutcome::Parsed(nodes) ==> well_formed(nodes),
{
    assert(operands_suffice(initial_state().queue)) by {
        assert forall|k: int| 1 <= k <= initial_state().queue.len() implies depth(
            #[trigger] initial_state().queue.take(k),
        ) >= 1 by {}
    }
    lemma_parse_from_well_formed(text, mode, 0, initial_state());
}

/// The low 32 bits of a position.
fn narrow(x: usize) -> (r: u32)
    ensures
        r == x as u32,
{
    #[verifier::truncate]
    (x as u32)
}

/// The reason for a token that may not follow what was seen last.
fn unexpected_after(last: Last) -> (r: Reason)
    ensures
        r@ == ReasonView::Unexpected(expected_after(last)),
{
    match last {
        Last::Start | Last::And | Last::Or | Last::OpenParen => Reason::Unexpected(expect_operand()),
        Last::CloseParen => Reason::Unexpected(expect_after_close()),
        Last::Exception | Last::AdditionRef => Reason::Unexpected(expect_after_addition()),
        Last::Spdx => Reason::Unexpected(expect_after_license()),
        Last::LicenseRef | Last::Plus => Reason::Unexpected(expect_after_ref()),
        Last::With => Reason::Unexpected(expect_addition()),
    }
}

/// Whether a license or `(` may come next.
fn may_start_operand(last: Last) -> (r: bool)
    ensures
        r == wants_operand(last),
{
    match last {
        Last::Start | Last::And | Last::Or | Last::OpenParen => true,
        _ => false,
    }
}

/// Whether an operand is complete.
fn operand_is_complete(last: Last) -> (r: bool)
    ensures
        r == has_operand(last),
{
    match last {
        Last::Spdx | Last::LicenseRef | Last::Plus | Last::Exception | Last::AdditionRef
        | Last::CloseParen => true,
        _ => false,
    }
}

/// Appends a node to the output.
fn put_out(queue: &mut NodeList, node: ExprNode)
    ensures
        node_items(*final(queue)) == node_items(*old(queue)).push(node),
        views(node_items(*final(queue))) == views(node_items(*old(queue))).push(node@),
{
    queue.push(node);
    assert(views(node_items(*queue)) =~= views(node_items(*old(queue))).push(node@));
}

/// Takes the newest waiting operator off the stack and puts it out.
fn put_out_top(ops: &mut OpStack, queue: &mut NodeList)
    requires
        op_items(*old(ops)).len() > 0,
    ensures
        op_items(*final(ops)) == op_items(*old(ops)).drop_last(),
        views(node_items(*final(queue))) == views(node_items(*old(queue))).push(
            NodeView::Op(operator_of(op_items(*old(ops)).last().op)),
        ),
{
    let top = ops.pop();
    let op = match top {
        Some(OpAndSpan { op: Marker::And, .. }) => Operator::And,
        _ => Operator::Or,
    };
    put_out(queue, ExprNode::Op(op));
}

/// Puts out the waiting operators that yield to `new`.
fn put_out_tighter(ops: &mut OpStack, queue: &mut NodeList, new: Operator)
    ensures
        (op_items(*final(ops)), views(node_items(*final(queue)))) == emit_tighter(
            op_items(*old(ops)),
            views(node_items(*old(queue))),
            new,
        ),
{
    loop
        invariant
            emit_tighter(op_items(*ops), views(node_items(*queue)), new) == emit_tighter(
                op_items(*old(ops)),
                views(node_items(*old(queue))),
                new,
            ),
        ensures
            (op_items(*ops), views(node_items(*queue))) == emit_tighter(
                op_items(*old(ops)),
                views(node_items(*old(queue))),
                new,
            ),
        decreases op_items(*ops).len(),
    {
        let entries = ops.as_slice();
        if entries.len() == 0 {
            break;
        }
        let yields = match entries[entries.len() - 1].op {
            Marker::And => true,
            Marker::Or => match new {
                Operator::Or => true,
                Operator::And => false,
            },
            Marker::Open => false,
        };
        if !yields {
            break;
        }
        put_out_top(ops, queue);
    }
}

/// Puts out the operators of the group that a `)` closes. Returns whether
/// the group was opened.
fn put_out_group(ops: &mut OpStack, queue: &mut NodeList) -> (found: bool)
    ensures
        match emit_group(op_items(*old(ops)), views(node_items(*old(queue)))) {
            Some((rest, out)) => found && op_items(*final(ops)) == rest && views(
                node_items(*final(queue)),
            ) == out,
            None => !found,
        },
{
    loop
        invariant
            emit_group(op_items(*ops), views(node_items(*queue))) == emit_group(
                op_items(*old(ops)),
                views(node_items(*old(queue))),
            ),
        decreases op_items(*ops).len(),
    {
        let entries = ops.as_slice();
        if entries.len() == 0 {
            return false;
        }
        match entries[entries.len() - 1].op {
            Marker::Open => {
                let _ = ops.pop();
                return true;
            },
            _ => {
                put_out_top(ops, queue);
            },
        }
    }
}

/// Puts out all the waiting operators. Returns the open parenthesis that
/// was met, if one was.
fn put_out_rest(ops: &mut OpStack, queue: &mut NodeList) -> (open: Option<OpAndSpan>)
    ensures
        match emit_rest(op_items(*old(ops)), views(node_items(*old(queue)))) {
            Ok(out) => open is None && views(node_items(*final(queue))) == out,
            Err(entry) => open == Some(entry),
        },
{
    loop
        invariant
            emit_rest(op_items(*ops), views(node_items(*queue))) == emit_rest(
                op_items(*old(ops)),
                views(node_items(*old(queue))),
            ),
        decreases op_items(*ops).len(),
    {
        let entries = ops.as_slice();
        if entries.len() == 0 {
            return None;
        }
        let top = entries[entries.len() - 1];
        match top.op {
            Marker::Open => {
                return Some(top);
            },
            _ => {
                put_out_top(ops, queue);
            },
        }
    }
}

/// Reads a license: a new requirement goes to the output.
fn read_license(
    last: Last,
    queue: &mut NodeList,
    license: LicenseItem,
    seen: Last,
    start: usize,
    end: usize,
) -> (r: Result<Last, Reason>)
    ensures
        match take_license(
            ParserState { last, ops: Seq::empty(), queue: views(node_items(*old(queue))) },
            license@,
            seen,
            start,
            end,
        ) {
            Step::Next(next) => r matches Ok(l) && l == next.last && views(
                node_items(*final(queue)),
            ) == next.queue,
            Step::Stop { reason, .. } => r matches Err(e) && e@ == reason,
        },
{
    if may_start_operand(last) {
        put_out(
            queue,
            ExprNode::Req(
                ExpressionReq {
                    req: LicenseReq { license, addition: None },
                    span: narrow(start)..narrow(end),
                },
            ),
        );
        Ok(seen)
    } else {
        Err(unexpected_after(last))
    }
}

/// Reads a `+`: the requirement that was put out last allows later
/// versions from now on.
fn read_plus(last: Last, queue: &mut NodeList, mode: ParseMode) -> (r: Result<Last, Reason>)
    ensures
        match take_plus(
            ParserState { last, ops: Seq::empty(), queue: views(node_items(*old(queue))) },
            mode,
            0,
            0,
        ) {
            Step::Next(next) => r matches Ok(l) && l == next.last && views(
                node_items(*final(queue)),
            ) == next.queue,
            Step::Stop { reason, .. } => r matches Err(e) && e@ == reason,
        },
{
    match last {
        Last::Spdx => {},
        _ => {
            return Err(unexpected_after(last));
        },
    }
    let ghost before = views(node_items(*queue));
    match queue.pop() {
        Some(ExprNode::Req(ExpressionReq { req: LicenseReq { license, addition }, span })) => {
            match license {
                LicenseItem::Spdx { id, .. } => {
                    if !mode.allow_postfix_plus_on_gpl && id.is_gnu() {
                        return Err(Reason::GnuNoPlus);
                    }
                    assert(views(node_items(*queue)) =~= before.drop_last());
                    put_out(
                        queue,
                        ExprNode::Req(
                            ExpressionReq {
                                req: LicenseReq {
                                    license: LicenseItem::Spdx { id, or_later: true },
                                    addition,
                                },
                                span,
                            },
                        ),
                    );
                    Ok(Last::Plus)
                },
                _ => Err(unexpected_after(last)),
            }
        },
        _ => Err(unexpected_after(last)),
    }
}

/// Reads an addition: the requirement that was put out last gets it.
fn read_addition(last: Last, queue: &mut NodeList, addition: AdditionItem, seen: Last) -> (r:
    Result<Last, Reason>)
    ensures
        match take_addition(
            ParserState { last, ops: Seq::empty(), queue: views(node_items(*old(queue))) },
            addition@,
            seen,
            0,
            0,
        ) {
            Step::Next(next) => r matches Ok(l) && l == next.last && views(
                node_items(*final(queue)),
            ) == next.queue,
            Step::Stop { reason, .. } => r matches Err(e) && e@ == reason,
        },
{
    match last {
        Last::With => {},
        _ => {
            return Err(unexpected_after(last));
        },
    }
    let ghost before = views(node_items(*queue));
    match queue.pop() {
        Some(ExprNode::Req(ExpressionReq { req: LicenseReq { license, .. }, span })) => {
            assert(views(node_items(*queue)) =~= before.drop_last());
            put_out(
                queue,
                ExprNode::Req(
                    ExpressionReq { req: LicenseReq { license, addition: Some(addition) }, span },
                ),
            );
            Ok(seen)
        },
        _ => Err(unexpected_after(last)),
    }
}

/// Reads `AND` or `OR`.
fn read_operator(
    last: Last,
    ops: &mut OpStack,
    queue: &mut NodeList,
    op: Operator,
    start: usize,
    end: usize,
) -> (r: Result<Last, Reason>)
    ensures
        match take_operator(
            ParserState {
                last,
                ops: op_items(*old(ops)),
                queue: views(node_items(*old(queue))),
            },
            op,
            start,
            end,
        ) {
            Step::Next(next) => r matches Ok(l) && l == next.last && op_items(*final(ops))
                == next.ops && views(node_items(*final(queue))) == next.queue,
            Step::Stop { reason, .. } => r matches Err(e) && e@ == reason,
        },
{
    if !operand_is_complete(last) {
        return Err(unexpected_after(last));
    }
    put_out_tighter(ops, queue, op);
    match op {
        Operator::And => {
            ops.push(OpAndSpan { op: Marker::And, start, end });
            Ok(Last::And)
        },
        Operator::Or => {
            ops.push(OpAndSpan { op: Marker::Or, start, end });
            Ok(Last::Or)
        },
    }
}

/// Reads one token.
fn read_token(
    last: Last,
    ops: &mut OpStack,
    queue: &mut NodeList,
    mode: ParseMode,
    token: Token<'_>,
    start: usize,
    end: usize,
) -> (r: Result<Last, Reason>)
    ensures
        match advance(
            ParserState {
                last,
                ops: op_items(*old(ops)),
                queue: views(node_items(*old(queue))),
            },
            mode,
            token@,
            start,
            end,
        ) {
            Step::Next(next) => r matches Ok(l) && l == next.last && op_items(*final(ops))
                == next.ops && views(node_items(*final(queue))) == next.queue,
            Step::Stop { reason, .. } => r matches Err(e) && e@ == reason,
        },
{
    match token {
        Token::Spdx(id) => read_license(
            last,
            queue,
            LicenseItem::Spdx { id, or_later: false },
            Last::Spdx,
            start,
            end,
        ),
        Token::LicenseRef { doc_ref, lic_ref } => read_license(
            last,
            queue,
            LicenseItem::Other(
                Box::new(LicenseRef { doc_ref: own_text(doc_ref), lic_ref: lic_ref.to_owned() }),
            ),
            Last::LicenseRef,
            start,
            end,
        ),
        Token::Plus => read_plus(last, queue, mode),
        Token::With => match last {
            Last::Spdx | Last::LicenseRef | Last::Plus => Ok(Last::With),
            _ => Err(unexpected_after(last)),
        },
        Token::Exception(id) => read_addition(last, queue, AdditionItem::Spdx(id), Last::Exception),
        Token::AdditionRef { doc_ref, add_ref } => read_addition(
            last,
            queue,
            AdditionItem::Other(
                Box::new(AdditionRef { doc_ref: own_text(doc_ref), add_ref: add_ref.to_owned() }),
            ),
            Last::AdditionRef,
        ),
        Token::And => read_operator(last, ops, queue, Operator::And, start, end),
        Token::Or => read_operator(last, ops, queue, Operator::Or, start, end),
        Token::OpenParen => {
            if may_start_operand(last) {
                ops.push(OpAndSpan { op: Marker::Open, start, end });
                Ok(Last::OpenParen)
            } else {
                Err(unexpected_after(last))
            }
        },
        Token::CloseParen => {
            if !operand_is_complete(last) {
                Err(unexpected_after(last))
            } else if put_out_group(ops, queue) {
                Ok(Last::CloseParen)
            } else {
                Err(Reason::UnopenedParens)
            }
        },
        Token::Unknown(_) => {
            if may_start_operand(last) {
                Err(Reason::UnknownLicense)
            } else {
                match last {
                    Last::With => Err(Reason::UnknownException),
                    _ => Err(unexpected_after(last)),
                }
            }
        },
    }
}

/// Ends a parse at the end of the text.
fn finish_parse(original: &str, last: Last, ops: OpStack, queue: NodeList) -> (r: Result<
    Expression,
    ParseError,
>)
    requires
        balanced(ParserState { last, ops: op_items(ops), queue: views(node_items(queue)) }),
    ensures
        match finish(
            ParserState { last, ops: op_items(ops), queue: views(node_items(queue)) },
            original.spec_bytes().len() as int,
        ) {
            ParseOutcome::Parsed(nodes) => r matches Ok(e) && e@ == nodes && e.source()
                == original@,
            ParseOutcome::Failed { reason, start, end } => r matches Err(e) && e.reason@ == reason
                && e.span.start == start && e.span.end == end && e.original@ == original@,
        },
{
    let len = original.as_bytes().len();
    match last {
        Last::Start => {
            return Err(error_at(original, Reason::Empty, 0, len));
        },
        _ => {},
    }
    if !operand_is_complete(last) {
        return Err(error_at(original, unexpected_after(last), len, len));
    }
    let mut ops = ops;
    let mut queue = queue;
    proof {
        lemma_emit_rest(op_items(ops), views(node_items(queue)));
    }
    match put_out_rest(&mut ops, &mut queue) {
        Some(open) => Err(error_at(original, Reason::UnclosedParens, open.start, open.end)),
        None => Ok(Expression::from_parts(queue, original.to_owned())),
    }
}

impl Expression {
    /// Given a license expression, attempts to parse and validate it as a valid
    /// SPDX expression, in the strict mode.
    ///
    /// The validation can fail for many reasons:
    /// * The expression contains invalid characters
    /// * An unknown/invalid license or exception identifier was found. Only
    ///   [SPDX short identifiers](https://spdx.org/ids) are allowed
    /// * The expression contained unbalanced parentheses
    /// * A license or exception immediately follows another license or exception, without
    ///   a valid AND, OR, or WITH operator separating them
    /// * An AND, OR, or WITH doesn't have a license or `)` preceding it
    ///
    /// The expression keeps the text as it is.
    pub fn parse(original: &str) -> (r: Result<Expression, ParseError>)
        ensures
            match parse_outcome(original.spec_bytes(), strict_mode()) {
                ParseOutcome::Parsed(nodes) => r matches Ok(e) && e@ == nodes && e.source()
                    == original@ && well_formed(e@),
                ParseOutcome::Failed { reason, start, end } => r matches Err(e) && e.reason@
                    == reason && e.span.start == start && e.span.end == end && e.original@
                    == original@,
            },
    {
        Expression::parse_mode(original, ParseMode::strict())
    }

    /// Parses an expression with the specified `ParseMode`. The lax mode
    /// permits some non-SPDX syntax, such as imprecise license names and
    /// "/" used instead of "OR" in expressions.
    ///
    /// The expression keeps the text as it is.
    pub fn parse_mode(original: &str, mode: ParseMode) -> (r: Result<Expression, ParseError>)
        ensures
            match parse_outcome(original.spec_bytes(), mode) {
                ParseOutcome::Parsed(nodes) => r matches Ok(e) && e@ == nodes && e.source()
                    == original@ && well_formed(e@),
                ParseOutcome::Failed { reason, start, end } => r matches Err(e) && e.reason@
                    == reason && e.span.start == start && e.span.end == end && e.original@
                    == original@,
            },
    {
        let ghost text = original.spec_bytes();
        let mut lexer = Lexer::new_mode(original, mode);
        let mut ops = OpStack::new();
        let mut queue = NodeList::new();
        let mut last = Last::Start;
        proof {
            assert(views(node_items(queue)) =~= initial_state().queue);
            lemma_parsed_is_postfix(text, mode);
            assert(operands_suffice(initial_state().queue)) by {
                assert forall|k: int| 1 <= k <= initial_state().queue.len() implies depth(
                    #[trigger] initial_state().queue.take(k),
                ) >= 1 by {}
            }
        }
        loop
            invariant
                text == original.spec_bytes(),
                lexer.text() == original,
                lexer.mode() == mode,
                0 <= lexer.position() <= text.len(),
                balanced(
                    ParserState { last, ops: op_items(ops), queue: views(node_items(queue)) },
                ),
                parse_outcome(text, mode) == parse_from(
                    text,
                    mode,
                    lexer.position(),
                    ParserState { last, ops: op_items(ops), queue: views(node_items(queue)) },
                ),
                parse_outcome(text, mode) matches ParseOutcome::Parsed(nodes) ==> well_formed(
                    nodes,
                ),
            decreases text.len() - lexer.position(),
        {
            let ghost st = ParserState {
                last,
                ops: op_items(ops),
                queue: views(node_items(queue)),
            };
            let ghost pos = lexer.position();
            match lexer.next() {
                None => {
                    return finish_parse(original, last, ops, queue);
                },
                Some(Err(e)) => {
                    return Err(e);
                },
                Some(Ok(t)) => {
                    proof {
                        lemma_advance_balanced(st, mode, t.token@, t.span.start, t.span.end);
                    }
                    let start = t.span.start;
                    let end = t.span.end;
                    match read_token(last, &mut ops, &mut queue, mode, t.token, start, end) {
                        Err(reason) => {
                            return Err(error_at(original, reason, start, end));
                        },
                        Ok(seen) => {
                            last = seen;
                        },
                    }
                },
            }
        }
    }
}

} // verus!
