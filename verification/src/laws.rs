//! What holds of every expression, stated over the functions that define
//! parsing and evaluation.

use crate::expression::parser::{
    advance, emit_group, emit_rest, emit_tighter, finish, fresh_req, initial_state, parse_from,
    parse_outcome, Marker, OpAndSpan, ParseOutcome, ParserState, Step,
};
use crate::expression::{
    answer_at, combine, eval_stack, evaluation, req_count, without_span, without_spans,
    NodeView, Operator,
};
use crate::lexer::{lemma_token_bounds, lex_step, LexStep, ParseMode, TokenView};
use crate::licensee::satisfied;
use crate::requirement::{AdditionItemView, LicenseItemView, LicenseRefView, LicenseReqView};
use vstd::prelude::*;

verus! {

/// The license that a token names, if it names one.
pub open spec fn license_of(token: TokenView) -> Option<LicenseItemView> {
    match token {
        TokenView::Spdx(id) => Some(LicenseItemView::Spdx { id, or_later: false }),
        TokenView::LicenseRef { doc_ref, lic_ref } => Some(
            LicenseItemView::Other(LicenseRefView { doc_ref, lic_ref }),
        ),
        _ => None,
    }
}

/// A token of the text, with the bytes it spans.
pub struct Lexed {
    pub token: TokenView,
    pub start: int,
    pub end: int,
}

/// Lexing `text` from `pos` finds the token `lexed`.
#[verifier::opaque]
pub open spec fn lexes(text: Seq<u8>, mode: ParseMode, pos: int, lexed: Lexed) -> bool {
    0 <= pos <= text.len() && lex_step(text, mode, pos) == (LexStep::Token {
        token: lexed.token,
        start: lexed.start,
        end: lexed.end,
    })
}

/// Lexing `text` from `pos` finds nothing more.
#[verifier::opaque]
pub open spec fn ends(text: Seq<u8>, mode: ParseMode, pos: int) -> bool {
    0 <= pos <= text.len() && lex_step(text, mode, pos) is End
}

/// The requirement node that a license token makes.
pub open spec fn req_node(lexed: Lexed) -> NodeView {
    fresh_req(license_of(lexed.token)->0, lexed.start as usize, lexed.end as usize)
}

/// The state after one license token.
proof fn lemma_one_license(text: Seq<u8>, mode: ParseMode, a: Lexed, st: ParserState)
    requires
        license_of(a.token) is Some,
        st.last is Start || st.last is And || st.last is Or || st.last is OpenParen,
    ensures
        advance(st, mode, a.token, a.start as usize, a.end as usize) matches Step::Next(next)
            && next.ops == st.ops && next.queue == st.queue.push(req_node(a)) && (next.last
            is Spdx || next.last is LicenseRef),
{
}

/// The stack of an evaluation after two requirements and an operator.
proof fn lemma_eval_pair(a: NodeView, b: NodeView, op: Operator, answers: Seq<bool>)
    requires
        a is Req,
        b is Req,
    ensures
        evaluation(seq![a, b, NodeView::Op(op)], answers) == combine(
            op,
            answer_at(answers, 0),
            answer_at(answers, 1),
        ),
{
    let nodes = seq![a, b, NodeView::Op(op)];
    assert(nodes.drop_last() =~= seq![a, b]);
    assert(seq![a, b].drop_last() =~= seq![a]);
    assert(seq![a].drop_last() =~= Seq::<NodeView>::empty());
    reveal_with_fuel(eval_stack, 4);
    reveal_with_fuel(req_count, 4);
    let s1 = eval_stack(seq![a], answers);
    assert(s1 =~= seq![answer_at(answers, 0)]);
    let s2 = eval_stack(seq![a, b], answers);
    assert(s2 =~= seq![answer_at(answers, 0), answer_at(answers, 1)]);
    let s3 = eval_stack(nodes, answers);
    assert(s3 =~= seq![combine(op, answer_at(answers, 1), answer_at(answers, 0))]);
}

/// `A OR B` and `A AND B`: a text that is made of a license, one of the two
/// operators and another license parses to the two requirements followed
/// by the operator, and evaluates to what the operator makes of the two
/// answers.
pub proof fn lemma_pair_agrees(
    text: Seq<u8>,
    mode: ParseMode,
    a: Lexed,
    op: Lexed,
    b: Lexed,
    answers: Seq<bool>,
)
    requires
        lexes(text, mode, 0, a),
        lexes(text, mode, a.end, op),
        lexes(text, mode, op.end, b),
        ends(text, mode, b.end),
        license_of(a.token) is Some,
        license_of(b.token) is Some,
        op.token is And || op.token is Or,
    ensures
        parse_outcome(text, mode) == ParseOutcome::Parsed(
            seq![
                req_node(a),
                req_node(b),
                NodeView::Op(
                    if op.token is And {
                        Operator::And
                    } else {
                        Operator::Or
                    },
                ),
            ],
        ),
        op.token is Or ==> (evaluation(parse_outcome(text, mode)->Parsed_0, answers) <==> answer_at(
            answers,
            0,
        ) || answer_at(answers, 1)),
        op.token is And ==> (evaluation(parse_outcome(text, mode)->Parsed_0, answers)
            <==> answer_at(answers, 0) && answer_at(answers, 1)),
{
    reveal(lexes);
    reveal(ends);
    let operator = if op.token is And {
        Operator::And
    } else {
        Operator::Or
    };
    lemma_token_bounds(text, mode, 0);
    lemma_token_bounds(text, mode, a.end);
    lemma_token_bounds(text, mode, op.end);
    let s0 = initial_state();
    lemma_one_license(text, mode, a, s0);
    let s1 = advance(s0, mode, a.token, a.start as usize, a.end as usize)->Next_0;
    assert(s1.queue =~= seq![req_node(a)]);
    assert(emit_tighter(s1.ops, s1.queue, operator) == (s1.ops, s1.queue));
    let s2 = advance(s1, mode, op.token, op.start as usize, op.end as usize)->Next_0;
    lemma_one_license(text, mode, b, s2);
    let s3 = advance(s2, mode, b.token, b.start as usize, b.end as usize)->Next_0;
    assert(s3.queue =~= seq![req_node(a), req_node(b)]);
    assert(s3.ops.len() == 1);
    assert(s3.ops.drop_last() =~= Seq::<OpAndSpan>::empty());
    reveal_with_fuel(emit_rest, 3);
    let nodes = seq![req_node(a), req_node(b), NodeView::Op(operator)];
    assert(s3.queue.push(NodeView::Op(operator)) =~= nodes);
    assert(finish(s3, text.len() as int) == ParseOutcome::Parsed(nodes));
    assert(parse_from(text, mode, b.end, s3) == ParseOutcome::Parsed(nodes));
    assert(parse_from(text, mode, op.end, s2) == ParseOutcome::Parsed(nodes));
    assert(parse_from(text, mode, a.end, s1) == ParseOutcome::Parsed(nodes));
    assert(parse_from(text, mode, 0, s0) == ParseOutcome::Parsed(nodes));
    lemma_eval_pair(req_node(a), req_node(b), operator, answers);
}

/// `A OR B AND C` is `A OR (B AND C)`: `AND` binds more tightly than `OR`.
/// A text made of these five tokens parses to the three requirements
/// followed by `AND` and `OR`, and evaluates accordingly.
pub proof fn lemma_and_binds_tighter(
    text: Seq<u8>,
    mode: ParseMode,
    a: Lexed,
    or: Lexed,
    b: Lexed,
    and: Lexed,
    c: Lexed,
    answers: Seq<bool>,
)
    requires
        lexes(text, mode, 0, a),
        lexes(text, mode, a.end, or),
        lexes(text, mode, or.end, b),
        lexes(text, mode, b.end, and),
        lexes(text, mode, and.end, c),
        ends(text, mode, c.end),
        license_of(a.token) is Some,
        license_of(b.token) is Some,
        license_of(c.token) is Some,
        or.token is Or,
        and.token is And,
    ensures
        parse_outcome(text, mode) == ParseOutcome::Parsed(
            seq![
                req_node(a),
                req_node(b),
                req_node(c),
                NodeView::Op(Operator::And),
                NodeView::Op(Operator::Or),
            ],
        ),
        evaluation(parse_outcome(text, mode)->Parsed_0, answers) <==> answer_at(answers, 0) || (
        answer_at(answers, 1) && answer_at(answers, 2)),
{
    reveal(lexes);
    reveal(ends);
    lemma_token_bounds(text, mode, 0);
    lemma_token_bounds(text, mode, a.end);
    lemma_token_bounds(text, mode, or.end);
    lemma_token_bounds(text, mode, b.end);
    lemma_token_bounds(text, mode, and.end);
    let s0 = initial_state();
    lemma_one_license(text, mode, a, s0);
    let s1 = advance(s0, mode, a.token, a.start as usize, a.end as usize)->Next_0;
    assert(emit_tighter(s1.ops, s1.queue, Operator::Or) == (s1.ops, s1.queue));
    let s2 = advance(s1, mode, or.token, or.start as usize, or.end as usize)->Next_0;
    lemma_one_license(text, mode, b, s2);
    let s3 = advance(s2, mode, b.token, b.start as usize, b.end as usize)->Next_0;
    assert(s3.ops.last().op is Or);
    assert(emit_tighter(s3.ops, s3.queue, Operator::And) == (s3.ops, s3.queue));
    let s4 = advance(s3, mode, and.token, and.start as usize, and.end as usize)->Next_0;
    lemma_one_license(text, mode, c, s4);
    let s5 = advance(s4, mode, c.token, c.start as usize, c.end as usize)->Next_0;
    let ra = req_node(a);
    let rb = req_node(b);
    let rc = req_node(c);
    assert(s5.queue =~= seq![ra, rb, rc]);
    assert(s5.ops.len() == 2);
    assert(s5.ops.last().op is And);
    assert(s5.ops.drop_last().last().op is Or);
    assert(s5.ops.drop_last().drop_last() =~= Seq::<OpAndSpan>::empty());
    reveal_with_fuel(emit_rest, 4);
    let nodes = seq![ra, rb, rc, NodeView::Op(Operator::And), NodeView::Op(Operator::Or)];
    assert(s5.queue.push(NodeView::Op(Operator::And)).push(NodeView::Op(Operator::Or)) =~= nodes);
    assert(finish(s5, text.len() as int) == ParseOutcome::Parsed(nodes));
    assert(parse_from(text, mode, c.end, s5) == ParseOutcome::Parsed(nodes));
    assert(parse_from(text, mode, and.end, s4) == ParseOutcome::Parsed(nodes));
    assert(parse_from(text, mode, b.end, s3) == ParseOutcome::Parsed(nodes));
    assert(parse_from(text, mode, or.end, s2) == ParseOutcome::Parsed(nodes));
    assert(parse_from(text, mode, a.end, s1) == ParseOutcome::Parsed(nodes));
    assert(parse_from(text, mode, 0, s0) == ParseOutcome::Parsed(nodes));
    let n4 = seq![ra, rb, rc, NodeView::Op(Operator::And)];
    let n3 = seq![ra, rb, rc];
    assert(nodes.drop_last() =~= n4);
    assert(n4.drop_last() =~= n3);
    assert(n3.drop_last() =~= seq![ra, rb]);
    assert(seq![ra, rb].drop_last() =~= seq![ra]);
    assert(seq![ra].drop_last() =~= Seq::<NodeView>::empty());
    reveal_with_fuel(eval_stack, 6);
    reveal_with_fuel(req_count, 6);
    let a0 = answer_at(answers, 0);
    let a1 = answer_at(answers, 1);
    let a2 = answer_at(answers, 2);
    assert(eval_stack(seq![ra], answers) =~= seq![a0]);
    assert(eval_stack(seq![ra, rb], answers) =~= seq![a0, a1]);
    assert(eval_stack(n3, answers) =~= seq![a0, a1, a2]);
    assert(eval_stack(n4, answers) =~= seq![a0, a2 && a1]);
    assert(eval_stack(nodes, answers) =~= seq![(a2 && a1) || a0]);
}

/// What the tokens make of the state `st`, one after the other; the first
/// one that is refused ends it.
pub open spec fn run_tokens(tokens: Seq<Lexed>, mode: ParseMode, st: ParserState) -> Step
    decreases tokens.len(),
{
    if tokens.len() == 0 {
        Step::Next(st)
    } else {
        match advance(
            st,
            mode,
            tokens[0].token,
            tokens[0].start as usize,
            tokens[0].end as usize,
        ) {
            Step::Next(next) => run_tokens(tokens.drop_first(), mode, next),
            stop => stop,
        }
    }
}

/// How the parse of a text of `len` bytes ends that goes on with these
/// tokens, and no more, from the state `st`.
pub open spec fn finish_tokens(tokens: Seq<Lexed>, mode: ParseMode, st: ParserState, len: int) -> ParseOutcome {
    match run_tokens(tokens, mode, st) {
        Step::Next(last) => finish(last, len),
        Step::Stop { reason, start, end } => ParseOutcome::Failed {
            reason,
            start: start as int,
            end: end as int,
        },
    }
}

/// Lexing `text` from `pos` on finds these tokens, and then no more.
pub open spec fn lexes_all(text: Seq<u8>, mode: ParseMode, pos: int, tokens: Seq<Lexed>) -> bool
    decreases tokens.len(),
{
    if tokens.len() == 0 {
        ends(text, mode, pos)
    } else {
        lexes(text, mode, pos, tokens[0]) && lexes_all(
            text,
            mode,
            tokens[0].end,
            tokens.drop_first(),
        )
    }
}

/// The two sequences hold the same tokens, wherever each stands.
pub open spec fn same_tokens(a: Seq<Lexed>, b: Seq<Lexed>) -> bool {
    a.len() == b.len() && forall|i: int| 0 <= i < a.len() ==> (#[trigger] a[i]).token == b[i].token
}

/// The markers of the entries of an operator stack.
pub open spec fn markers(ops: Seq<OpAndSpan>) -> Seq<Marker> {
    ops.map_values(|e: OpAndSpan| e.op)
}

/// The second state is the first inside a group: it holds the same output
/// and has seen the same last, and under the same waiting operators has
/// `base`, which ends with an open parenthesis.
pub open spec fn inside_group(st: ParserState, grouped: ParserState, base: Seq<Marker>) -> bool {
    &&& base.len() > 0
    &&& base.last() is Open
    &&& markers(grouped.ops) == base + markers(st.ops)
    &&& without_spans(grouped.queue) == without_spans(st.queue)
    &&& if st.last is Start {
        grouped.last is OpenParen
    } else {
        grouped.last == st.last
    }
}

/// Parsing a text is running its tokens.
pub proof fn lemma_parse_by_tokens(
    text: Seq<u8>,
    mode: ParseMode,
    pos: int,
    st: ParserState,
    tokens: Seq<Lexed>,
)
    requires
        lexes_all(text, mode, pos, tokens),
    ensures
        parse_from(text, mode, pos, st) == finish_tokens(tokens, mode, st, text.len() as int),
    decreases tokens.len(),
{
    reveal(lexes);
    reveal(ends);
    if tokens.len() > 0 {
        lemma_token_bounds(text, mode, pos);
        match advance(st, mode, tokens[0].token, tokens[0].start as usize, tokens[0].end as usize) {
            Step::Next(next) => {
                lemma_parse_by_tokens(text, mode, tokens[0].end, next, tokens.drop_first());
            },
            Step::Stop { .. } => {},
        }
    }
}

/// The nodes without their places, after one more node.
proof fn lemma_bare_push(a: Seq<NodeView>, b: Seq<NodeView>, x: NodeView, y: NodeView)
    requires
        without_spans(a) == without_spans(b),
        without_span(x) == without_span(y),
    ensures
        without_spans(a.push(x)) == without_spans(b.push(y)),
        a.len() == b.len(),
{
    assert(without_spans(a).len() == a.len());
    assert(without_spans(b).len() == b.len());
    assert forall|i: int| 0 <= i < a.len() implies without_span(a[i]) == without_span(b[i]) by {
        assert(without_spans(a)[i] == without_span(a[i]));
        assert(without_spans(b)[i] == without_span(b[i]));
    }
    assert(without_spans(a.push(x)) =~= without_spans(b.push(y)));
}

/// The nodes without their places, without the last node.
proof fn lemma_bare_drop(a: Seq<NodeView>, b: Seq<NodeView>)
    requires
        without_spans(a) == without_spans(b),
        a.len() > 0,
    ensures
        b.len() == a.len(),
        without_spans(a.drop_last()) == without_spans(b.drop_last()),
        without_span(a.last()) == without_span(b.last()),
{
    assert(without_spans(a).len() == a.len());
    assert(without_spans(b).len() == b.len());
    assert forall|i: int| 0 <= i < a.len() implies without_span(a[i]) == without_span(b[i]) by {
        assert(without_spans(a)[i] == without_span(a[i]));
        assert(without_spans(b)[i] == without_span(b[i]));
    }
    assert(without_spans(a.drop_last()) =~= without_spans(b.drop_last()));
}

/// What is known of the markers of a stack inside a group.
proof fn lemma_markers(ops: Seq<OpAndSpan>, grouped: Seq<OpAndSpan>, base: Seq<Marker>)
    requires
        markers(grouped) == base + markers(ops),
        base.len() > 0,
    ensures
        grouped.len() == base.len() + ops.len(),
        ops.len() > 0 ==> grouped.last().op == ops.last().op && markers(grouped.drop_last())
            == base + markers(ops.drop_last()),
        ops.len() == 0 ==> grouped.last().op == base.last() && markers(grouped.drop_last())
            == base.drop_last(),
{
    assert(markers(grouped).len() == grouped.len());
    assert(markers(ops).len() == ops.len());
    assert(markers(grouped)[grouped.len() - 1] == grouped.last().op);
    if ops.len() > 0 {
        assert((base + markers(ops))[grouped.len() - 1] == markers(ops)[ops.len() - 1]);
        assert forall|i: int| 0 <= i < grouped.len() - 1 implies markers(grouped.drop_last())[i]
            == (base + markers(ops.drop_last()))[i] by {
            assert(markers(grouped)[i] == (base + markers(ops))[i]);
        }
        assert(markers(grouped.drop_last()) =~= base + markers(ops.drop_last()));
    } else {
        assert((base + markers(ops))[grouped.len() - 1] == base[base.len() - 1]);
        assert forall|i: int| 0 <= i < grouped.len() - 1 implies markers(grouped.drop_last())[i]
            == base.drop_last()[i] by {
            assert(markers(grouped)[i] == (base + markers(ops))[i]);
        }
        assert(markers(grouped.drop_last()) =~= base.drop_last());
    }
}

/// The markers of a stack inside a group, after one more entry.
proof fn lemma_markers_push(
    ops: Seq<OpAndSpan>,
    grouped: Seq<OpAndSpan>,
    base: Seq<Marker>,
    x: OpAndSpan,
    y: OpAndSpan,
)
    requires
        markers(grouped) == base + markers(ops),
        x.op == y.op,
    ensures
        markers(grouped.push(y)) == base + markers(ops.push(x)),
{
    assert(markers(grouped).len() == grouped.len());
    assert(markers(ops).len() == ops.len());
    assert forall|i: int| 0 <= i < grouped.len() implies markers(grouped.push(y))[i] == (base
        + markers(ops.push(x)))[i] by {
        assert(markers(grouped)[i] == (base + markers(ops))[i]);
    }
    assert(markers(grouped.push(y)) =~= base + markers(ops.push(x)));
}

/// Inside a group the same operators yield to a new one.
proof fn lemma_group_tighter(
    ops: Seq<OpAndSpan>,
    queue: Seq<NodeView>,
    grouped_ops: Seq<OpAndSpan>,
    grouped_queue: Seq<NodeView>,
    base: Seq<Marker>,
    new: Operator,
)
    requires
        base.len() > 0,
        base.last() is Open,
        markers(grouped_ops) == base + markers(ops),
        without_spans(grouped_queue) == without_spans(queue),
    ensures
        markers(emit_tighter(grouped_ops, grouped_queue, new).0) == base + markers(
            emit_tighter(ops, queue, new).0,
        ),
        without_spans(emit_tighter(grouped_ops, grouped_queue, new).1) == without_spans(
            emit_tighter(ops, queue, new).1,
        ),
    decreases ops.len(),
{
    lemma_markers(ops, grouped_ops, base);
    if ops.len() > 0 {
        let op = NodeView::Op(crate::expression::parser::operator_of(ops.last().op));
        if crate::expression::parser::yields_to(ops.last().op, new) {
            lemma_bare_push(grouped_queue, queue, op, op);
            lemma_group_tighter(
                ops.drop_last(),
                queue.push(op),
                grouped_ops.drop_last(),
                grouped_queue.push(op),
                base,
                new,
            );
        }
    }
}

/// Inside a group a closing parenthesis closes what it closes outside.
proof fn lemma_group_close(
    ops: Seq<OpAndSpan>,
    queue: Seq<NodeView>,
    grouped_ops: Seq<OpAndSpan>,
    grouped_queue: Seq<NodeView>,
    base: Seq<Marker>,
)
    requires
        base.len() > 0,
        markers(grouped_ops) == base + markers(ops),
        without_spans(grouped_queue) == without_spans(queue),
        emit_group(ops, queue) is Some,
    ensures
        emit_group(grouped_ops, grouped_queue) is Some,
        markers(emit_group(grouped_ops, grouped_queue).unwrap().0) == base + markers(
            emit_group(ops, queue).unwrap().0,
        ),
        without_spans(emit_group(grouped_ops, grouped_queue).unwrap().1) == without_spans(
            emit_group(ops, queue).unwrap().1,
        ),
    decreases ops.len(),
{
    lemma_markers(ops, grouped_ops, base);
    if ops.len() > 0 && !(ops.last().op is Open) {
        let op = NodeView::Op(crate::expression::parser::operator_of(ops.last().op));
        lemma_bare_push(grouped_queue, queue, op, op);
        lemma_group_close(
            ops.drop_last(),
            queue.push(op),
            grouped_ops.drop_last(),
            grouped_queue.push(op),
            base,
        );
    }
}

/// Where all the waiting operators can be put out, a group that holds
/// nothing else under them is closed by putting them out.
proof fn lemma_group_rest(
    ops: Seq<OpAndSpan>,
    queue: Seq<NodeView>,
    grouped_ops: Seq<OpAndSpan>,
    grouped_queue: Seq<NodeView>,
    base: Seq<Marker>,
)
    requires
        base.len() > 0,
        base.last() is Open,
        markers(grouped_ops) == base + markers(ops),
        without_spans(grouped_queue) == without_spans(queue),
        emit_rest(ops, queue) is Ok,
    ensures
        emit_group(grouped_ops, grouped_queue) is Some,
        markers(emit_group(grouped_ops, grouped_queue).unwrap().0) == base.drop_last(),
        without_spans(emit_group(grouped_ops, grouped_queue).unwrap().1) == without_spans(
            emit_rest(ops, queue)->Ok_0,
        ),
    decreases ops.len(),
{
    lemma_markers(ops, grouped_ops, base);
    if ops.len() > 0 {
        let op = NodeView::Op(crate::expression::parser::operator_of(ops.last().op));
        lemma_bare_push(grouped_queue, queue, op, op);
        lemma_group_rest(
            ops.drop_last(),
            queue.push(op),
            grouped_ops.drop_last(),
            grouped_queue.push(op),
            base,
        );
    }
}

/// A token that the parser takes outside a group, it takes inside too, and
/// to the same effect.
proof fn lemma_group_step(
    st: ParserState,
    grouped: ParserState,
    base: Seq<Marker>,
    mode: ParseMode,
    token: TokenView,
    start: usize,
    end: usize,
    start2: usize,
    end2: usize,
)
    requires
        inside_group(st, grouped, base),
        advance(st, mode, token, start, end) is Next,
    ensures
        advance(grouped, mode, token, start2, end2) is Next,
        inside_group(
            advance(st, mode, token, start, end)->Next_0,
            advance(grouped, mode, token, start2, end2)->Next_0,
            base,
        ),
{
    let next = advance(st, mode, token, start, end)->Next_0;
    match token {
        TokenView::Spdx(id) => {
            let license = LicenseItemView::Spdx { id, or_later: false };
            let x = fresh_req(license, start, end);
            let y = fresh_req(license, start2, end2);
            lemma_bare_push(grouped.queue, st.queue, y, x);
        },
        TokenView::LicenseRef { doc_ref, lic_ref } => {
            let license = LicenseItemView::Other(LicenseRefView { doc_ref, lic_ref });
            let x = fresh_req(license, start, end);
            let y = fresh_req(license, start2, end2);
            lemma_bare_push(grouped.queue, st.queue, y, x);
        },
        TokenView::Plus => {
            lemma_bare_drop(st.queue, grouped.queue);
            let a = st.queue.last();
            let b = grouped.queue.last();
            let x = crate::expression::parser::with_or_later(a, mode)->0->Ok_0;
            let y = crate::expression::parser::with_or_later(b, mode)->0->Ok_0;
            lemma_bare_push(grouped.queue.drop_last(), st.queue.drop_last(), y, x);
        },
        TokenView::With => {},
        TokenView::Exception(id) => {
            lemma_bare_drop(st.queue, grouped.queue);
            let a = st.queue.last();
            let b = grouped.queue.last();
            let addition = crate::requirement::AdditionItemView::Spdx(id);
            let x = crate::expression::parser::with_addition(a, addition)->0;
            let y = crate::expression::parser::with_addition(b, addition)->0;
            lemma_bare_push(grouped.queue.drop_last(), st.queue.drop_last(), y, x);
        },
        TokenView::AdditionRef { doc_ref, add_ref } => {
            lemma_bare_drop(st.queue, grouped.queue);
            let a = st.queue.last();
            let b = grouped.queue.last();
            let addition = crate::requirement::AdditionItemView::Other(
                crate::requirement::AdditionRefView { doc_ref, add_ref },
            );
            let x = crate::expression::parser::with_addition(a, addition)->0;
            let y = crate::expression::parser::with_addition(b, addition)->0;
            lemma_bare_push(grouped.queue.drop_last(), st.queue.drop_last(), y, x);
        },
        TokenView::And => {
            lemma_group_tighter(st.ops, st.queue, grouped.ops, grouped.queue, base, Operator::And);
            lemma_markers_push(
                emit_tighter(st.ops, st.queue, Operator::And).0,
                emit_tighter(grouped.ops, grouped.queue, Operator::And).0,
                base,
                OpAndSpan { op: Marker::And, start, end },
                OpAndSpan { op: Marker::And, start: start2, end: end2 },
            );
        },
        TokenView::Or => {
            lemma_group_tighter(st.ops, st.queue, grouped.ops, grouped.queue, base, Operator::Or);
            lemma_markers_push(
                emit_tighter(st.ops, st.queue, Operator::Or).0,
                emit_tighter(grouped.ops, grouped.queue, Operator::Or).0,
                base,
                OpAndSpan { op: Marker::Or, start, end },
                OpAndSpan { op: Marker::Or, start: start2, end: end2 },
            );
        },
        TokenView::OpenParen => {
            lemma_markers_push(
                st.ops,
                grouped.ops,
                base,
                OpAndSpan { op: Marker::Open, start, end },
                OpAndSpan { op: Marker::Open, start: start2, end: end2 },
            );
        },
        TokenView::CloseParen => {
            lemma_group_close(st.ops, st.queue, grouped.ops, grouped.queue, base);
        },
        TokenView::Unknown(_) => {},
    }
}

/// Tokens that the parser takes outside a group, it takes inside too, and
/// to the same effect.
proof fn lemma_group_run(
    st: ParserState,
    grouped: ParserState,
    base: Seq<Marker>,
    mode: ParseMode,
    tokens: Seq<Lexed>,
    tokens2: Seq<Lexed>,
)
    requires
        inside_group(st, grouped, base),
        same_tokens(tokens, tokens2),
        run_tokens(tokens, mode, st) is Next,
    ensures
        run_tokens(tokens2, mode, grouped) is Next,
        inside_group(
            run_tokens(tokens, mode, st)->Next_0,
            run_tokens(tokens2, mode, grouped)->Next_0,
            base,
        ),
    decreases tokens.len(),
{
    if tokens.len() > 0 {
        let t = tokens[0];
        let t2 = tokens2[0];
        assert(t.token == t2.token);
        lemma_group_step(
            st,
            grouped,
            base,
            mode,
            t.token,
            t.start as usize,
            t.end as usize,
            t2.start as usize,
            t2.end as usize,
        );
        assert forall|i: int| 0 <= i < tokens.drop_first().len() implies (
        #[trigger] tokens.drop_first()[i]).token == tokens2.drop_first()[i].token by {
            assert(tokens[i + 1].token == tokens2[i + 1].token);
        }
        lemma_group_run(
            advance(st, mode, t.token, t.start as usize, t.end as usize)->Next_0,
            advance(grouped, mode, t2.token, t2.start as usize, t2.end as usize)->Next_0,
            base,
            mode,
            tokens.drop_first(),
            tokens2.drop_first(),
        );
    }
}

/// Running tokens one after the other is running them all at once.
proof fn lemma_run_append(tokens: Seq<Lexed>, more: Seq<Lexed>, mode: ParseMode, st: ParserState)
    requires
        run_tokens(tokens, mode, st) is Next,
    ensures
        run_tokens(tokens + more, mode, st) == run_tokens(
            more,
            mode,
            run_tokens(tokens, mode, st)->Next_0,
        ),
    decreases tokens.len(),
{
    if tokens.len() == 0 {
        assert(tokens + more =~= more);
    } else {
        assert((tokens + more)[0] == tokens[0]);
        assert((tokens + more).drop_first() =~= tokens.drop_first() + more);
        let next = advance(
            st,
            mode,
            tokens[0].token,
            tokens[0].start as usize,
            tokens[0].end as usize,
        )->Next_0;
        lemma_run_append(tokens.drop_first(), more, mode, next);
    }
}

/// Parentheses around a whole expression change nothing but the places:
/// where the tokens `inner` make an expression, the same tokens between
/// `(` and `)` make an expression with the same requirements and
/// operators in the same order.
pub proof fn lemma_group_is_invisible(
    mode: ParseMode,
    inner: Seq<Lexed>,
    open: Lexed,
    inner2: Seq<Lexed>,
    close: Lexed,
    len: int,
    len2: int,
)
    requires
        same_tokens(inner, inner2),
        open.token is OpenParen,
        close.token is CloseParen,
        finish_tokens(inner, mode, initial_state(), len) is Parsed,
    ensures
        finish_tokens(seq![open] + inner2 + seq![close], mode, initial_state(), len2) is Parsed,
        without_spans(
            finish_tokens(seq![open] + inner2 + seq![close], mode, initial_state(), len2)->Parsed_0,
        ) == without_spans(finish_tokens(inner, mode, initial_state(), len)->Parsed_0),
{
    let s0 = initial_state();
    let g0 = advance(s0, mode, open.token, open.start as usize, open.end as usize)->Next_0;
    let base = seq![Marker::Open];
    assert(markers(g0.ops) =~= base + markers(s0.ops));
    assert(without_spans(g0.queue) =~= without_spans(s0.queue));
    lemma_group_run(s0, g0, base, mode, inner, inner2);
    let s1 = run_tokens(inner, mode, s0)->Next_0;
    let g1 = run_tokens(inner2, mode, g0)->Next_0;
    lemma_group_rest(s1.ops, s1.queue, g1.ops, g1.queue, base);
    let g2 = advance(g1, mode, close.token, close.start as usize, close.end as usize)->Next_0;
    assert(markers(g2.ops).len() == g2.ops.len());
    assert(g2.ops.len() == 0);
    reveal_with_fuel(emit_rest, 2);
    reveal_with_fuel(run_tokens, 3);
    assert(seq![close].drop_first() =~= Seq::<Lexed>::empty());
    assert(run_tokens(seq![close], mode, g1) == Step::Next(g2));
    lemma_run_append(inner2, seq![close], mode, g0);
    assert((seq![open] + inner2 + seq![close]).drop_first() =~= inner2 + seq![close]);
    assert((seq![open] + inner2 + seq![close])[0] == open);
    assert(run_tokens(seq![open] + inner2 + seq![close], mode, s0) == Step::Next(g2));
}

/// Parentheses around a whole expression change nothing but the places:
/// where a text parses to an expression, a text that holds the same tokens
/// between `(` and `)` parses to the same requirements and operators in
/// the same order.
pub proof fn lemma_parentheses_invisible(
    plain: Seq<u8>,
    grouped: Seq<u8>,
    mode: ParseMode,
    inner: Seq<Lexed>,
    open: Lexed,
    inner2: Seq<Lexed>,
    close: Lexed,
)
    requires
        lexes_all(plain, mode, 0, inner),
        lexes_all(grouped, mode, 0, seq![open] + inner2 + seq![close]),
        same_tokens(inner, inner2),
        open.token is OpenParen,
        close.token is CloseParen,
        parse_outcome(plain, mode) is Parsed,
    ensures
        parse_outcome(grouped, mode) is Parsed,
        without_spans(parse_outcome(grouped, mode)->Parsed_0) == without_spans(
            parse_outcome(plain, mode)->Parsed_0,
        ),
{
    lemma_parse_by_tokens(plain, mode, 0, initial_state(), inner);
    lemma_parse_by_tokens(
        grouped,
        mode,
        0,
        initial_state(),
        seq![open] + inner2 + seq![close],
    );
    lemma_group_is_invisible(
        mode,
        inner,
        open,
        inner2,
        close,
        plain.len() as int,
        grouped.len() as int,
    );
}

/// A licensee satisfies the requirement that asks for just what it holds.
pub proof fn lemma_satisfies_itself(licensee: LicenseReqView)
    ensures
        satisfied(licensee, licensee),
{
}

/// Who satisfies a requirement holds a license of the same kind and the
/// same addition; where the two licenses are of the list and not the same,
/// the requirement accepts later versions.
pub proof fn lemma_satisfied_means(licensee: LicenseReqView, req: LicenseReqView)
    requires
        satisfied(licensee, req),
    ensures
        req.addition == licensee.addition,
        licensee.license is Spdx <==> req.license is Spdx,
        licensee.license is Other ==> licensee.license == req.license,
        licensee.license is Spdx ==> licensee.license->Spdx_id == req.license->Spdx_id
            || req.license->Spdx_or_later,
{
}

/// Allowing later versions never turns a licensee away: who satisfies the
/// requirement for a license satisfies the one that accepts later versions
/// of it too.
pub proof fn lemma_or_later_accepts_more(
    licensee: LicenseReqView,
    id: usize,
    addition: Option<AdditionItemView>,
)
    requires
        satisfied(
            licensee,
            LicenseReqView { license: LicenseItemView::Spdx { id, or_later: false }, addition },
        ),
    ensures
        satisfied(
            licensee,
            LicenseReqView { license: LicenseItemView::Spdx { id, or_later: true }, addition },
        ),
{
}

/// Each truth value of the one stack implies the one at its place in the
/// other.
pub open spec fn below(a: Seq<bool>, b: Seq<bool>) -> bool {
    a.len() == b.len() && forall|i: int| 0 <= i < a.len() ==> (#[trigger] a[i] ==> b[i])
}

/// An expression is monotone: with more requirements met, the stack of
/// the evaluation holds no fewer truths.
pub proof fn lemma_stack_is_monotone(nodes: Seq<NodeView>, fewer: Seq<bool>, more: Seq<bool>)
    requires
        forall|k: int| 0 <= k < req_count(nodes) ==> (answer_at(fewer, k) ==> answer_at(more, k)),
    ensures
        below(eval_stack(nodes, fewer), eval_stack(nodes, more)),
    decreases nodes.len(),
{
    if nodes.len() > 0 {
        lemma_stack_is_monotone(nodes.drop_last(), fewer, more);
        let a = eval_stack(nodes.drop_last(), fewer);
        let b = eval_stack(nodes.drop_last(), more);
        match nodes.last() {
            NodeView::Req { .. } => {
                let k = req_count(nodes.drop_last()) as int;
                assert(answer_at(fewer, k) ==> answer_at(more, k));
            },
            NodeView::Op(op) => {
                if a.len() >= 2 {
                    let n = a.len() as int;
                    assert(a[n - 1] ==> b[n - 1]);
                    assert(a[n - 2] ==> b[n - 2]);
                    assert forall|i: int| 0 <= i < n - 2 implies (#[trigger] a.take(n - 2)[i]
                        ==> b.take(n - 2)[i]) by {
                        assert(a[i] ==> b[i]);
                    }
                }
            },
        }
    }
}

/// An expression is monotone: what evaluates to true stays true when more
/// of its requirements are met.
pub proof fn lemma_evaluation_is_monotone(nodes: Seq<NodeView>, fewer: Seq<bool>, more: Seq<bool>)
    requires
        forall|k: int| 0 <= k < req_count(nodes) ==> (answer_at(fewer, k) ==> answer_at(more, k)),
        evaluation(nodes, fewer),
    ensures
        evaluation(nodes, more),
{
    lemma_stack_is_monotone(nodes, fewer, more);
    let a = eval_stack(nodes, fewer);
    assert(a[a.len() - 1] ==> eval_stack(nodes, more)[a.len() - 1]);
}

/// The truth value of an expression depends on the answers for its
/// requirements alone.
pub proof fn lemma_evaluation_by_answers(nodes: Seq<NodeView>, a: Seq<bool>, b: Seq<bool>)
    requires
        forall|k: int| 0 <= k < req_count(nodes) ==> answer_at(a, k) == answer_at(b, k),
    ensures
        evaluation(nodes, a) == evaluation(nodes, b),
{
    lemma_stack_is_monotone(nodes, a, b);
    lemma_stack_is_monotone(nodes, b, a);
    let x = eval_stack(nodes, a);
    let y = eval_stack(nodes, b);
    if x.len() > 0 {
        assert(x[x.len() - 1] ==> y[x.len() - 1]);
        assert(y[x.len() - 1] ==> x[x.len() - 1]);
    }
}

} // verus!
