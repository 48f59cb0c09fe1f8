//! Types used in SPDX expressions, notably [`Expression`]
//!
//! An expression is kept in postfix order: each operator stands behind its
//! two operands. Evaluating it is one pass with a stack of truth values.

pub mod canonical;
pub mod minimize;
pub mod parser;
pub mod stable;

pub use minimize::MinimizeError;

use crate::collections::{flag_items, node_items, FlagStack, NodeList};
use crate::requirement::{render_req, LicenseReq, LicenseReqView};
use std::ops::Range;
use vstd::prelude::*;
use vstd::string::*;

verus! {

/// A license requirement inside an SPDX license expression
///
/// Includes the span in the expression where it is located
#[derive(Debug)]
pub struct ExpressionReq {
    /// The license requirement
    pub req: LicenseReq,
    /// The span in the original license expression string containing the requirement
    pub span: Range<u32>,
}

/// The joining operators supported by SPDX 2.1
#[derive(Debug, PartialEq, Eq, PartialOrd, Ord, Copy, Clone)]
pub enum Operator {
    /// Conjunctive `AND|and` operator that combines two valid license expressions
    And,
    /// Disjunctive `OR|or` operator that combines two valid license expressions
    Or,
}

/// An expression node
#[derive(Debug, Clone, PartialEq)]
pub enum ExprNode {
    /// An operator
    Op(Operator),
    /// A requirement
    Req(ExpressionReq),
}

/// What an [`ExprNode`] holds.
pub enum NodeView {
    Op(Operator),
    Req { req: LicenseReqView, start: u32, end: u32 },
}

impl View for ExpressionReq {
    type V = NodeView;

    open spec fn view(&self) -> NodeView {
        NodeView::Req { req: self.req@, start: self.span.start, end: self.span.end }
    }
}

impl View for ExprNode {
    type V = NodeView;

    open spec fn view(&self) -> NodeView {
        match *self {
            ExprNode::Op(op) => NodeView::Op(op),
            ExprNode::Req(req) => req@,
        }
    }
}

/// What each of the nodes holds.
pub open spec fn views(nodes: Seq<ExprNode>) -> Seq<NodeView> {
    nodes.map_values(|n: ExprNode| n@)
}

/// The number of requirements among the nodes.
pub open spec fn req_count(nodes: Seq<NodeView>) -> nat
    decreases nodes.len(),
{
    if nodes.len() == 0 {
        0
    } else if nodes.last() is Req {
        req_count(nodes.drop_last()) + 1
    } else {
        req_count(nodes.drop_last())
    }
}

/// The running counter of a postfix sequence: one up for each
/// requirement, one down for each operator.
pub open spec fn depth(nodes: Seq<NodeView>) -> int
    decreases nodes.len(),
{
    if nodes.len() == 0 {
        0
    } else if nodes.last() is Req {
        depth(nodes.drop_last()) + 1
    } else {
        depth(nodes.drop_last()) - 1
    }
}

/// After each node the running counter is at least 1: no operator lacks an
/// operand.
pub open spec fn operands_suffice(nodes: Seq<NodeView>) -> bool {
    forall|k: int| 1 <= k <= nodes.len() ==> depth(#[trigger] nodes.take(k)) >= 1
}

/// The nodes are the postfix form of one expression: the running counter
/// never drops below 1 and ends at exactly 1.
pub open spec fn well_formed(nodes: Seq<NodeView>) -> bool {
    operands_suffice(nodes) && depth(nodes) == 1
}

/// The answer for the requirement at position `k` in the order of the
/// requirements; a missing answer counts as `false`.
pub open spec fn answer_at(answers: Seq<bool>, k: int) -> bool {
    0 <= k < answers.len() && answers[k]
}

/// What an operator makes of two truth values.
pub open spec fn combine(op: Operator, a: bool, b: bool) -> bool {
    match op {
        Operator::And => a && b,
        Operator::Or => a || b,
    }
}

/// The stack of truth values after the nodes, the oldest value first: a
/// requirement puts its answer on the stack, an operator replaces the two
/// newest values by what it makes of them.
pub open spec fn eval_stack(nodes: Seq<NodeView>, answers: Seq<bool>) -> Seq<bool>
    decreases nodes.len(),
{
    if nodes.len() == 0 {
        Seq::empty()
    } else {
        let before = eval_stack(nodes.drop_last(), answers);
        match nodes.last() {
            NodeView::Req { .. } => before.push(
                answer_at(answers, req_count(nodes.drop_last()) as int),
            ),
            NodeView::Op(op) => if before.len() >= 2 {
                before.take(before.len() - 2).push(
                    combine(op, before[before.len() - 1], before[before.len() - 2]),
                )
            } else {
                before
            },
        }
    }
}

/// The truth value of the expression, given an answer for each of its
/// requirements in their order.
pub open spec fn evaluation(nodes: Seq<NodeView>, answers: Seq<bool>) -> bool {
    eval_stack(nodes, answers).len() > 0 && eval_stack(nodes, answers).last()
}

/// The requirements among the nodes, in their order.
pub open spec fn requirements_of(nodes: Seq<ExprNode>) -> Seq<ExpressionReq>
    decreases nodes.len(),
{
    if nodes.len() == 0 {
        Seq::empty()
    } else {
        match nodes.last() {
            ExprNode::Req(req) => requirements_of(nodes.drop_last()).push(req),
            ExprNode::Op(_) => requirements_of(nodes.drop_last()),
        }
    }
}

/// The requirements among the nodes whose answer is `false`, in their order.
pub open spec fn failures_of(nodes: Seq<ExprNode>, answers: Seq<bool>) -> Seq<ExpressionReq>
    decreases nodes.len(),
{
    if nodes.len() == 0 {
        Seq::empty()
    } else {
        match nodes.last() {
            ExprNode::Req(req) => if answer_at(
                answers,
                req_count(views(nodes.drop_last())) as int,
            ) {
                failures_of(nodes.drop_last(), answers)
            } else {
                failures_of(nodes.drop_last(), answers).push(req)
            },
            ExprNode::Op(_) => failures_of(nodes.drop_last(), answers),
        }
    }
}

/// The values that a list of references refers to.
pub open spec fn referents<T>(list: Seq<&T>) -> Seq<T> {
    list.map_values(|r: &T| *r)
}

/// `answers` holds, for each of the requirements in their order, an answer
/// that `allow` may give for it.
pub open spec fn answered<F: Fn(&LicenseReq) -> bool>(
    reqs: Seq<ExpressionReq>,
    allow: F,
    answers: Seq<bool>,
) -> bool {
    &&& answers.len() == reqs.len()
    &&& forall|k: int| 0 <= k < reqs.len() ==> allow.ensures((&reqs[k].req,), #[trigger] answers[k])
}

/// The node without the place it came from.
pub open spec fn without_span(node: NodeView) -> NodeView {
    match node {
        NodeView::Op(op) => NodeView::Op(op),
        NodeView::Req { req, .. } => NodeView::Req { req, start: 0, end: 0 },
    }
}

/// The nodes without the places they came from.
pub open spec fn without_spans(nodes: Seq<NodeView>) -> Seq<NodeView> {
    Seq::new(nodes.len(), |i: int| without_span(nodes[i]))
}

/// The nodes as they are written one after the other, a space between
/// each two.
pub open spec fn render_postfix(nodes: Seq<NodeView>) -> Seq<char>
    decreases nodes.len(),
{
    if nodes.len() == 0 {
        Seq::empty()
    } else {
        render_postfix(nodes.drop_last()) + (if nodes.len() > 1 {
            " "@
        } else {
            Seq::empty()
        }) + (match nodes.last() {
            NodeView::Req { req, .. } => render_req(req),
            NodeView::Op(Operator::And) => "AND"@,
            NodeView::Op(Operator::Or) => "OR"@,
        })
    }
}

/// The prefixes of a sequence grow one node at a time.
pub proof fn lemma_take_step<T>(s: Seq<T>, i: int)
    requires
        0 <= i < s.len(),
    ensures
        s.take(i + 1).drop_last() == s.take(i),
        s.take(i + 1).last() == s[i],
        s.take(i + 1).len() == i + 1,
{
    assert(s.take(i + 1).drop_last() =~= s.take(i));
}

/// The views of a prefix are the prefix of the views.
pub proof fn lemma_views_take(nodes: Seq<ExprNode>, i: int)
    requires
        0 <= i <= nodes.len(),
    ensures
        views(nodes.take(i)) == views(nodes).take(i),
        views(nodes).len() == nodes.len(),
{
    assert(views(nodes.take(i)) =~= views(nodes).take(i));
}

/// Where no operator lacks an operand, the stack of an evaluation is as
/// high as the running counter says.
pub proof fn lemma_stack_height(nodes: Seq<NodeView>, answers: Seq<bool>)
    requires
        operands_suffice(nodes),
    ensures
        eval_stack(nodes, answers).len() == depth(nodes),
    decreases nodes.len(),
{
    if nodes.len() > 0 {
        let before = nodes.drop_last();
        assert forall|k: int| 1 <= k <= before.len() implies depth(#[trigger] before.take(k))
            >= 1 by {
            assert(before.take(k) =~= nodes.take(k));
        }
        lemma_stack_height(before, answers);
        assert(nodes.take(nodes.len() as int) =~= nodes);
        if before.len() > 0 {
            assert(before.take(before.len() as int) =~= before);
            assert(nodes.take(before.len() as int) =~= before);
        }
    }
}

/// A prefix of nodes of which no operator lacks an operand has that
/// property too.
pub proof fn lemma_prefix_suffices(nodes: Seq<NodeView>, i: int)
    requires
        operands_suffice(nodes),
        0 <= i <= nodes.len(),
    ensures
        operands_suffice(nodes.take(i)),
        i >= 1 ==> depth(nodes.take(i)) >= 1,
{
    assert forall|k: int| 1 <= k <= nodes.take(i).len() implies depth(
        #[trigger] nodes.take(i).take(k),
    ) >= 1 by {
        assert(nodes.take(i).take(k) =~= nodes.take(k));
    }
}

impl ExpressionReq {
    /// Whether the two hold the same requirement, wherever each stands.
    pub fn same(&self, other: &ExpressionReq) -> (r: bool)
        ensures
            r == (self.req@ == other.req@),
    {
        self.req.same(&other.req)
    }
}

impl Clone for ExpressionReq {
    fn clone(&self) -> (r: ExpressionReq)
        ensures
            r == *self,
    {
        ExpressionReq { req: self.req.duplicate(), span: self.span.start..self.span.end }
    }
}

impl PartialEq for ExpressionReq {
    fn eq(&self, other: &ExpressionReq) -> (r: bool) {
        self.req.same(&other.req)
    }
}

impl vstd::std_specs::cmp::PartialEqSpecImpl for ExpressionReq {
    open spec fn obeys_eq_spec() -> bool {
        true
    }

    open spec fn eq_spec(&self, other: &ExpressionReq) -> bool {
        self.req@ == other.req@
    }
}

impl ExprNode {
    /// Whether the two nodes hold the same, wherever each stands.
    pub fn same(&self, other: &ExprNode) -> (r: bool)
        ensures
            r == (without_span(self@) == without_span(other@)),
    {
        match (self, other) {
            (ExprNode::Op(a), ExprNode::Op(b)) => match (a, b) {
                (Operator::And, Operator::And) => true,
                (Operator::Or, Operator::Or) => true,
                _ => false,
            },
            (ExprNode::Req(a), ExprNode::Req(b)) => a.same(b),
            _ => false,
        }
    }

    /// A copy of the node.
    pub fn duplicate(&self) -> (r: ExprNode)
        ensures
            r == *self,
    {
        match self {
            ExprNode::Op(op) => ExprNode::Op(*op),
            ExprNode::Req(req) => ExprNode::Req(req.clone()),
        }
    }
}

/// An SPDX license expression that is both syntactically and semantically valid,
/// and can be evaluated
#[derive(Debug)]
pub struct Expression {
    expr: NodeList,
    // We keep the original string around for display purposes only
    original: String,
}

impl View for Expression {
    type V = Seq<NodeView>;

    open spec fn view(&self) -> Seq<NodeView> {
        views(self.nodes())
    }
}

impl Expression {
    #[verifier::type_invariant]
    spec fn is_postfix(self) -> bool {
        well_formed(views(node_items(self.expr)))
    }

    /// The nodes of the expression, in postfix order.
    pub closed spec fn nodes(self) -> Seq<ExprNode> {
        node_items(self.expr)
    }

    /// The text that the expression was parsed from.
    pub closed spec fn source(self) -> Seq<char> {
        self.original@
    }

    /// Puts nodes and text together.
    pub(crate) fn from_parts(expr: NodeList, original: String) -> (r: Expression)
        requires
            well_formed(views(node_items(expr))),
        ensures
            r.nodes() == node_items(expr),
            r.source() == original@,
    {
        Expression { expr, original }
    }

    /// Returns both the license requirements and the operators that join them
    /// together. Note that the expression is returned in post fix order.
    pub fn iter(&self) -> (r: &[ExprNode])
        ensures
            r@ == self.nodes(),
            well_formed(self@),
    {
        proof {
            use_type_invariant(self);
        }
        self.expr.as_slice()
    }

    /// Returns each of the license requirements in the license expression,
    /// but not the operators that join them together
    pub fn requirements(&self) -> (r: Vec<&ExpressionReq>)
        ensures
            referents(r@) == requirements_of(self.nodes()),
    {
        let nodes = self.expr.as_slice();
        let mut out: Vec<&ExpressionReq> = Vec::new();
        let mut i: usize = 0;
        assert(referents(out@) =~= requirements_of(nodes@.take(0)));
        while i < nodes.len()
            invariant
                i <= nodes.len(),
                referents(out@) == requirements_of(nodes@.take(i as int)),
            decreases nodes.len() - i,
        {
            proof {
                lemma_take_step(nodes@, i as int);
            }
            let ghost before = out@;
            match &nodes[i] {
                ExprNode::Req(req) => {
                    out.push(req);
                    assert(referents(out@) =~= referents(before).push(*req));
                },
                ExprNode::Op(_) => {},
            }
            i += 1;
        }
        assert(nodes@.take(i as int) =~= nodes@);
        out
    }

    /// Evaluates the expression, given for each of its requirements, in
    /// their order, whether it is met. A requirement without an answer
    /// counts as not met.
    pub fn evaluate_answers(&self, answers: &[bool]) -> (r: bool)
        ensures
            r == evaluation(self@, answers@),
    {
        proof {
            use_type_invariant(self);
        }
        let nodes = self.expr.as_slice();
        let ghost all = views(nodes@);
        let mut stack = FlagStack::new();
        let mut seen: usize = 0;
        let mut i: usize = 0;
        while i < nodes.len()
            invariant
                i <= nodes.len(),
                all == views(nodes@),
                well_formed(all),
                seen == req_count(all.take(i as int)),
                seen <= i,
                flag_items(stack) == eval_stack(all.take(i as int), answers@),
            decreases nodes.len() - i,
        {
            proof {
                lemma_take_step(all, i as int);
                lemma_prefix_suffices(all, i as int);
                lemma_prefix_suffices(all, i + 1);
                lemma_stack_height(all.take(i as int), answers@);
                lemma_stack_height(all.take(i + 1), answers@);
            }
            match &nodes[i] {
                ExprNode::Req(_) => {
                    let answer = seen < answers.len() && answers[seen];
                    stack.push(answer);
                    seen += 1;
                },
                ExprNode::Op(op) => {
                    let ghost before = flag_items(stack);
                    let a = stack.pop();
                    let b = stack.pop();
                    let value = match (a, b) {
                        (Some(a), Some(b)) => match op {
                            Operator::And => a && b,
                            Operator::Or => a || b,
                        },
                        _ => false,
                    };
                    stack.push(value);
                    assert(flag_items(stack) =~= before.take(before.len() - 2).push(
                        combine(*op, before[before.len() - 1], before[before.len() - 2]),
                    ));
                },
            }
            i += 1;
        }
        proof {
            assert(all.take(i as int) =~= all);
            lemma_prefix_suffices(all, i as int);
            lemma_stack_height(all, answers@);
        }
        match stack.pop() {
            Some(value) => value,
            None => false,
        }
    }

    /// The requirements of the expression whose answer is `false`, in their
    /// order, if the expression as a whole evaluates to `false`.
    ///
    /// A requirement can be listed although another one under the same `OR`
    /// was met: the list holds each requirement that was not met, not the
    /// least set that explains the failure.
    pub fn failures_for(&self, answers: &[bool]) -> (r: Result<(), Vec<&ExpressionReq>>)
        ensures
            r is Ok <==> evaluation(self@, answers@),
            r matches Err(failed) ==> referents(failed@) == failures_of(self.nodes(), answers@),
    {
        if self.evaluate_answers(answers) {
            return Ok(());
        }
        let nodes = self.expr.as_slice();
        let mut out: Vec<&ExpressionReq> = Vec::new();
        let mut seen: usize = 0;
        let mut i: usize = 0;
        assert(referents(out@) =~= failures_of(nodes@.take(0), answers@));
        while i < nodes.len()
            invariant
                i <= nodes.len(),
                seen == req_count(views(nodes@.take(i as int))),
                seen <= i,
                referents(out@) == failures_of(nodes@.take(i as int), answers@),
            decreases nodes.len() - i,
        {
            proof {
                lemma_take_step(nodes@, i as int);
                lemma_views_take(nodes@, i as int);
                lemma_views_take(nodes@, i + 1);
                lemma_take_step(views(nodes@), i as int);
            }
            let ghost before = out@;
            match &nodes[i] {
                ExprNode::Req(req) => {
                    if !(seen < answers.len() && answers[seen]) {
                        out.push(req);
                        assert(referents(out@) =~= referents(before).push(*req));
                    }
                    seen += 1;
                },
                ExprNode::Op(_) => {},
            }
            i += 1;
        }
        assert(nodes@.take(i as int) =~= nodes@);
        Err(out)
    }

    /// Asks `allow` about each requirement of the expression, in their
    /// order, and returns the answers.
    pub fn answers<F: Fn(&LicenseReq) -> bool>(&self, allow: F) -> (r: Vec<bool>)
        requires
            forall|k: int|
                0 <= k < requirements_of(self.nodes()).len() ==> allow.requires(
                    (&(#[trigger] requirements_of(self.nodes())[k]).req,),
                ),
        ensures
            answered(requirements_of(self.nodes()), allow, r@),
    {
        let reqs = self.requirements();
        let ghost all = requirements_of(self.nodes());
        let mut out: Vec<bool> = Vec::new();
        let mut k: usize = 0;
        while k < reqs.len()
            invariant
                k <= reqs.len(),
                referents(reqs@) == all,
                out.len() == k,
                forall|j: int| 0 <= j < all.len() ==> allow.requires((&(#[trigger] all[j]).req,)),
                forall|j: int| 0 <= j < k ==> allow.ensures((&all[j].req,), #[trigger] out@[j]),
            decreases reqs.len() - k,
        {
            assert(referents(reqs@)[k as int] == *reqs@[k as int]);
            let answer = allow(&reqs[k].req);
            out.push(answer);
            k += 1;
        }
        assert(referents(reqs@).len() == reqs@.len());
        out
    }

    /// Evaluates the expression, using the provided function to determine if the
    /// licensee meets the requirements for each license term. If enough requirements are
    /// satisfied the evaluation will return true.
    ///
    /// The function is asked once about each requirement, in their order;
    /// the result is the truth value of the expression under its answers.
    pub fn evaluate<F: Fn(&LicenseReq) -> bool>(&self, allow: F) -> (r: bool)
        requires
            forall|k: int|
                0 <= k < requirements_of(self.nodes()).len() ==> allow.requires(
                    (&(#[trigger] requirements_of(self.nodes())[k]).req,),
                ),
        ensures
            exists|answers: Seq<bool>|
                answered(requirements_of(self.nodes()), allow, answers) && r == evaluation(
                    self@,
                    answers,
                ),
    {
        let answers = self.answers(allow);
        self.evaluate_answers(answers.as_slice())
    }

    /// A version of [`Self::evaluate`] that returns the requirements that are not
    /// met if the evaluation returns `false`.
    pub fn evaluate_with_failures<F: Fn(&LicenseReq) -> bool>(&self, allow: F) -> (r: Result<
        (),
        Vec<&ExpressionReq>,
    >)
        requires
            forall|k: int|
                0 <= k < requirements_of(self.nodes()).len() ==> allow.requires(
                    (&(#[trigger] requirements_of(self.nodes())[k]).req,),
                ),
        ensures
            exists|answers: Seq<bool>|
                answered(requirements_of(self.nodes()), allow, answers) && (r is Ok
                    <==> evaluation(self@, answers)) && (r matches Err(failed) ==> referents(
                    failed@,
                ) == failures_of(self.nodes(), answers)),
    {
        let answers = self.answers(allow);
        self.failures_for(answers.as_slice())
    }

    /// The text that the expression was parsed from.
    pub fn as_ref(&self) -> (r: &str)
        ensures
            r@ == self.source(),
    {
        self.original.as_str()
    }

    /// The expression as it is written: the text it was parsed from.
    pub fn to_string(&self) -> (r: String)
        ensures
            r@ == self.source(),
    {
        self.original.clone()
    }

    /// Whether the two expressions hold the same nodes in the same order,
    /// whatever text each was parsed from.
    pub fn same(&self, other: &Expression) -> (r: bool)
        ensures
            r == (without_spans(self@) == without_spans(other@)),
    {
        let a = self.expr.as_slice();
        let b = other.expr.as_slice();
        let ghost x = without_spans(views(a@));
        let ghost y = without_spans(views(b@));
        if a.len() != b.len() {
            assert(x.len() != y.len());
            return false;
        }
        let mut i: usize = 0;
        while i < a.len()
            invariant
                i <= a.len(),
                a.len() == b.len(),
                a@ == self.nodes(),
                b@ == other.nodes(),
                x == without_spans(views(a@)),
                y == without_spans(views(b@)),
                forall|j: int| 0 <= j < i ==> x[j] == y[j],
            decreases a.len() - i,
        {
            let same = a[i].same(&b[i]);
            proof {
                assert(x[i as int] == without_span(a@[i as int]@));
                assert(y[i as int] == without_span(b@[i as int]@));
            }
            if !same {
                return false;
            }
            i += 1;
        }
        assert(x =~= y);
        true
    }

    /// A copy of the expression.
    pub fn duplicate(&self) -> (r: Expression)
        ensures
            r.nodes() == self.nodes(),
            r.source() == self.source(),
    {
        proof {
            use_type_invariant(self);
        }
        let nodes = self.expr.as_slice();
        let mut list = NodeList::new();
        let mut i: usize = 0;
        assert(node_items(list) =~= nodes@.take(0));
        while i < nodes.len()
            invariant
                i <= nodes.len(),
                node_items(list) == nodes@.take(i as int),
            decreases nodes.len() - i,
        {
            list.push(nodes[i].duplicate());
            assert(nodes@.take(i + 1) =~= nodes@.take(i as int).push(nodes@[i as int]));
            i += 1;
        }
        assert(nodes@.take(i as int) =~= nodes@);
        Expression { expr: list, original: self.original.clone() }
    }

    /// The nodes of the expression as they are written one after the
    /// other in postfix order, a space between each two. The parentheses
    /// of the text that was parsed are not kept.
    pub fn to_postfix_string(&self) -> (r: String)
        ensures
            r@ == render_postfix(self@),
    {
        let nodes = self.expr.as_slice();
        let ghost all = views(nodes@);
        let mut out = String::new();
        let mut i: usize = 0;
        assert(out@ =~= render_postfix(all.take(0)));
        while i < nodes.len()
            invariant
                i <= nodes.len(),
                all == views(nodes@),
                out@ == render_postfix(all.take(i as int)),
            decreases nodes.len() - i,
        {
            proof {
                lemma_take_step(all, i as int);
            }
            let ghost before = out@;
            if i > 0 {
                out.append(" ");
            }
            match &nodes[i] {
                ExprNode::Req(req) => {
                    let text = req.req.to_string();
                    out.append(text.as_str());
                },
                ExprNode::Op(Operator::And) => {
                    out.append("AND");
                },
                ExprNode::Op(Operator::Or) => {
                    out.append("OR");
                },
            }
            i += 1;
            assert(out@ =~= render_postfix(all.take(i as int)));
        }
        assert(all.take(i as int) =~= all);
        out
    }
}

impl Clone for Expression {
    fn clone(&self) -> (r: Expression)
        ensures
            r.nodes() == self.nodes(),
            r.source() == self.source(),
    {
        self.duplicate()
    }
}

impl core::str::FromStr for Expression {
    type Err = crate::error::ParseError;

    /// Parses the text in the strict mode, as [`Expression::parse`] does.
    fn from_str(s: &str) -> (r: Result<Expression, crate::error::ParseError>)
        ensures
            match crate::expression::parser::parse_outcome(
                s.spec_bytes(),
                crate::lexer::strict_mode(),
            ) {
                crate::expression::parser::ParseOutcome::Parsed(nodes) => r matches Ok(e) && e@
                    == nodes && e.source() == s@ && well_formed(e@),
                crate::expression::parser::ParseOutcome::Failed { reason, start, end } => r matches Err(
                    e,
                ) && e.reason@ == reason && e.span.start == start && e.span.end == end
                    && e.original@ == s@,
            },
    {
        Expression::parse(s)
    }
}

/// An SPDX license expression that is both syntactically and semantically
/// valid: another name for [`Expression`].
pub type ValidExpression = Expression;

impl PartialEq for Expression {
    fn eq(&self, other: &Expression) -> (r: bool) {
        self.same(other)
    }
}

impl vstd::std_specs::cmp::PartialEqSpecImpl for Expression {
    open spec fn obeys_eq_spec() -> bool {
        true
    }

    open spec fn eq_spec(&self, other: &Expression) -> bool {
        without_spans(self@) == without_spans(other@)
    }
}

} // verus!
