//! Reducing a list of accepted licensees to those an expression needs.

use crate::collections::{licensee_items, LicenseeList};
use crate::expression::{
    eval_stack, evaluation, lemma_take_step, referents, req_count,
    requirements_of, views, ExprNode, Expression, ExpressionReq, NodeView,
};
use crate::licensee::{satisfied, Licensee};
use crate::requirement::{LicenseReq, LicenseReqView};
use crate::text::{decimal, decimal_string};
use vstd::prelude::*;
use vstd::string::*;

verus! {

/// Errors that can occur when trying to minimize the requirements for an
/// expression
#[derive(Debug, PartialEq, Eq)]
pub enum MinimizeError {
    /// More than `64` unique licensees satisfied a requirement in the expression
    TooManyRequirements(usize),
    /// The list of licensees did not fully satisfy the requirements in the expression
    RequirementsUnmet,
}

/// The message of a minimization error.
pub open spec fn minimize_message(error: MinimizeError) -> Seq<char> {
    match error {
        MinimizeError::TooManyRequirements(n) => "the license expression required "@ + decimal(
            n as nat,
        ) + " licensees which exceeds the limit of 64"@,
        MinimizeError::RequirementsUnmet => "the expression was not satisfied by the provided list of licensees"@,
    }
}

/// The short description of a minimization error.
pub open spec fn minimize_description(error: MinimizeError) -> Seq<char> {
    match error {
        MinimizeError::TooManyRequirements(_) => "too many requirements in license expression"@,
        MinimizeError::RequirementsUnmet => "the expression was not satisfied by the provided list of licensees"@,
    }
}

impl MinimizeError {
    /// A short description of the error.
    pub fn description(&self) -> (r: &'static str)
        ensures
            r@ == minimize_description(*self),
    {
        match self {
            MinimizeError::TooManyRequirements(_) => "too many requirements in license expression",
            MinimizeError::RequirementsUnmet => "the expression was not satisfied by the provided list of licensees",
        }
    }

    /// The message of the error; it names the number of licensees where
    /// they were too many.
    pub fn to_string(&self) -> (r: String)
        ensures
            r@ == minimize_message(*self),
    {
        let mut out = String::new();
        match self {
            MinimizeError::TooManyRequirements(n) => {
                out.append("the license expression required ");
                let number = decimal_string(*n);
                out.append(number.as_str());
                out.append(" licensees which exceeds the limit of 64");
                assert(out@ =~= minimize_message(*self));
            },
            MinimizeError::RequirementsUnmet => {
                out.append("the expression was not satisfied by the provided list of licensees");
                assert(out@ =~= minimize_message(*self));
            },
        }
        out
    }
}

/// The requirements among the nodes, in their order.
pub open spec fn req_views(nodes: Seq<NodeView>) -> Seq<LicenseReqView>
    decreases nodes.len(),
{
    if nodes.len() == 0 {
        Seq::empty()
    } else {
        match nodes.last() {
            NodeView::Req { req, .. } => req_views(nodes.drop_last()).push(req),
            NodeView::Op(_) => req_views(nodes.drop_last()),
        }
    }
}

/// What each of the licensees holds.
pub open spec fn licensee_views(list: Seq<Licensee>) -> Seq<LicenseReqView> {
    list.map_values(|l: Licensee| l@)
}

/// What each of the licensees referred to holds.
pub open spec fn accepted_views(list: Seq<&Licensee>) -> Seq<LicenseReqView> {
    list.map_values(|l: &Licensee| l@)
}

/// What each of the requirements holds.
pub open spec fn requirement_views(list: Seq<LicenseReq>) -> Seq<LicenseReqView> {
    list.map_values(|r: LicenseReq| r@)
}

/// The licensee satisfies at least one of the requirements.
pub open spec fn meets_any(licensee: LicenseReqView, reqs: Seq<LicenseReqView>) -> bool {
    exists|k: int| 0 <= k < reqs.len() && satisfied(licensee, #[trigger] reqs[k])
}

/// The found set: the accepted licensees that satisfy at least one of the
/// requirements, each once, in the order in which they were accepted.
pub open spec fn found_set(accepted: Seq<LicenseReqView>, reqs: Seq<LicenseReqView>) -> Seq<
    LicenseReqView,
>
    decreases accepted.len(),
{
    if accepted.len() == 0 {
        Seq::empty()
    } else {
        let before = found_set(accepted.drop_last(), reqs);
        if !before.contains(accepted.last()) && meets_any(accepted.last(), reqs) {
            before.push(accepted.last())
        } else {
            before
        }
    }
}

/// Whether the mask selects the licensee at position `i`: its bit `i` is
/// set.
pub open spec fn chosen(mask: u64, i: int) -> bool {
    0 <= i < 64 && mask & (1u64 << (i as u64)) != 0
}

/// One of the licensees that the mask selects satisfies the requirement.
pub open spec fn met_by(found: Seq<LicenseReqView>, mask: u64, req: LicenseReqView) -> bool {
    exists|i: int| 0 <= i < found.len() && chosen(mask, i) && satisfied(#[trigger] found[i], req)
}

/// For each requirement, whether a selected licensee satisfies it.
pub open spec fn mask_answers(found: Seq<LicenseReqView>, mask: u64, reqs: Seq<LicenseReqView>) -> Seq<
    bool,
> {
    Seq::new(reqs.len(), |k: int| met_by(found, mask, reqs[k]))
}

/// The expression evaluates to true with the licensees that the mask
/// selects.
pub open spec fn works(nodes: Seq<NodeView>, found: Seq<LicenseReqView>, mask: u64) -> bool {
    evaluation(nodes, mask_answers(found, mask, req_views(nodes)))
}

/// The mask that selects all of `n` licensees, for `n` up to 64.
pub open spec fn full_mask(n: nat) -> u64 {
    if n >= 64 {
        u64::MAX
    } else {
        ((1u64 << (n as u64)) - 1) as u64
    }
}

/// The licensees that the mask selects, in their order.
pub open spec fn selection(found: Seq<LicenseReqView>, mask: u64) -> Seq<LicenseReqView>
    decreases found.len(),
{
    if found.len() == 0 {
        Seq::empty()
    } else if chosen(mask, found.len() - 1) {
        selection(found.drop_last(), mask).push(found.last())
    } else {
        selection(found.drop_last(), mask)
    }
}

/// `mask` is the least mask, counting from 1, with which the expression
/// evaluates to true.
pub open spec fn is_first_mask(nodes: Seq<NodeView>, found: Seq<LicenseReqView>, mask: u64) -> bool {
    &&& 1 <= mask <= full_mask(found.len())
    &&& works(nodes, found, mask)
    &&& forall|m: u64| 1 <= m < mask ==> !#[trigger] works(nodes, found, m)
}

/// The requirements of the nodes are the views of their requirement nodes.
pub proof fn lemma_requirement_views(nodes: Seq<ExprNode>)
    ensures
        req_views(views(nodes)).len() == requirements_of(nodes).len(),
        req_views(views(nodes)).len() == req_count(views(nodes)),
        forall|k: int|
            0 <= k < requirements_of(nodes).len() ==> (#[trigger] requirements_of(nodes)[k]).req@
                == req_views(views(nodes))[k],
    decreases nodes.len(),
{
    if nodes.len() > 0 {
        lemma_requirement_views(nodes.drop_last());
        assert(views(nodes).drop_last() =~= views(nodes.drop_last()));
    }
}

/// With no requirement met, nothing on the stack of an evaluation is true.
pub proof fn lemma_nothing_met(nodes: Seq<NodeView>, answers: Seq<bool>)
    requires
        forall|k: int| 0 <= k < answers.len() ==> !answers[k],
    ensures
        forall|j: int| 0 <= j < eval_stack(nodes, answers).len() ==> !eval_stack(nodes, answers)[j],
        !evaluation(nodes, answers),
    decreases nodes.len(),
{
    if nodes.len() > 0 {
        lemma_nothing_met(nodes.drop_last(), answers);
    }
}

/// The empty mask selects nobody.
pub proof fn lemma_empty_mask(nodes: Seq<NodeView>, found: Seq<LicenseReqView>)
    ensures
        !works(nodes, found, 0),
{
    assert forall|i: int| !chosen(0, i) by {
        if 0 <= i < 64 {
            let s = i as u64;
            assert(0u64 & (1u64 << s) == 0) by (bit_vector);
        }
    }
    lemma_nothing_met(nodes, mask_answers(found, 0, req_views(nodes)));
}

/// Whether the licensee is already in the list.
fn holds(found: &[Licensee], licensee: &Licensee) -> (r: bool)
    ensures
        r == licensee_views(found@).contains(licensee@),
{
    let mut i: usize = 0;
    while i < found.len()
        invariant
            i <= found.len(),
            forall|j: int| 0 <= j < i ==> licensee_views(found@)[j] != licensee@,
        decreases found.len() - i,
    {
        if found[i].same(licensee) {
            assert(licensee_views(found@)[i as int] == licensee@);
            return true;
        }
        i += 1;
    }
    false
}

/// Whether the licensee satisfies one of the requirements.
fn satisfies_one(licensee: &Licensee, reqs: &Vec<&ExpressionReq>, Ghost(wanted): Ghost<
    Seq<LicenseReqView>,
>) -> (r: bool)
    requires
        wanted.len() == reqs.len(),
        forall|k: int| 0 <= k < reqs.len() ==> (#[trigger] reqs@[k]).req@ == wanted[k],
    ensures
        r == meets_any(licensee@, wanted),
{
    let mut k: usize = 0;
    while k < reqs.len()
        invariant
            k <= reqs.len(),
            wanted.len() == reqs.len(),
            forall|j: int| 0 <= j < reqs.len() ==> (#[trigger] reqs@[j]).req@ == wanted[j],
            forall|j: int| 0 <= j < k ==> !satisfied(licensee@, #[trigger] wanted[j]),
        decreases reqs.len() - k,
    {
        if licensee.satisfies(&reqs[k].req) {
            assert(satisfied(licensee@, wanted[k as int]));
            return true;
        }
        k += 1;
    }
    false
}

/// Whether one of the selected licensees satisfies the requirement.
fn selected_satisfy(found: &[Licensee], mask: u64, req: &LicenseReq) -> (r: bool)
    requires
        found.len() <= 64,
    ensures
        r == met_by(licensee_views(found@), mask, req@),
{
    let mut i: usize = 0;
    while i < found.len()
        invariant
            i <= found.len(),
            found.len() <= 64,
            forall|j: int|
                0 <= j < i ==> !(chosen(mask, j) && satisfied(
                    #[trigger] licensee_views(found@)[j],
                    req@,
                )),
        decreases found.len() - i,
    {
        if mask & (1u64 << (i as u64)) != 0 && found[i].satisfies(req) {
            assert(chosen(mask, i as int) && satisfied(licensee_views(found@)[i as int], req@));
            return true;
        }
        i += 1;
    }
    false
}

/// For each requirement, whether a selected licensee satisfies it.
fn answers_with(found: &[Licensee], mask: u64, reqs: &Vec<&ExpressionReq>, Ghost(wanted): Ghost<
    Seq<LicenseReqView>,
>) -> (r: Vec<bool>)
    requires
        found.len() <= 64,
        wanted.len() == reqs.len(),
        forall|k: int| 0 <= k < reqs.len() ==> (#[trigger] reqs@[k]).req@ == wanted[k],
    ensures
        r@ == mask_answers(licensee_views(found@), mask, wanted),
{
    let mut out: Vec<bool> = Vec::new();
    let mut k: usize = 0;
    while k < reqs.len()
        invariant
            k <= reqs.len(),
            found.len() <= 64,
            wanted.len() == reqs.len(),
            forall|j: int| 0 <= j < reqs.len() ==> (#[trigger] reqs@[j]).req@ == wanted[j],
            out@.len() == k,
            forall|j: int|
                0 <= j < k ==> out@[j] == met_by(licensee_views(found@), mask, wanted[j]),
        decreases reqs.len() - k,
    {
        out.push(selected_satisfy(found, mask, &reqs[k].req));
        k += 1;
    }
    assert(out@ =~= mask_answers(licensee_views(found@), mask, wanted));
    out
}

/// The requirements of the licensees that the mask selects.
fn select(found: &[Licensee], mask: u64) -> (r: Vec<LicenseReq>)
    requires
        found.len() <= 64,
    ensures
        requirement_views(r@) == selection(licensee_views(found@), mask),
{
    let ghost all = licensee_views(found@);
    let mut out: Vec<LicenseReq> = Vec::new();
    let mut i: usize = 0;
    assert(requirement_views(out@) =~= selection(all.take(0), mask));
    while i < found.len()
        invariant
            i <= found.len(),
            found.len() <= 64,
            all == licensee_views(found@),
            requirement_views(out@) == selection(all.take(i as int), mask),
        decreases found.len() - i,
    {
        proof {
            lemma_take_step(all, i as int);
        }
        let ghost before = out@;
        if mask & (1u64 << (i as u64)) != 0 {
            let req = found[i].duplicate().into_req();
            out.push(req);
            assert(requirement_views(out@) =~= requirement_views(before).push(found@[i as int]@));
        }
        i += 1;
    }
    assert(all.take(i as int) =~= all);
    out
}

/// The mask that selects all of `n` licensees.
fn mask_of_all(n: usize) -> (r: u64)
    requires
        n <= 64,
    ensures
        r == full_mask(n as nat),
        n > 0 ==> r >= 1,
{
    if n >= 64 {
        u64::MAX
    } else {
        let s = n as u64;
        assert((1u64 << s) >= 1) by (bit_vector)
            requires
                s < 64,
        ;
        assert(s > 0 ==> (1u64 << s) >= 2) by (bit_vector)
            requires
                s < 64,
        ;
        (1u64 << s) - 1
    }
}

impl Expression {
    /// Given a set of [`Licensee`]s, attempts to find the minimum number that
    /// satisfy this [`Expression`].
    ///
    /// The list of licensees should be given in priority order, eg, if you wish
    /// to accept the `Apache-2.0` license if it is available, and the `MIT` if
    /// not, putting `Apache-2.0` before `MIT` will cause the ubiquitous
    /// `Apache-2.0 OR MIT` expression to minimize to just `Apache-2.0` as only
    /// 1 of the licenses is required, and `Apache-2.0` has priority.
    ///
    /// The licensees that satisfy at least one requirement of the expression
    /// form the found set, each once, in their order. Each mask from 1
    /// upwards selects some of them: bit `i` the licensee at position `i`.
    /// The result holds the licensees of the least mask with which the
    /// expression evaluates to true. That favours the licensees at the
    /// front; it need not be the selection with the fewest licensees.
    ///
    /// # Errors
    ///
    /// This method will fail if more than 64 unique licensees are satisfied by
    /// this expression, but such a case is unlikely in a real world scenario.
    /// The list of licensees must also actually satisfy this expression,
    /// otherwise it can't be minimized.
    pub fn minimized_requirements(&self, accepted: &[&Licensee]) -> (r: Result<
        Vec<LicenseReq>,
        MinimizeError,
    >)
        ensures
            ({
                let found = found_set(accepted_views(accepted@), req_views(self@));
                if found.len() > 64 {
                    r == Err::<Vec<LicenseReq>, MinimizeError>(
                        MinimizeError::TooManyRequirements(found.len() as usize),
                    )
                } else if !works(self@, found, full_mask(found.len())) {
                    r == Err::<Vec<LicenseReq>, MinimizeError>(MinimizeError::RequirementsUnmet)
                } else {
                    r matches Ok(list) && exists|mask: u64|
                        is_first_mask(self@, found, mask) && requirement_views(list@)
                            == #[trigger] selection(found, mask)
                }
            }),
    {
        let reqs = self.requirements();
        let ghost nodes = self@;
        let ghost wanted = req_views(nodes);
        let ghost given = accepted_views(accepted@);
        proof {
            lemma_requirement_views(self.nodes());
            assert(referents(reqs@).len() == reqs@.len());
            assert forall|k: int| 0 <= k < reqs.len() implies (#[trigger] reqs@[k]).req@
                == wanted[k] by {
                assert(referents(reqs@)[k] == *reqs@[k]);
            }
        }
        let mut list = LicenseeList::new();
        let mut i: usize = 0;
        assert(licensee_views(licensee_items(list)) =~= found_set(given.take(0), wanted));
        while i < accepted.len()
            invariant
                i <= accepted.len(),
                given == accepted_views(accepted@),
                wanted.len() == reqs.len(),
                forall|k: int| 0 <= k < reqs.len() ==> (#[trigger] reqs@[k]).req@ == wanted[k],
                licensee_views(licensee_items(list)) == found_set(given.take(i as int), wanted),
            decreases accepted.len() - i,
        {
            proof {
                lemma_take_step(given, i as int);
            }
            let ghost before = licensee_items(list);
            let licensee = accepted[i];
            if !holds(list.as_slice(), licensee) && satisfies_one(licensee, &reqs, Ghost(wanted)) {
                let copy = licensee.duplicate();
                list.push(copy);
                assert(licensee_views(licensee_items(list)) =~= licensee_views(before).push(
                    licensee@,
                ));
            }
            i += 1;
        }
        assert(given.take(i as int) =~= given);
        let found = list.as_slice();
        let ghost all = licensee_views(found@);
        if found.len() > 64 {
            return Err(MinimizeError::TooManyRequirements(found.len()));
        }
        let full = mask_of_all(found.len());
        let answers = answers_with(found, full, &reqs, Ghost(wanted));
        if !self.evaluate_answers(answers.as_slice()) {
            return Err(MinimizeError::RequirementsUnmet);
        }
        proof {
            lemma_empty_mask(nodes, all);
        }
        let mut mask: u64 = 1;
        loop
            invariant
                found.len() <= 64,
                all == licensee_views(found@),
                all == found_set(accepted_views(accepted@), req_views(self@)),
                nodes == self@,
                wanted == req_views(nodes),
                wanted.len() == reqs.len(),
                forall|k: int| 0 <= k < reqs.len() ==> (#[trigger] reqs@[k]).req@ == wanted[k],
                full == full_mask(all.len()),
                works(nodes, all, full),
                1 <= mask <= full,
                forall|m: u64| 1 <= m < mask ==> !#[trigger] works(nodes, all, m),
            decreases full - mask,
        {
            let answers = answers_with(found, mask, &reqs, Ghost(wanted));
            if self.evaluate_answers(answers.as_slice()) {
                let out = select(found, mask);
                assert(is_first_mask(nodes, all, mask));
                return Ok(out);
            }
            mask += 1;
        }
    }
}

} // verus!
