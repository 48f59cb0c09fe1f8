//! Sequences that are kept inline while they are short.
//!
//! Each type here holds a `SmallVec`. Verus does not look inside: what a
//! value holds has a name, and each method says over that name what the
//! `SmallVec` method it calls does.

use crate::expression::parser::OpAndSpan;
use crate::expression::ExprNode;
use crate::licensee::Licensee;
use smallvec::SmallVec;
use vstd::prelude::*;

verus! {

/// A buffer of bytes for putting a short identifier together.
#[verifier::external_body]
pub struct NameBuffer {
    inner: SmallVec<[u8; 32]>,
}

/// The bytes that a name buffer holds, in order.
pub uninterp spec fn name_bytes(buffer: NameBuffer) -> Seq<u8>;

impl NameBuffer {
    /// `SmallVec::new`: the new buffer holds nothing.
    #[verifier::external_body]
    pub(crate) fn new() -> (buffer: NameBuffer)
        ensures
            name_bytes(buffer) == Seq::<u8>::empty(),
    {
        NameBuffer { inner: SmallVec::new() }
    }

    /// `SmallVec::extend_from_slice`: the bytes of the slice are appended,
    /// in order, after those already held.
    #[verifier::external_body]
    pub(crate) fn extend_from_slice(&mut self, bytes: &[u8])
        ensures
            name_bytes(*final(self)) == name_bytes(*old(self)) + bytes@,
    {
        self.inner.extend_from_slice(bytes)
    }

    /// `SmallVec::as_slice`: a slice of all the bytes held, in order.
    #[verifier::external_body]
    pub(crate) fn as_slice(&self) -> (bytes: &[u8])
        ensures
            bytes@ == name_bytes(*self),
    {
        self.inner.as_slice()
    }
}

/// The nodes of an expression.
#[verifier::external_body]
#[derive(Debug)]
pub struct NodeList {
    inner: SmallVec<[ExprNode; 5]>,
}

/// The nodes that a node list holds, in order.
pub uninterp spec fn node_items(list: NodeList) -> Seq<ExprNode>;

impl NodeList {
    /// `SmallVec::new`: the new list holds nothing.
    #[verifier::external_body]
    pub(crate) fn new() -> (list: NodeList)
        ensures
            node_items(list) == Seq::<ExprNode>::empty(),
    {
        NodeList { inner: SmallVec::new() }
    }

    /// `SmallVec::push`: the node is appended after those already held.
    #[verifier::external_body]
    pub(crate) fn push(&mut self, node: ExprNode)
        ensures
            node_items(*final(self)) == node_items(*old(self)).push(node),
    {
        self.inner.push(node)
    }

    /// `SmallVec::pop`: removes the last node and returns it; an empty
    /// list stays as it is and `None` is returned.
    #[verifier::external_body]
    pub(crate) fn pop(&mut self) -> (node: Option<ExprNode>)
        ensures
            node_items(*old(self)).len() == 0 ==> node is None && node_items(*final(self))
                == node_items(*old(self)),
            node_items(*old(self)).len() > 0 ==> node == Some(node_items(*old(self)).last())
                && node_items(*final(self)) == node_items(*old(self)).drop_last(),
    {
        self.inner.pop()
    }

    /// `SmallVec::as_slice`: a slice of all the nodes held, in order.
    #[verifier::external_body]
    pub(crate) fn as_slice(&self) -> (nodes: &[ExprNode])
        ensures
            nodes@ == node_items(*self),
    {
        self.inner.as_slice()
    }
}

/// The stack of truth values of an evaluation.
#[verifier::external_body]
pub struct FlagStack {
    inner: SmallVec<[bool; 8]>,
}

/// The truth values that a stack holds, the oldest first.
pub uninterp spec fn flag_items(stack: FlagStack) -> Seq<bool>;

impl FlagStack {
    /// `SmallVec::new`: the new stack holds nothing.
    #[verifier::external_body]
    pub(crate) fn new() -> (stack: FlagStack)
        ensures
            flag_items(stack) == Seq::<bool>::empty(),
    {
        FlagStack { inner: SmallVec::new() }
    }

    /// `SmallVec::push`: the value is appended after those already held.
    #[verifier::external_body]
    pub(crate) fn push(&mut self, value: bool)
        ensures
            flag_items(*final(self)) == flag_items(*old(self)).push(value),
    {
        self.inner.push(value)
    }

    /// `SmallVec::pop`: removes the last value and returns it; an empty
    /// stack stays as it is and `None` is returned.
    #[verifier::external_body]
    pub(crate) fn pop(&mut self) -> (value: Option<bool>)
        ensures
            flag_items(*old(self)).len() == 0 ==> value is None && flag_items(*final(self))
                == flag_items(*old(self)),
            flag_items(*old(self)).len() > 0 ==> value == Some(flag_items(*old(self)).last())
                && flag_items(*final(self)) == flag_items(*old(self)).drop_last(),
    {
        self.inner.pop()
    }
}

/// The stack of operators and open parentheses of a parse.
#[verifier::external_body]
pub struct OpStack {
    inner: SmallVec<[OpAndSpan; 3]>,
}

/// The entries that an operator stack holds, the oldest first.
pub uninterp spec fn op_items(stack: OpStack) -> Seq<OpAndSpan>;

impl OpStack {
    /// `SmallVec::new`: the new stack holds nothing.
    #[verifier::external_body]
    pub(crate) fn new() -> (stack: OpStack)
        ensures
            op_items(stack) == Seq::<OpAndSpan>::empty(),
    {
        OpStack { inner: SmallVec::new() }
    }

    /// `SmallVec::push`: the entry is appended after those already held.
    #[verifier::external_body]
    pub(crate) fn push(&mut self, entry: OpAndSpan)
        ensures
            op_items(*final(self)) == op_items(*old(self)).push(entry),
    {
        self.inner.push(entry)
    }

    /// `SmallVec::pop`: removes the last entry and returns it; an empty
    /// stack stays as it is and `None` is returned.
    #[verifier::external_body]
    pub(crate) fn pop(&mut self) -> (entry: Option<OpAndSpan>)
        ensures
            op_items(*old(self)).len() == 0 ==> entry is None && op_items(*final(self))
                == op_items(*old(self)),
            op_items(*old(self)).len() > 0 ==> entry == Some(op_items(*old(self)).last())
                && op_items(*final(self)) == op_items(*old(self)).drop_last(),
    {
        self.inner.pop()
    }

    /// `SmallVec::as_slice`: a slice of all the entries held, the oldest
    /// first.
    #[verifier::external_body]
    pub(crate) fn as_slice(&self) -> (entries: &[OpAndSpan])
        ensures
            entries@ == op_items(*self),
    {
        self.inner.as_slice()
    }
}

/// The licensees that a minimization has chosen from.
#[verifier::external_body]
pub struct LicenseeList {
    inner: SmallVec<[Licensee; 5]>,
}

/// The licensees that a list holds, in order.
pub uninterp spec fn licensee_items(list: LicenseeList) -> Seq<Licensee>;

impl LicenseeList {
    /// `SmallVec::new`: the new list holds nothing.
    #[verifier::external_body]
    pub(crate) fn new() -> (list: LicenseeList)
        ensures
            licensee_items(list) == Seq::<Licensee>::empty(),
    {
        LicenseeList { inner: SmallVec::new() }
    }

    /// `SmallVec::push`: the licensee is appended after those already held.
    #[verifier::external_body]
    pub(crate) fn push(&mut self, licensee: Licensee)
        ensures
            licensee_items(*final(self)) == licensee_items(*old(self)).push(licensee),
    {
        self.inner.push(licensee)
    }

    /// `SmallVec::as_slice`: a slice of all the licensees held, in order.
    #[verifier::external_body]
    pub(crate) fn as_slice(&self) -> (licensees: &[Licensee])
        ensures
            licensees@ == licensee_items(*self),
    {
        self.inner.as_slice()
    }
}

} // verus!
