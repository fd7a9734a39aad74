//! Call targets, the nodes of a call graph, and call kinds, the labels of
//! its edges.

use crate::identity::Identity;
use crate::value::{Function, Rvalue, RvalueView};
use vstd::prelude::*;

verus! {

/// A node of the call graph: one callee, in one of three states of
/// resolution.
#[derive(Clone, Debug)]
pub enum CallTarget {
    /// An external function, known by its name only.
    Symbolic(String, Identity),
    /// A resolved and disassembled function.
    Concrete(Function),
    /// A function whose address is known and whose body is not decoded yet.
    Todo(Rvalue, Option<String>, Identity),
}

/// The kind of transfer that an edge of the call graph stands for.
#[derive(Clone, Debug)]
pub enum CallKind {
    /// Not classified yet.
    Unresolved,
    /// A branch taken under a condition only.
    Conditional,
    /// An unconditional jump.
    Unconditional,
    /// A subroutine call.
    Call,
}

/// What a [`CallTarget`] denotes, with names as sequences of characters.
pub enum CallTargetView {
    Symbolic { name: Seq<char>, identity: Identity },
    Concrete,
    Todo { value: RvalueView, label: Option<Seq<char>>, identity: Identity },
}

/// A call target without its identity: what two loads of one input agree on.
pub enum TargetShape {
    Symbolic { name: Seq<char> },
    Concrete,
    Todo { value: RvalueView, label: Option<Seq<char>> },
}

impl CallTargetView {
    /// The identity that the target carries, if its state has one.
    pub open spec fn identity(self) -> Option<Identity> {
        match self {
            CallTargetView::Symbolic { identity, .. } => Some(identity),
            CallTargetView::Concrete => None,
            CallTargetView::Todo { identity, .. } => Some(identity),
        }
    }

    /// The target with its identity left out.
    pub open spec fn shape(self) -> TargetShape {
        match self {
            CallTargetView::Symbolic { name, .. } => TargetShape::Symbolic { name },
            CallTargetView::Concrete => TargetShape::Concrete,
            CallTargetView::Todo { value, label, .. } => TargetShape::Todo { value, label },
        }
    }
}

impl View for CallTarget {
    type V = CallTargetView;

    open spec fn view(&self) -> CallTargetView {
        match self {
            CallTarget::Symbolic(name, identity) => CallTargetView::Symbolic {
                name: name@,
                identity: *identity,
            },
            CallTarget::Concrete(_) => CallTargetView::Concrete,
            CallTarget::Todo(value, name, identity) => CallTargetView::Todo {
                value: value@,
                label: match name {
                    Some(n) => Some(n@),
                    None => None,
                },
                identity: *identity,
            },
        }
    }
}

impl CallTarget {
    /// The identity that the target carries: a symbolic or a pending target
    /// has one, a disassembled function has none.
    pub fn identity(&self) -> (id: Option<Identity>)
        ensures
            id == self@.identity(),
    {
        match self {
            CallTarget::Symbolic(_, identity) => Some(*identity),
            CallTarget::Concrete(_) => None,
            CallTarget::Todo(_, _, identity) => Some(*identity),
        }
    }
}

} // verus!
