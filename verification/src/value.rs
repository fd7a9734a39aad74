//! The values an address or operand may hold.

use std::borrow::Cow;
use std::borrow::ToOwned;
use vstd::prelude::*;

verus! {

/// Cloning a [`Cow`] gives a value of the same kind: a borrowed one is copied
/// as a borrow, an owned one by cloning what it owns. Nothing is claimed of the
/// result here.
pub assume_specification<'a, B>[ <Cow<'a, B> as Clone>::clone ](c: &Cow<'a, B>) -> (r: Cow<'a, B>)
    where B: ToOwned + ?Sized
;

/// The width in bits of an address taken from an object file.
pub const ADDRESS_BITS: usize = 64;

/// A disassembled function. Nothing is recorded of one yet: the type keeps
/// the place for instructions, basic blocks and a control-flow graph.
#[derive(Clone, Copy, Debug)]
pub struct Function {}

/// A value that an operand or an address may hold.
#[derive(Clone, Debug)]
pub enum Rvalue {
    /// Undefined value of unknown length.
    Undefined,
    /// Variable reference.
    Variable {
        /// Variable name. Names starting with "__" are reserved.
        name: Cow<'static, str>,
        /// SSA subscript. This can be set to None in most cases.
        subscript: Option<usize>,
        /// First bit of the variable we want to read. Can be set to 0 in most cases.
        offset: usize,
        /// Number of bits we want to read.
        size: usize,
    },
    /// Constant.
    Constant {
        /// Value.
        value: u64,
        /// Size in bits.
        size: usize,
    },
}

/// What an [`Rvalue`] denotes, with the variable's name as a sequence of
/// characters.
pub enum RvalueView {
    Undefined,
    Variable { name: Seq<char>, subscript: Option<usize>, offset: usize, size: usize },
    Constant { value: u64, size: usize },
}

impl View for Rvalue {
    type V = RvalueView;

    open spec fn view(&self) -> RvalueView {
        match self {
            Rvalue::Undefined => RvalueView::Undefined,
            Rvalue::Variable { name, subscript, offset, size } => RvalueView::Variable {
                name: name@,
                subscript: *subscript,
                offset: *offset,
                size: *size,
            },
            Rvalue::Constant { value, size } => RvalueView::Constant { value: *value, size: *size },
        }
    }
}

impl RvalueView {
    /// The constant of full address width that holds `address`.
    pub open spec fn address(address: u64) -> RvalueView {
        RvalueView::Constant { value: address, size: ADDRESS_BITS }
    }
}

impl Rvalue {
    /// The constant of 64 bits that holds `v`: the form in which a known
    /// address labels a call target that is not disassembled yet.
    pub fn new_u64(v: u64) -> (r: Rvalue)
        ensures
            r == (Rvalue::Constant { value: v, size: 64 }),
            r@ == RvalueView::address(v),
    {
        Rvalue::Constant { value: v, size: ADDRESS_BITS }
    }
}

} // verus!
