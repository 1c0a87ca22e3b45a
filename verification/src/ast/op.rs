use vstd::prelude::*;

verus! {

/// An arithmetic operator.
#[derive(Clone, Copy, Debug, PartialEq, Eq, Structural)]
pub enum OpArith {
    ADD,
    SUB,
    MUL,
    DIV,
    MOD,
    POW,
}

/// A comparison operator.
#[derive(Clone, Copy, Debug, PartialEq, Eq, Structural)]
pub enum OpEqs {
    EQ,
    NE,
    LT,
    LE,
    GT,
    GE,
}

/// A range operator: `..` excludes its end, `..=` includes it.
#[derive(Clone, Copy, Debug, PartialEq, Eq, Structural)]
pub enum OpRange {
    RANGE,
    RANGEI,
}

impl View for OpArith {
    type V = OpArith;

    open spec fn view(&self) -> OpArith {
        *self
    }
}

impl View for OpEqs {
    type V = OpEqs;

    open spec fn view(&self) -> OpEqs {
        *self
    }
}

impl View for OpRange {
    type V = OpRange;

    open spec fn view(&self) -> OpRange {
        *self
    }
}

} // verus!
