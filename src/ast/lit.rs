use vstd::prelude::*;

use crate::utils::Loc;

verus! {

/// A literal.
#[derive(Debug)]
pub enum Lit {
    Int32(Int32Lit),
}

/// A decimal integer literal, kept as the digits of the source.
#[derive(Debug)]
pub struct Int32Lit {
    pub loc: Loc,
    pub num: String,
}

impl Lit {
    pub fn loc(&self) -> (r: Loc)
        ensures
            r == (match self {
                Lit::Int32(l) => l.loc,
            }),
    {
        match self {
            Lit::Int32(lit) => lit.loc,
        }
    }
}

} // verus!
