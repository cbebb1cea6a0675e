use vstd::prelude::*;

verus! {

/// A point in the source text: the character index, with its line and column.
#[derive(Clone, Copy, Debug, PartialEq, Eq, Structural)]
pub struct Pos {
    pub line: usize,
    pub column: usize,
    pub pos: usize,
}

impl Pos {
    pub fn new(pos: usize, line: usize, column: usize) -> (r: Self)
        ensures
            r == (Pos { pos, line, column }),
    {
        Pos { pos, line, column }
    }
}

/// The span of source text that a token or a syntax node was built from.
#[derive(Clone, Copy, Debug, PartialEq, Eq, Structural)]
pub struct Loc {
    pub start: Pos,
    pub end: Option<Pos>,
}

impl Loc {
    pub fn new(start: Pos, end: Pos) -> (r: Self)
        ensures
            r == (Loc { start, end: Some(end) }),
    {
        Loc { start, end: Some(end) }
    }

    pub fn get_start(&self) -> (r: Pos)
        ensures
            r == self.start,
    {
        self.start
    }

    pub fn get_end(&self) -> (r: Pos)
        requires
            self.end is Some,
        ensures
            r == self.end.unwrap(),
    {
        self.end.unwrap()
    }
}

} // verus!
