//! The whole compilation: source text in, assembly lines out.
use vstd::prelude::*;
use vstd::string::*;

use crate::code_gen::{assemble, epilogue_text, gen_seq, prologue_text, Context};
use crate::state::{SResult, State, StateView, MAX_INPUT};
use crate::statement::p_program;
use crate::token::{Kind, TokenView};

verus! {

/// The reading state before the first token of `input` is read.
pub open spec fn initial_state(input: Seq<char>) -> StateView {
    StateView {
        pos: 0,
        input,
        cur: TokenView { loc: None, kind: Kind::Eof },
        last: TokenView { loc: None, kind: Kind::Eof },
        locals: Seq::empty(),
    }
}

/// The assembly of a program: its prologue, its statements with labels
/// numbered from 1, and the epilogue.
pub open spec fn program_lines(p: crate::ast::ProgramView) -> Seq<Seq<char>> {
    seq![prologue_text(p.stack_size as int)] + gen_seq(p.stack_size as int, p.body, 0, Seq::empty()).1
        + seq![epilogue_text()]
}

/// The assembly lines for `input`, or its first syntax error.
pub fn process(input: &str) -> (r: SResult<Vec<String>>)
    requires
        input@.len() <= MAX_INPUT,
    ensures
        match p_program(initial_state(input@)) {
            Ok(p) => r matches Ok(lines) && lines@.map_values(|s: String| s@) == program_lines(p),
            Err(e) => r matches Err(err) && err@ == e,
        },
{
    let mut state = State::new(String::from_str(input));
    proof {
        assert(state@ == initial_state(input@));
    }
    let program = state.parse()?;
    let context = Context::new(program.stack_size);
    Ok(assemble(&program, context))
}

} // verus!
