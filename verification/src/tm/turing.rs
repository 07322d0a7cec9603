//! The actual Turing machine

use crate::tm::movement::Movement;
use crate::tm::tape::ConcreteTape;
use crate::tm::tape::Tape;
use crate::tm::tape::TapeView;
use crate::tm::transition::compares_by_value;
use crate::tm::transition::Lookup;
use crate::tm::transition::TransitionKey;
use crate::tm::transition::TransitionValue;
use crate::tm::transition::Transitions;
use std::sync::Arc;
use vstd::prelude::*;

verus! {

/// The mathematical machine: a state, a tape and the mapping from state and
/// scanned symbol to what the machine does next.
#[verifier::ext_equal]
#[verifier::reject_recursive_types(Q)]
#[verifier::reject_recursive_types(S)]
pub struct MachineView<Q, S> {
    /// The state the machine is in.
    pub state: Q,
    /// The tape, with the head where the machine has left it.
    pub tape: TapeView<S>,
    /// The transitions the machine can make.
    pub transitions: Map<TransitionKey<Q, S>, TransitionValue<Q, S>>,
}

impl<Q, S> MachineView<Q, S> {
    /// The state the machine is in, with the symbol under the head.
    pub open spec fn key(self) -> TransitionKey<Q, S> {
        TransitionKey { state: self.state, symbol: self.tape.current }
    }

    /// Whether the machine has halted: it has no transition for the state it
    /// is in and the symbol under the head.
    pub open spec fn halted(self) -> bool {
        !self.transitions.contains_key(self.key())
    }

    /// The machine after it has made the transition `next`: the symbol is
    /// written first, then the head moves, then the state changes. The
    /// transitions stay as they are.
    pub open spec fn apply(self, next: TransitionValue<Q, S>) -> MachineView<Q, S> {
        MachineView {
            state: next.state,
            tape: match next.movement {
                Movement::Left => self.tape.write(next.symbol).move_left(),
                Movement::Right => self.tape.write(next.symbol).move_right(),
            },
            transitions: self.transitions,
        }
    }

    /// The machine one transition later, or `None` where it has halted.
    pub open spec fn step(self) -> Option<MachineView<Q, S>> {
        if self.halted() {
            None
        } else {
            Some(self.apply(self.transitions[self.key()]))
        }
    }
}

impl<Q, S> MachineView<Q, S> {
    /// A machine that has not halted makes the transition that its table
    /// holds for its state and the symbol under the head: it takes the state
    /// of the transition and keeps its table and its blank. The cell that was
    /// under the head holds the symbol of the transition, every other cell
    /// holds what it held, and the head is one cell further in the direction
    /// of the transition: what is `offset` places from the head afterwards was
    /// `offset + 1` places from it before a move to the right, and
    /// `offset - 1` places before a move to the left.
    pub proof fn lemma_step_writes_then_moves(self, offset: int)
        requires
            !self.halted(),
        ensures
            self.step() is Some,
            ({
                let next = self.transitions[self.key()];
                let after = self.step().unwrap();
                let before = match next.movement {
                    Movement::Left => offset - 1,
                    Movement::Right => offset + 1,
                };
                &&& after.state == next.state
                &&& after.transitions == self.transitions
                &&& after.tape.blank == self.tape.blank
                &&& after.tape.cell(offset) == if before == 0 {
                    next.symbol
                } else {
                    self.tape.cell(before)
                }
            }),
    {
        let next = self.transitions[self.key()];
        let written = self.tape.write(next.symbol);
        match next.movement {
            Movement::Left => {
                written.lemma_move_left_shifts(offset);
                self.tape.lemma_write_then_read(next.symbol, offset - 1);
            },
            Movement::Right => {
                written.lemma_move_right_shifts(offset);
                self.tape.lemma_write_then_read(next.symbol, offset + 1);
            },
        }
    }
}

/// The actual Turing machine. A machine and the machines that stepping leads
/// to share one table of transitions.
pub struct Machine<Q: Copy + Eq, S: Copy + Eq> {
    state: Q,
    tape: ConcreteTape<S>,
    transitions: Arc<Transitions<Q, S>>,
}

impl<Q: Copy + Eq, S: Copy + Eq> View for Machine<Q, S> {
    type V = MachineView<Q, S>;

    closed spec fn view(&self) -> MachineView<Q, S> {
        MachineView { state: self.state, tape: self.tape@, transitions: self.transitions@ }
    }
}

impl<Q: Copy + Eq, S: Copy + Eq> Machine<Q, S> {
    /// Create a Turing machine from an initial state, a tape and transitions
    pub fn new(q: Q, tape: ConcreteTape<S>, transitions: Transitions<Q, S>) -> (machine: Machine<
        Q,
        S,
    >)
        ensures
            machine@ == (MachineView { state: q, tape: tape@, transitions: transitions@ }),
    {
        Machine { state: q, tape, transitions: Arc::new(transitions) }
    }

    /// Step the machine through one transition: `None` where the machine has
    /// halted, else the machine that the transition leads to.
    pub fn step(&self) -> (next: Option<Machine<Q, S>>)
        requires
            compares_by_value::<Q, S>(),
        ensures
            match next {
                Some(machine) => self@.step() == Some(machine@),
                None => self@.step() is None,
            },
    {
        let symbol = self.tape.read();
        let key = TransitionKey::new(self.state, symbol);
        match self.transitions.lookup(&key) {
            Some(next) => {
                let written = self.tape.write(next.symbol);
                let tape = match next.movement {
                    Movement::Left => written.left(),
                    Movement::Right => written.right(),
                };
                Some(Machine { state: next.state, tape, transitions: Arc::clone(&self.transitions) })
            },
            None => None,
        }
    }

    /// The state the machine is in.
    pub fn state(&self) -> (state: Q)
        ensures
            state == self@.state,
    {
        self.state
    }

    /// The tape, with the head where the machine has left it.
    pub fn tape(&self) -> (tape: &ConcreteTape<S>)
        ensures
            tape@ == self@.tape,
    {
        &self.tape
    }
}

/// Stepping is deterministic: whatever two calls of `step` on one machine
/// return, both are `None`, and that exactly where the machine has halted, or
/// both are machines with the same state, tape and transitions. A machine that
/// has halted once stays halted however often it is stepped.
pub proof fn lemma_step_is_deterministic<Q: Copy + Eq, S: Copy + Eq>(
    machine: Machine<Q, S>,
    first: Option<Machine<Q, S>>,
    second: Option<Machine<Q, S>>,
)
    requires
        call_ensures(Machine::<Q, S>::step, (&machine,), first),
        call_ensures(Machine::<Q, S>::step, (&machine,), second),
    ensures
        first is None <==> machine@.halted(),
        first is None <==> second is None,
        first is Some ==> first.unwrap()@ == second.unwrap()@,
{
}

} // verus!
