//! Tape is a representation of the Turing machine infinite tape.
//!
//! The tape is a value: writing and moving return a new tape and leave the old
//! one as it was.

use std::sync::Arc;
use vstd::prelude::*;

verus! {

/// The mathematical tape: the blank symbol, the symbol under the head, and the
/// cells that have been visited or loaded on either side of the head, nearest
/// to the head first. Every cell beyond the end of `left` or `right` holds
/// `blank`.
#[verifier::ext_equal]
pub struct TapeView<S> {
    /// The symbol of every cell that is not stored.
    pub blank: S,
    /// The cells to the left of the head, nearest first.
    pub left: Seq<S>,
    /// The symbol under the head.
    pub current: S,
    /// The cells to the right of the head, nearest first.
    pub right: Seq<S>,
}

/// The symbol next to the head on one side of the tape: the first stored cell,
/// or the blank where none is stored.
pub open spec fn nearest<S>(half: Seq<S>, blank: S) -> S {
    if half.len() > 0 {
        half[0]
    } else {
        blank
    }
}

/// One side of the tape without the cell next to the head. A side with no
/// stored cell stays as it is.
pub open spec fn beyond<S>(half: Seq<S>) -> Seq<S> {
    if half.len() > 0 {
        half.subrange(1, half.len() as int)
    } else {
        half
    }
}

impl<S> TapeView<S> {
    /// The tape that holds `blank` in every cell.
    pub open spec fn empty(blank: S) -> TapeView<S> {
        TapeView { blank, left: Seq::empty(), current: blank, right: Seq::empty() }
    }

    /// The same tape with `symbol` under the head.
    pub open spec fn write(self, symbol: S) -> TapeView<S> {
        TapeView { current: symbol, ..self }
    }

    /// The same tape with the head one cell further left.
    pub open spec fn move_left(self) -> TapeView<S> {
        TapeView {
            blank: self.blank,
            left: beyond(self.left),
            current: nearest(self.left, self.blank),
            right: seq![self.current] + self.right,
        }
    }

    /// The same tape with the head one cell further right.
    pub open spec fn move_right(self) -> TapeView<S> {
        TapeView {
            blank: self.blank,
            left: seq![self.current] + self.left,
            current: nearest(self.right, self.blank),
            right: beyond(self.right),
        }
    }

    /// The symbol of the cell `offset` places to the right of the head
    /// (to the left, where `offset` is negative).
    pub open spec fn cell(self, offset: int) -> S {
        if offset == 0 {
            self.current
        } else if 0 < offset <= self.right.len() {
            self.right[offset - 1]
        } else if 0 < -offset <= self.left.len() {
            self.left[-offset - 1]
        } else {
            self.blank
        }
    }
}

impl<S> TapeView<S> {
    /// A tape that has just been made from a blank alone reads that blank
    /// under the head, and in every other cell.
    pub proof fn lemma_empty_reads_blank(blank: S, offset: int)
        ensures
            TapeView::empty(blank).current == blank,
            TapeView::empty(blank).blank == blank,
            TapeView::empty(blank).cell(offset) == blank,
    {
    }

    /// Writing puts the symbol under the head and changes neither the blank
    /// nor any other cell.
    pub proof fn lemma_write_then_read(self, symbol: S, offset: int)
        ensures
            self.write(symbol).current == symbol,
            self.write(symbol).blank == self.blank,
            self.write(symbol).cell(0) == symbol,
            offset != 0 ==> self.write(symbol).cell(offset) == self.cell(offset),
    {
    }

    /// Moving the head to the left changes no cell and no blank: what was
    /// `offset - 1` places from the head is `offset` places from it afterwards.
    pub proof fn lemma_move_left_shifts(self, offset: int)
        ensures
            self.move_left().blank == self.blank,
            self.move_left().cell(offset) == self.cell(offset - 1),
    {
    }

    /// Moving the head to the right changes no cell and no blank: what was
    /// `offset + 1` places from the head is `offset` places from it afterwards.
    pub proof fn lemma_move_right_shifts(self, offset: int)
        ensures
            self.move_right().blank == self.blank,
            self.move_right().cell(offset) == self.cell(offset + 1),
    {
    }

    /// A move to the left followed by a move to the right comes back to the
    /// same symbol under the head, on a tape with the same cells, the same
    /// blank and the same right side.
    pub proof fn lemma_left_then_right(self, offset: int)
        ensures
            self.move_left().move_right().current == self.current,
            self.move_left().move_right().blank == self.blank,
            self.move_left().move_right().right == self.right,
            self.move_left().move_right().cell(offset) == self.cell(offset),
    {
        self.move_left().lemma_move_right_shifts(offset);
        self.lemma_move_left_shifts(offset + 1);
        assert(beyond(seq![self.current] + self.right) == self.right);
    }

    /// A move to the right followed by a move to the left comes back to the
    /// same symbol under the head, on a tape with the same cells, the same
    /// blank and the same left side.
    pub proof fn lemma_right_then_left(self, offset: int)
        ensures
            self.move_right().move_left().current == self.current,
            self.move_right().move_left().blank == self.blank,
            self.move_right().move_left().left == self.left,
            self.move_right().move_left().cell(offset) == self.cell(offset),
    {
        self.move_right().lemma_move_left_shifts(offset);
        self.lemma_move_right_shifts(offset - 1);
        assert(beyond(seq![self.current] + self.left) == self.left);
    }
}

/// A stored cell of one side of the tape, with the cells beyond it.
struct TapeCell<S: Copy> {
    symbol: S,
    beyond: HalfTape<S>,
}

/// One side of the tape, seen from the head outwards: a stack whose top is the
/// cell next to the head. The cells beyond its end are blank and not stored.
/// Stacks share the cells they have in common, so that a tape and the tapes
/// made from it by writing and moving share all but a few cells.
struct HalfTape<S: Copy> {
    nearest: Option<Arc<TapeCell<S>>>,
}

/// Takes the cell out of `shared` where no other stack holds it. This is
/// `Arc::into_inner`: it returns the value if the reference was the last one
/// to it, and else gives the reference up and returns `None`. It does not
/// panic.
#[verifier::external_body]
fn into_sole_owner<S: Copy>(shared: Arc<TapeCell<S>>) -> (cell: Option<TapeCell<S>>)
    ensures
        cell matches Some(owned) ==> owned == *shared,
    opens_invariants none
    no_unwind
{
    Arc::into_inner(shared)
}

impl<S: Copy> Drop for HalfTape<S> {
    /// Frees the cells that no other stack holds, one after the other, so that
    /// giving up a long tape does not use the call stack.
    fn drop(&mut self)
        opens_invariants none
        no_unwind
    {
        let mut next: Option<Arc<TapeCell<S>>> = None;
        std::mem::swap(&mut next, &mut self.nearest);
        loop
            decreases next,
        {
            match next {
                None => {
                    break ;
                },
                Some(shared) => {
                    match into_sole_owner(shared) {
                        Some(mut cell) => {
                            next = None;
                            std::mem::swap(&mut next, &mut cell.beyond.nearest);
                        },
                        None => {
                            break ;
                        },
                    }
                },
            }
        }
    }
}

impl<S: Copy> Clone for HalfTape<S> {
    /// A stack that shares every cell of this one.
    fn clone(&self) -> (half: HalfTape<S>)
        ensures
            half == *self,
    {
        match &self.nearest {
            None => HalfTape { nearest: None },
            Some(cell) => HalfTape { nearest: Some(Arc::clone(cell)) },
        }
    }
}

impl<S: Copy> HalfTape<S> {
    /// The stored cells, nearest to the head first.
    closed spec fn view(&self) -> Seq<S>
        decreases self,
    {
        match self.nearest {
            None => Seq::empty(),
            Some(cell) => seq![cell.symbol] + cell.beyond.view(),
        }
    }

    fn empty() -> (half: HalfTape<S>)
        ensures
            half.view() == Seq::<S>::empty(),
    {
        HalfTape { nearest: None }
    }

    fn pop(&self) -> (popped: (Option<S>, HalfTape<S>))
        ensures
            popped.0 == if self.view().len() > 0 {
                Some(self.view()[0])
            } else {
                None
            },
            popped.1.view() == beyond(self.view()),
    {
        match &self.nearest {
            None => (None, HalfTape::empty()),
            Some(cell) => (Some(cell.symbol), cell.beyond.clone()),
        }
    }

    fn push(self, symbol: S) -> (half: HalfTape<S>)
        ensures
            half.view() == seq![symbol] + self.view(),
    {
        HalfTape { nearest: Some(Arc::new(TapeCell { symbol, beyond: self })) }
    }

    /// The stack whose cells are `symbols`, the first of them on top.
    fn nearest_first(symbols: &Vec<S>) -> (half: HalfTape<S>)
        ensures
            half.view() == symbols@,
    {
        let mut half: HalfTape<S> = HalfTape::empty();
        let mut rest: usize = symbols.len();
        while rest > 0
            invariant
                rest <= symbols@.len(),
                half.view() == symbols@.subrange(rest as int, symbols@.len() as int),
            decreases rest,
        {
            rest -= 1;
            half = half.push(symbols[rest]);
        }
        half
    }

    /// The stored cells in a vector, nearest to the head first.
    fn cells(&self) -> (cells: Vec<S>)
        ensures
            cells@ == self.view(),
    {
        let mut cells: Vec<S> = Vec::new();
        let mut cursor: &HalfTape<S> = self;
        loop
            invariant
                cells@ + cursor.view() == self.view(),
            ensures
                cells@ == self.view(),
            decreases cursor,
        {
            match &cursor.nearest {
                None => {
                    break ;
                },
                Some(cell) => {
                    cells.push(cell.symbol);
                    cursor = &cell.beyond;
                },
            }
        }
        cells
    }
}

/// Contract a concrete tape should adhere to: each operation does to the tape
/// what the operation of the same name does to its view.
pub trait Tape<S: Copy>: View<V = TapeView<S>> + Sized {
    /// Reads the symbol at the location of the head of the Turing machine.
    fn read(&self) -> (symbol: S)
        ensures
            symbol == self@.current,
    ;

    /// Writes `symbol` at the location of the head of the Turing machine.
    fn write(&self, symbol: S) -> (tape: Self)
        ensures
            tape@ == self@.write(symbol),
    ;

    /// The blank symbol for this tape.
    fn blank(&self) -> (symbol: S)
        ensures
            symbol == self@.blank,
    ;

    /// Moves the head of the Turing machine one cell to the left on this tape.
    fn left(&self) -> (tape: Self)
        ensures
            tape@ == self@.move_left(),
    ;

    /// Moves the head of the Turing machine one cell to the right on this tape.
    fn right(&self) -> (tape: Self)
        ensures
            tape@ == self@.move_right(),
    ;
}

/// A tape that stores the visited cells on either side of the head as a stack.
/// Writing and moving take a constant number of steps, and the tapes they
/// return share their cells with the tape they were made from.
pub struct ConcreteTape<S: Copy> {
    blank: S,
    left: HalfTape<S>,
    current: S,
    right: HalfTape<S>,
}

impl<S: Copy> View for ConcreteTape<S> {
    type V = TapeView<S>;

    closed spec fn view(&self) -> TapeView<S> {
        TapeView {
            blank: self.blank,
            left: self.left.view(),
            current: self.current,
            right: self.right.view(),
        }
    }
}

impl<S: Copy> Clone for ConcreteTape<S> {
    fn clone(&self) -> (tape: ConcreteTape<S>)
        ensures
            tape@ == self@,
    {
        ConcreteTape {
            blank: self.blank,
            left: self.left.clone(),
            current: self.current,
            right: self.right.clone(),
        }
    }
}

impl<S: Copy> ConcreteTape<S> {
    /// The tape that holds `blank` in every cell.
    pub fn empty(blank: S) -> (tape: ConcreteTape<S>)
        ensures
            tape@ == TapeView::empty(blank),
    {
        ConcreteTape {
            blank,
            left: HalfTape::empty(),
            current: blank,
            right: HalfTape::empty(),
        }
    }
}

impl<S: Copy> ConcreteTape<S> {
    /// The stored cells to the left of the head, nearest to the head first.
    /// Every cell further left holds the blank.
    pub fn left_cells(&self) -> (cells: Vec<S>)
        ensures
            cells@ == self@.left,
    {
        self.left.cells()
    }

    /// The stored cells to the right of the head, nearest to the head first.
    /// Every cell further right holds the blank.
    pub fn right_cells(&self) -> (cells: Vec<S>)
        ensures
            cells@ == self@.right,
    {
        self.right.cells()
    }
}

impl<S: Copy> Tape<S> for ConcreteTape<S> {
    fn read(&self) -> (symbol: S) {
        self.current
    }

    fn write(&self, symbol: S) -> (tape: ConcreteTape<S>) {
        ConcreteTape {
            blank: self.blank,
            left: self.left.clone(),
            current: symbol,
            right: self.right.clone(),
        }
    }

    fn blank(&self) -> (symbol: S) {
        self.blank
    }

    fn left(&self) -> (tape: ConcreteTape<S>) {
        let (popped, left_tail) = self.left.pop();
        let current = match popped {
            Some(symbol) => symbol,
            None => self.blank,
        };
        ConcreteTape {
            blank: self.blank,
            left: left_tail,
            current,
            right: self.right.clone().push(self.current),
        }
    }

    fn right(&self) -> (tape: ConcreteTape<S>) {
        let (popped, right_tail) = self.right.pop();
        let current = match popped {
            Some(symbol) => symbol,
            None => self.blank,
        };
        ConcreteTape {
            blank: self.blank,
            left: self.left.clone().push(self.current),
            current,
            right: right_tail,
        }
    }
}

/// Builds a tape from its blank, the symbol under the head and the cells on
/// either side of the head.
pub struct TapeBuilder<S: Copy> {
    tape: ConcreteTape<S>,
}

impl<S: Copy> View for TapeBuilder<S> {
    type V = TapeView<S>;

    /// The tape that `build` returns.
    closed spec fn view(&self) -> TapeView<S> {
        self.tape@
    }
}

impl<S: Copy> TapeBuilder<S> {
    /// Starts from the tape that holds `blank` in every cell.
    pub fn with_blank(blank: S) -> (builder: TapeBuilder<S>)
        ensures
            builder@ == TapeView::empty(blank),
    {
        TapeBuilder { tape: ConcreteTape::empty(blank) }
    }

    /// Puts `symbol` under the head.
    pub fn with_current(&self, symbol: S) -> (builder: TapeBuilder<S>)
        ensures
            builder@ == self@.write(symbol),
    {
        TapeBuilder { tape: self.tape.write(symbol) }
    }

    /// Replaces the cells to the right of the head by `symbols`, the first of
    /// them next to the head.
    pub fn with_right_tape(&self, symbols: Vec<S>) -> (builder: TapeBuilder<S>)
        ensures
            builder@ == (TapeView { right: symbols@, ..self@ }),
    {
        TapeBuilder {
            tape: ConcreteTape {
                blank: self.tape.blank,
                left: self.tape.left.clone(),
                current: self.tape.current,
                right: HalfTape::nearest_first(&symbols),
            },
        }
    }

    /// Replaces the cells to the left of the head by `symbols`, the first of
    /// them next to the head.
    pub fn with_left_tape(&self, symbols: Vec<S>) -> (builder: TapeBuilder<S>)
        ensures
            builder@ == (TapeView { left: symbols@, ..self@ }),
    {
        TapeBuilder {
            tape: ConcreteTape {
                blank: self.tape.blank,
                left: HalfTape::nearest_first(&symbols),
                current: self.tape.current,
                right: self.tape.right.clone(),
            },
        }
    }

    /// The tape as described so far. The builder can be used again.
    pub fn build(&self) -> (tape: ConcreteTape<S>)
        ensures
            tape@ == self@,
    {
        self.tape.clone()
    }
}

} // verus!
