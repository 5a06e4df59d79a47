use vstd::prelude::*;
use vstd::string::StringSliceAdditionalSpecFns;
use vstd::utf8::encode_utf8;

use crate::calls::NativeCall;
use crate::error::Error;
use crate::status::Failure;
use crate::text::{c_string, c_string_of};

verus! {

/// What the engine is asked to do next while a table row is added.
pub enum RowAction {
    /// Stage the next cell, given as a C string.
    Stage(Vec<u8>),
    /// Commit the staged cells as one row.
    Commit,
    /// The native call just made failed; the row stops, and the failure is
    /// reported with the engine's description of its last error.
    Fail(Failure),
    /// The row is done, with this outcome.
    Finish(Result<(), Error>),
}

/// The meaning of a `RowAction`.
pub enum RowStep {
    Stage(Seq<u8>),
    Commit,
    Fail(NativeCall),
    Finish(Result<(), Seq<char>>),
}

impl View for RowAction {
    type V = RowStep;

    open spec fn view(&self) -> RowStep {
        match self {
            RowAction::Stage(bytes) => RowStep::Stage(bytes@),
            RowAction::Commit => RowStep::Commit,
            RowAction::Fail(f) => RowStep::Fail(f@),
            RowAction::Finish(Ok(())) => RowStep::Finish(Ok(())),
            RowAction::Finish(Err(e)) => RowStep::Finish(Err(e@)),
        }
    }
}

/// Where the adding of a row stands.
#[derive(Clone, Copy, PartialEq, Eq, Structural)]
pub enum RowPhase {
    /// Nothing was asked of the engine yet.
    Ready,
    /// The engine was asked to stage a cell.
    Staging,
    /// The engine was asked to commit the row.
    Committing,
    /// The row is done.
    Finished,
}

/// What follows once the first `i` cells are staged: staging cell `i`, or,
/// past the last cell, committing the row. A cell that holds a NUL byte
/// ends the row with the error that names it.
pub open spec fn step_at(cells: Seq<Seq<char>>, i: int) -> RowStep {
    if i >= cells.len() {
        RowStep::Commit
    } else {
        match c_string_of(encode_utf8(cells[i])) {
            Ok(bytes) => RowStep::Stage(bytes),
            Err(msg) => RowStep::Finish(Err(msg)),
        }
    }
}

/// The phase that follows asking for `step`.
pub open spec fn phase_of(step: RowStep) -> RowPhase {
    match step {
        RowStep::Stage(_) => RowPhase::Staging,
        RowStep::Commit => RowPhase::Committing,
        RowStep::Fail(_) => RowPhase::Finished,
        RowStep::Finish(_) => RowPhase::Finished,
    }
}

/// Adds one row to a table: stages its cells one by one, in order, and then
/// commits them, stopping at the first cell that cannot be passed to the
/// engine or at the first native call that fails.
pub struct RowStaging<'a> {
    cells: &'a [&'a str],
    next: usize,
    phase: RowPhase,
}

impl<'a> RowStaging<'a> {
    /// The cells of the row.
    pub closed spec fn cells(&self) -> Seq<Seq<char>> {
        self.cells@.map_values(|c: &str| c@)
    }

    /// The number of cells staged so far, or, while one is being staged,
    /// its index.
    pub closed spec fn position(&self) -> int {
        self.next as int
    }

    /// Where the row stands.
    pub closed spec fn phase(&self) -> RowPhase {
        self.phase
    }

    /// Sound state: the position never passes the last cell.
    pub closed spec fn wf(&self) -> bool {
        &&& self.next <= self.cells@.len()
        &&& self.phase == RowPhase::Staging ==> self.next < self.cells@.len()
    }

    /// A row of `cells` of which nothing was asked of the engine yet.
    pub fn new(cells: &'a [&'a str]) -> (s: Self)
        ensures
            s.wf(),
            s.cells() == cells@.map_values(|c: &str| c@),
            s.position() == 0,
            s.phase() == RowPhase::Ready,
    {
        RowStaging { cells, next: 0, phase: RowPhase::Ready }
    }

    /// What is asked of the engine at position `i`.
    fn action_at(&mut self, i: usize) -> (a: RowAction)
        requires
            i <= old(self).cells@.len(),
        ensures
            a@ == step_at(old(self).cells(), i as int),
            final(self).cells == old(self).cells,
            final(self).next == i,
            final(self).phase == phase_of(a@),
            final(self).wf(),
    {
        self.next = i;
        if i == self.cells.len() {
            self.phase = RowPhase::Committing;
            RowAction::Commit
        } else {
            let cell: &str = self.cells[i];
            proof {
                assert(self.cells()[i as int] == cell@);
                assert(cell.spec_bytes() == encode_utf8(cell@));
            }
            match c_string(cell) {
                Ok(bytes) => {
                    self.phase = RowPhase::Staging;
                    RowAction::Stage(bytes)
                },
                Err(e) => {
                    self.phase = RowPhase::Finished;
                    RowAction::Finish(Err(e))
                },
            }
        }
    }

    /// The first thing asked of the engine: staging the first cell, or, for
    /// a row without cells, committing it.
    pub fn start(&mut self) -> (a: RowAction)
        requires
            old(self).wf(),
            old(self).phase() == RowPhase::Ready,
        ensures
            a@ == step_at(old(self).cells(), 0),
            final(self).cells() == old(self).cells(),
            final(self).position() == 0,
            final(self).phase() == phase_of(a@),
            final(self).wf(),
    {
        self.action_at(0)
    }

    /// What follows once the engine answered the last request with the
    /// status `ret`. A failed call stops the row as a failure of that call.
    /// A staged cell is followed by the next cell, or by the commit; a
    /// commit ends the row.
    pub fn advance(&mut self, ret: i32) -> (a: RowAction)
        requires
            old(self).wf(),
            old(self).phase() == RowPhase::Staging || old(self).phase() == RowPhase::Committing,
        ensures
            final(self).cells() == old(self).cells(),
            final(self).wf(),
            final(self).phase() == phase_of(a@),
            ret == 0 && old(self).phase() == RowPhase::Staging ==> a@ == step_at(
                old(self).cells(),
                old(self).position() + 1,
            ) && final(self).position() == old(self).position() + 1,
            ret == 0 && old(self).phase() == RowPhase::Committing ==> a@ == RowStep::Finish(
                Ok(()),
            ),
            ret != 0 && old(self).phase() == RowPhase::Staging ==> a@ == RowStep::Fail(
                NativeCall::TableStageCell,
            ),
            ret != 0 && old(self).phase() == RowPhase::Committing ==> a@ == RowStep::Fail(
                NativeCall::TableCommitRow,
            ),
    {
        let call = if self.phase == RowPhase::Staging {
            NativeCall::TableStageCell
        } else {
            NativeCall::TableCommitRow
        };
        if ret != 0 {
            self.phase = RowPhase::Finished;
            RowAction::Fail(Failure::new(call))
        } else if self.phase == RowPhase::Staging {
            let n = self.cells.len();
            assert(self.next < n);
            let i = self.next + 1;
            self.action_at(i)
        } else {
            self.phase = RowPhase::Finished;
            RowAction::Finish(Ok(()))
        }
    }
}

} // verus!

verus! {

/// What the engine is asked, in order, from position `i` on, when every
/// native call it is asked to make succeeds.
pub open spec fn steps_when_calls_succeed(cells: Seq<Seq<char>>, i: int) -> Seq<RowStep>
    decreases cells.len() - i,
{
    if i >= cells.len() {
        seq![RowStep::Commit, RowStep::Finish(Ok(()))]
    } else {
        match step_at(cells, i) {
            RowStep::Stage(bytes) => seq![RowStep::Stage(bytes)] + steps_when_calls_succeed(
                cells,
                i + 1,
            ),
            other => seq![other],
        }
    }
}

/// Staging each of `cells`, in order, as a C string.
pub open spec fn stage_each(cells: Seq<Seq<char>>) -> Seq<RowStep> {
    cells.map_values(|c: Seq<char>| RowStep::Stage(encode_utf8(c).push(0u8)))
}

proof fn steps_over_clean_cells(cells: Seq<Seq<char>>, i: int, k: int)
    requires
        0 <= i <= k <= cells.len(),
        forall|j: int| i <= j < k ==> crate::text::nul_free(#[trigger] encode_utf8(cells[j])),
    ensures
        steps_when_calls_succeed(cells, i) == stage_each(cells.subrange(i, k))
            + steps_when_calls_succeed(cells, k),
    decreases k - i,
{
    if i < k {
        steps_over_clean_cells(cells, i + 1, k);
        assert(crate::text::nul_free(encode_utf8(cells[i])));
        assert(stage_each(cells.subrange(i, k)) =~= seq![
            RowStep::Stage(encode_utf8(cells[i]).push(0u8)),
        ] + stage_each(cells.subrange(i + 1, k)));
        assert(steps_when_calls_succeed(cells, i) =~= stage_each(cells.subrange(i, k))
            + steps_when_calls_succeed(cells, k));
    } else {
        assert(stage_each(cells.subrange(i, k)) =~= Seq::empty());
        assert(steps_when_calls_succeed(cells, i) =~= stage_each(cells.subrange(i, k))
            + steps_when_calls_succeed(cells, k));
    }
}

/// A row whose cells all pass as C strings, where every native call
/// succeeds, is staged cell by cell, in order, then committed, and ends
/// without error.
pub proof fn clean_row_is_staged_then_committed(cells: Seq<Seq<char>>)
    requires
        forall|j: int| 0 <= j < cells.len() ==> crate::text::nul_free(#[trigger] encode_utf8(cells[j])),
    ensures
        steps_when_calls_succeed(cells, 0) == stage_each(cells) + seq![
            RowStep::Commit,
            RowStep::Finish(Ok(())),
        ],
{
    steps_over_clean_cells(cells, 0, cells.len() as int);
    assert(cells.subrange(0, cells.len() as int) =~= cells);
}

/// A cell that holds a NUL byte stops the row: the cells before it are
/// staged, nothing after it is staged, the row is not committed, and the
/// outcome is the error that names the offset of the NUL byte.
pub proof fn nul_cell_stops_row(cells: Seq<Seq<char>>, k: int)
    requires
        0 <= k < cells.len(),
        forall|j: int| 0 <= j < k ==> crate::text::nul_free(#[trigger] encode_utf8(cells[j])),
        !crate::text::nul_free(encode_utf8(cells[k])),
    ensures
        steps_when_calls_succeed(cells, 0) == stage_each(cells.take(k)) + seq![
            RowStep::Finish(
                Err(
                    crate::error::interior_nul_message(
                        crate::text::nul_offset(encode_utf8(cells[k])) as nat,
                    ),
                ),
            ),
        ],
{
    steps_over_clean_cells(cells, 0, k);
    assert(cells.subrange(0, k) =~= cells.take(k));
}

} // verus!
