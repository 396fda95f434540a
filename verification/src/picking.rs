//! Pointer strokes on a grid of splats.
//!
//! A press on the grid starts a stroke, moves with the stroke active report
//! the cells passed over, and the release ends it. [`stroke_step`] is the
//! decision taken for one pointer event on one grid entity: whether the
//! entity's stroke is active afterwards and which cell hit, in which phase,
//! is reported.

use vstd::prelude::*;

verus! {

/// Stroke phase of a reported cell hit.
#[derive(Debug, Clone, Copy, PartialEq, Eq)]
pub enum PointerPhase {
    Begin,
    Continue,
    End,
}

/// A discrete cell of a grid.
#[derive(Debug, Clone, Copy, PartialEq, Eq)]
pub struct GridCell {
    pub x: u32,
    pub y: u32,
}

/// The kind of pointer event.
#[derive(Debug, Clone, Copy, PartialEq, Eq)]
pub enum PointerAction {
    Press,
    Move,
    Release,
}

/// A pointer event on a grid entity, as far as the stroke depends on it.
#[derive(Debug, Clone, Copy, PartialEq, Eq)]
pub struct PointerEvent {
    pub action: PointerAction,
    /// The entity still carries its grid and its transform.
    pub target_found: bool,
    /// The cell under the pointer, when the pointer hit a point, the grid
    /// asset is available and the point lies on the grid.
    pub cell: Option<GridCell>,
}

/// A cell reported to listeners, with the stroke phase.
#[derive(Debug, Clone, Copy, PartialEq, Eq)]
pub struct CellHit {
    pub cell: GridCell,
    pub phase: PointerPhase,
}

/// Whether the stroke is active after `event`, and what is reported.
///
/// A press that lands on a cell starts a stroke and reports `Begin`
/// (a press elsewhere changes nothing). A move reports `Continue` only
/// while a stroke is active. A release of an active stroke ends it and
/// reports `End` when it lands on a cell.
pub open spec fn stroke_step_spec(active: bool, event: PointerEvent) -> (bool, Option<CellHit>) {
    match event.action {
        PointerAction::Press => if event.target_found && event.cell is Some {
            (true, Some(CellHit { cell: event.cell->0, phase: PointerPhase::Begin }))
        } else {
            (active, None)
        },
        PointerAction::Move => if event.target_found && active && event.cell is Some {
            (active, Some(CellHit { cell: event.cell->0, phase: PointerPhase::Continue }))
        } else {
            (active, None)
        },
        PointerAction::Release => if event.target_found && active {
            (
                false,
                match event.cell {
                    Some(c) => Some(CellHit { cell: c, phase: PointerPhase::End }),
                    None => None,
                },
            )
        } else {
            (active, None)
        },
    }
}

/// The decision for one pointer event on a grid entity whose stroke is
/// `active`: the stroke's state afterwards and the cell hit reported, if any.
pub fn stroke_step(active: bool, event: PointerEvent) -> (r: (bool, Option<CellHit>))
    ensures
        r == stroke_step_spec(active, event),
        r.1 is Some ==> event.cell == Some(r.1->0.cell),
{
    match event.action {
        PointerAction::Press => {
            match event.cell {
                Some(cell) if event.target_found => {
                    (true, Some(CellHit { cell, phase: PointerPhase::Begin }))
                },
                _ => (active, None),
            }
        },
        PointerAction::Move => {
            if !event.target_found || !active {
                return (active, None);
            }
            match event.cell {
                Some(cell) => (active, Some(CellHit { cell, phase: PointerPhase::Continue })),
                None => (active, None),
            }
        },
        PointerAction::Release => {
            if !event.target_found || !active {
                return (active, None);
            }
            match event.cell {
                Some(cell) => (false, Some(CellHit { cell, phase: PointerPhase::End })),
                None => (false, None),
            }
        },
    }
}

/// Whether a stroke is active after a run of events on an entity that
/// started with none.
pub open spec fn run_active(events: Seq<PointerEvent>) -> bool
    decreases events.len(),
{
    if events.len() == 0 {
        false
    } else {
        stroke_step_spec(run_active(events.drop_last()), events.last()).0
    }
}

/// What event `j` of a run reports.
pub open spec fn reported(events: Seq<PointerEvent>, j: int) -> Option<CellHit> {
    stroke_step_spec(run_active(events.take(j)), events[j]).1
}

/// Whether event `j` of a run reports a hit in `phase`.
pub open spec fn reports_phase(events: Seq<PointerEvent>, j: int, phase: PointerPhase) -> bool {
    reported(events, j) matches Some(h) && h.phase == phase
}

/// Over any run of pointer events, every `Continue` or `End` is reported
/// within a stroke: some earlier event reported `Begin` and no `End` was
/// reported in between. Moves and releases report nothing unless a stroke
/// is active, and a release always leaves the stroke inactive.
pub proof fn law_strokes_are_well_nested(events: Seq<PointerEvent>, j: int)
    requires
        0 <= j < events.len(),
    ensures
        (reports_phase(events, j, PointerPhase::Continue) || reports_phase(events, j, PointerPhase::End))
            ==> exists|i: int|
            0 <= i < j && #[trigger] reports_phase(events, i, PointerPhase::Begin) && forall|m: int|
                i < m < j ==> !#[trigger] reports_phase(events, m, PointerPhase::End),
        (events[j].action != PointerAction::Press && !run_active(events.take(j))) ==> reported(events, j) is None,
        events[j].action == PointerAction::Release && events[j].target_found
            ==> !run_active(events.take(j + 1)),
{
    assert(events.take(j + 1).drop_last() =~= events.take(j));
    assert(events.take(j + 1).last() == events[j]);
    if reports_phase(events, j, PointerPhase::Continue) || reports_phase(events, j, PointerPhase::End) {
        lemma_active_has_open_begin(events, j);
    }
}

/// A stroke active after the first `k` events was begun by one of them,
/// with no `End` reported since.
proof fn lemma_active_has_open_begin(events: Seq<PointerEvent>, k: int)
    requires
        0 <= k <= events.len(),
    ensures
        run_active(events.take(k)) ==> exists|i: int|
            0 <= i < k && #[trigger] reports_phase(events, i, PointerPhase::Begin) && forall|m: int|
                i < m < k ==> !#[trigger] reports_phase(events, m, PointerPhase::End),
    decreases k,
{
    if k > 0 {
        lemma_active_has_open_begin(events, k - 1);
        let prev = events.take(k - 1);
        assert(events.take(k).drop_last() =~= prev);
        assert(events.take(k).last() == events[k - 1]);
        let a = run_active(prev);
        let e = events[k - 1];
        if run_active(events.take(k)) {
            if e.action == PointerAction::Press && e.target_found && e.cell is Some {
                assert(reports_phase(events, k - 1, PointerPhase::Begin));
            } else {
                assert(a);
                assert(!reports_phase(events, k - 1, PointerPhase::End));
                let i = choose|i: int|
                    0 <= i < k - 1 && #[trigger] reports_phase(events, i, PointerPhase::Begin) && forall|m: int|
                        i < m < k - 1 ==> !#[trigger] reports_phase(events, m, PointerPhase::End);
                assert forall|m: int| i < m < k implies !#[trigger] reports_phase(events, m, PointerPhase::End) by {
                    if m < k - 1 {
                    }
                }
            }
        }
    }
}

/// Every reported hit carries the cell under the pointer, unchanged; a
/// `Begin` comes only from a press, a `Continue` only from a move, an `End`
/// only from a release; and an event whose pointer is off the grid reports
/// nothing.
pub proof fn law_hits_report_the_cell_under_the_pointer(active: bool, event: PointerEvent)
    ensures
        stroke_step_spec(active, event).1 is Some ==> event.cell == Some(stroke_step_spec(active, event).1->0.cell),
        event.cell is None ==> stroke_step_spec(active, event).1 is None,
        stroke_step_spec(active, event).1 is Some ==> (match stroke_step_spec(active, event).1->0.phase {
            PointerPhase::Begin => event.action == PointerAction::Press,
            PointerPhase::Continue => event.action == PointerAction::Move,
            PointerPhase::End => event.action == PointerAction::Release,
        }),
{
}

} // verus!
