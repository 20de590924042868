//! The orchestration of one import request as a state machine. The caller
//! does the outside work (keeping the upload, reading the workbook, writing
//! a row) and reports each result as an event; the machine answers with the
//! next state and the next thing to do.

use vstd::prelude::*;

verus! {

/// Where an import request stands.
#[derive(Clone, Copy, Debug, PartialEq, Eq, Structural)]
pub enum Phase {
    /// Nothing has arrived yet.
    Idle,
    /// The upload is being kept in temporary storage.
    Receiving,
    /// The workbook is being read.
    Parsing,
    /// Row `next` of `total` is being normalized, validated and written.
    RowLoop { next: usize, total: usize },
    /// The request has failed.
    Failed,
    /// Every row has been written.
    Succeeded,
}

/// What the caller reports to the machine.
#[derive(Clone, Copy, Debug, PartialEq, Eq, Structural)]
pub enum Event {
    /// A file has arrived; `is_workbook` says whether its declared media
    /// type is that of a workbook.
    Uploaded { is_workbook: bool },
    /// The upload is in temporary storage.
    Stored,
    /// The upload could not be stored.
    StoreFailed,
    /// The workbook has been read and has `rows` data rows.
    Parsed { rows: usize },
    /// The workbook could not be read.
    Unreadable,
    /// The current row has been written.
    RowCommitted,
    /// The current row was rejected, or could not be written.
    RowRejected,
}

/// What the caller is to do next.
#[derive(Clone, Copy, Debug, PartialEq, Eq, Structural)]
pub enum Action {
    /// Keep the upload in temporary storage.
    Store,
    /// Read the workbook from temporary storage.
    Parse,
    /// Normalize, validate and write the data row at this position.
    ProcessRow(usize),
    /// Report the outcome. `settle` says that an upload is in temporary
    /// storage and is to be settled: removed, or filed for audit.
    Finish { succeeded: bool, settle: bool },
    /// Nothing: the request is over, or the event reports nothing that the
    /// current state waits for.
    Nothing,
}

impl Phase {
    /// Whether the request is over.
    pub open spec fn spec_is_terminal(self) -> bool {
        self == Phase::Failed || self == Phase::Succeeded
    }

    /// Whether the request is over.
    #[verifier::when_used_as_spec(spec_is_terminal)]
    pub fn is_terminal(self) -> (terminal: bool)
        ensures
            terminal == self.spec_is_terminal(),
    {
        match self {
            Phase::Failed | Phase::Succeeded => true,
            _ => false,
        }
    }

    /// Whether an upload may be in temporary storage in this state.
    pub open spec fn holds_upload(self) -> bool {
        self == Phase::Receiving || self == Phase::Parsing || self is RowLoop
    }
}

/// The state after `event` arrives in state `phase`, and what to do then.
/// A state that is over stays as it is. An event that a running state does
/// not wait for fails the request.
pub open spec fn transition(phase: Phase, event: Event) -> (Phase, Action) {
    match (phase, event) {
        (Phase::Failed, _) | (Phase::Succeeded, _) => (phase, Action::Nothing),
        (Phase::Idle, Event::Uploaded { is_workbook: true }) => (Phase::Receiving, Action::Store),
        (Phase::Idle, _) => (Phase::Failed, Action::Finish { succeeded: false, settle: false }),
        (Phase::Receiving, Event::Stored) => (Phase::Parsing, Action::Parse),
        (Phase::Parsing, Event::Parsed { rows }) => if rows == 0 {
            (Phase::Succeeded, Action::Finish { succeeded: true, settle: true })
        } else {
            (Phase::RowLoop { next: 0, total: rows }, Action::ProcessRow(0))
        },
        (Phase::RowLoop { next, total }, Event::RowCommitted) => if next + 1 < total {
            (Phase::RowLoop { next: (next + 1) as usize, total }, Action::ProcessRow((next + 1) as usize))
        } else {
            (Phase::Succeeded, Action::Finish { succeeded: true, settle: true })
        },
        _ => (Phase::Failed, Action::Finish { succeeded: false, settle: true }),
    }
}

/// Takes one step of the machine.
pub fn step(phase: Phase, event: Event) -> (next: (Phase, Action))
    ensures
        next == transition(phase, event),
{
    match phase {
        Phase::Failed | Phase::Succeeded => (phase, Action::Nothing),
        Phase::Idle => match event {
            Event::Uploaded { is_workbook: true } => (Phase::Receiving, Action::Store),
            _ => (Phase::Failed, Action::Finish { succeeded: false, settle: false }),
        },
        Phase::Receiving => match event {
            Event::Stored => (Phase::Parsing, Action::Parse),
            _ => (Phase::Failed, Action::Finish { succeeded: false, settle: true }),
        },
        Phase::Parsing => match event {
            Event::Parsed { rows } => if rows == 0 {
                (Phase::Succeeded, Action::Finish { succeeded: true, settle: true })
            } else {
                (Phase::RowLoop { next: 0, total: rows }, Action::ProcessRow(0))
            },
            _ => (Phase::Failed, Action::Finish { succeeded: false, settle: true }),
        },
        Phase::RowLoop { next, total } => match event {
            Event::RowCommitted => if next < total && next + 1 < total {
                (Phase::RowLoop { next: next + 1, total }, Action::ProcessRow(next + 1))
            } else {
                (Phase::Succeeded, Action::Finish { succeeded: true, settle: true })
            },
            _ => (Phase::Failed, Action::Finish { succeeded: false, settle: true }),
        },
    }
}

/// The state after a run of events, from `phase` on.
pub open spec fn run(phase: Phase, events: Seq<Event>) -> Phase
    decreases events.len(),
{
    if events.len() == 0 {
        phase
    } else {
        transition(run(phase, events.drop_last()), events.last()).0
    }
}

/// A request that is over stays over, whatever is reported after.
pub proof fn lemma_terminal_absorbs(phase: Phase, events: Seq<Event>)
    requires
        phase.spec_is_terminal(),
    ensures
        run(phase, events) == phase,
    decreases events.len(),
{
    if events.len() > 0 {
        lemma_terminal_absorbs(phase, events.drop_last());
    }
}

/// No upload is left behind: a step that ends a request in which an upload
/// may be in temporary storage tells the caller to settle it.
pub proof fn lemma_upload_settled(phase: Phase, event: Event)
    requires
        phase.holds_upload(),
        transition(phase, event).0.spec_is_terminal(),
    ensures
        transition(phase, event).1 matches Action::Finish { settle, succeeded } && settle
            && (succeeded <==> transition(phase, event).0 == Phase::Succeeded),
{
}

/// A sheet without data rows is imported with success: from the reading of
/// the workbook the request goes straight to its good end.
pub proof fn lemma_empty_sheet_succeeds()
    ensures
        run(
            Phase::Idle,
            seq![Event::Uploaded { is_workbook: true }, Event::Stored, Event::Parsed { rows: 0 }],
        ) == Phase::Succeeded,
{
    let events = seq![
        Event::Uploaded { is_workbook: true },
        Event::Stored,
        Event::Parsed { rows: 0 },
    ];
    let two = events.drop_last();
    let one = two.drop_last();
    assert(one.drop_last() =~= Seq::<Event>::empty());
    assert(run(Phase::Idle, one.drop_last()) == Phase::Idle);
    assert(run(Phase::Idle, one) == Phase::Receiving);
    assert(run(Phase::Idle, two) == Phase::Parsing);
}

/// A request in its row loop that sees every row written reaches its good
/// end exactly when the last row is written.
pub proof fn lemma_rows_in_order(next: usize, total: usize)
    requires
        next < total,
    ensures
        transition(Phase::RowLoop { next, total }, Event::RowCommitted).0 == (if next + 1
            == total {
            Phase::Succeeded
        } else {
            Phase::RowLoop { next: (next + 1) as usize, total }
        }),
        next + 1 < total ==> transition(Phase::RowLoop { next, total }, Event::RowCommitted).1
            == Action::ProcessRow((next + 1) as usize),
{
}

/// A run of events, then another, is one run.
pub proof fn lemma_run_in_parts(phase: Phase, first: Seq<Event>, second: Seq<Event>)
    ensures
        run(phase, first + second) == run(run(phase, first), second),
    decreases second.len(),
{
    if second.len() == 0 {
        assert(first + second =~= first);
    } else {
        lemma_run_in_parts(phase, first, second.drop_last());
        assert((first + second).drop_last() =~= first + second.drop_last());
    }
}

/// What the caller reports for a request whose workbook has `total` data
/// rows of which the first `written` are written: the upload, the storing,
/// the reading, one event for each row written and, where rows are left,
/// the rejection of the next.
pub open spec fn request_events(total: usize, written: usize) -> Seq<Event> {
    seq![Event::Uploaded { is_workbook: true }, Event::Stored, Event::Parsed { rows: total }]
        + Seq::new(written as nat, |i: int| Event::RowCommitted) + if written < total {
        seq![Event::RowRejected]
    } else {
        Seq::empty()
    }
}

/// In the row loop, rows written one after another lead to the next row,
/// and the last of them to the good end.
proof fn lemma_rows_written(total: usize, written: usize)
    requires
        0 < total,
        written <= total,
    ensures
        run(
            Phase::RowLoop { next: 0, total },
            Seq::new(written as nat, |i: int| Event::RowCommitted),
        ) == (if written == total {
            Phase::Succeeded
        } else {
            Phase::RowLoop { next: written, total }
        }),
    decreases written,
{
    let events = Seq::new(written as nat, |i: int| Event::RowCommitted);
    if written > 0 {
        lemma_rows_written(total, (written - 1) as usize);
        assert(events.drop_last() =~= Seq::new((written - 1) as nat, |i: int| Event::RowCommitted));
    }
}

/// The machine ends as the import does: a request succeeds exactly when
/// every data row is written, and fails at the first row that is rejected.
pub proof fn lemma_request_ends(total: usize, written: usize)
    requires
        written <= total,
    ensures
        run(Phase::Idle, request_events(total, written)) == (if written == total {
            Phase::Succeeded
        } else {
            Phase::Failed
        }),
{
    let opening = seq![
        Event::Uploaded { is_workbook: true },
        Event::Stored,
        Event::Parsed { rows: total },
    ];
    let commits = Seq::new(written as nat, |i: int| Event::RowCommitted);
    let closing = if written < total {
        seq![Event::RowRejected]
    } else {
        Seq::<Event>::empty()
    };
    let two = opening.drop_last();
    let one = two.drop_last();
    assert(one.drop_last() =~= Seq::<Event>::empty());
    assert(run(Phase::Idle, one.drop_last()) == Phase::Idle);
    assert(run(Phase::Idle, one) == Phase::Receiving);
    assert(run(Phase::Idle, two) == Phase::Parsing);
    let parsed = run(Phase::Idle, opening);
    lemma_run_in_parts(Phase::Idle, opening, commits);
    lemma_run_in_parts(Phase::Idle, opening + commits, closing);
    if total == 0 {
        assert(parsed == Phase::Succeeded);
        lemma_terminal_absorbs(parsed, commits);
        lemma_terminal_absorbs(parsed, closing);
    } else {
        assert(parsed == Phase::RowLoop { next: 0, total });
        lemma_rows_written(total, written);
        let looped = run(parsed, commits);
        if written == total {
            lemma_terminal_absorbs(looped, closing);
        } else {
            assert(closing.drop_last() =~= Seq::<Event>::empty());
            assert(run(looped, closing.drop_last()) == looped);
        }
    }
}

} // verus!
