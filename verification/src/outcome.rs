//! The events that a running tool reports, and the verdict they add up to.
//!
//! The verdict goes by the reported lines alone: the tool's exit status is not
//! consulted, so a run that fails without an error line counts as a success.

use vstd::prelude::*;
use crate::error::OperationError;
use crate::text::{copy_list, join, joined, texts};

verus! {

/// How grave a reported line is.
#[derive(Clone, Copy, PartialEq, Eq, Structural, Debug)]
pub enum Severity {
    Unknown,
    Info,
    Warning,
    Error,
    Fatal,
}

/// One unit of the tool's output: a line with its severity, or a progress
/// update.
#[derive(Clone, Debug, PartialEq, Eq)]
pub enum EventRecord {
    LogLine { severity: Severity, text: String },
    ProgressUpdate { elapsed: String },
}

impl EventRecord {
    /// Whether the event counts against the operation: a line of severity
    /// error or fatal.
    pub open spec fn is_diagnostic(&self) -> bool {
        match self {
            EventRecord::LogLine { severity, .. } => *severity == Severity::Error || *severity
                == Severity::Fatal,
            EventRecord::ProgressUpdate { .. } => false,
        }
    }

    /// The text an event carries: the line, or the elapsed time.
    pub open spec fn text_view(&self) -> Seq<char> {
        match self {
            EventRecord::LogLine { text, .. } => text@,
            EventRecord::ProgressUpdate { elapsed } => elapsed@,
        }
    }

    /// Computes `is_diagnostic`.
    pub fn counts_as_failure(&self) -> (failing: bool)
        ensures
            failing == self.is_diagnostic(),
    {
        match self {
            EventRecord::LogLine { severity, .. } => match severity {
                Severity::Error => true,
                Severity::Fatal => true,
                _ => false,
            },
            EventRecord::ProgressUpdate { .. } => false,
        }
    }
}

/// The texts of the events that count against the operation, in the order in
/// which the events came.
pub open spec fn diagnostics(events: Seq<EventRecord>) -> Seq<Seq<char>>
    decreases events.len(),
{
    if events.len() == 0 {
        Seq::empty()
    } else if events.last().is_diagnostic() {
        diagnostics(events.drop_last()).push(events.last().text_view())
    } else {
        diagnostics(events.drop_last())
    }
}

/// What an operation came to.
#[derive(Debug, PartialEq, Eq)]
pub enum OperationOutcome {
    Success,
    Failure { messages: Vec<String> },
}

impl OperationOutcome {
    /// The messages of a failure, in order; none for a success.
    pub open spec fn messages_view(&self) -> Seq<Seq<char>> {
        match self {
            OperationOutcome::Success => Seq::empty(),
            OperationOutcome::Failure { messages } => texts(messages@),
        }
    }

    /// The outcome for a list of diagnostics: a success exactly when there is
    /// none, else a failure that holds them all.
    pub fn from_diagnostics(messages: Vec<String>) -> (outcome: OperationOutcome)
        ensures
            outcome.messages_view() == texts(messages@),
            outcome is Success <==> messages@.len() == 0,
    {
        if messages.len() == 0 {
            proof {
                assert(texts(messages@) =~= Seq::<Seq<char>>::empty());
            }
            OperationOutcome::Success
        } else {
            OperationOutcome::Failure { messages }
        }
    }

    /// The messages joined with `; `, for display. Empty for a success.
    pub fn display(&self) -> (text: String)
        ensures
            text@ == joined(self.messages_view(), "; "@),
    {
        match self {
            OperationOutcome::Success => {
                proof {
                    reveal_with_fuel(joined, 1);
                }
                String::new()
            },
            OperationOutcome::Failure { messages } => join(messages, "; "),
        }
    }

    /// A copy of the messages, one entry per reported line.
    pub fn messages(&self) -> (list: Vec<String>)
        ensures
            texts(list@) == self.messages_view(),
    {
        match self {
            OperationOutcome::Success => {
                let list: Vec<String> = Vec::new();
                proof {
                    assert(texts(list@) =~= Seq::<Seq<char>>::empty());
                }
                list
            },
            OperationOutcome::Failure { messages } => copy_list(messages),
        }
    }

    /// The outcome as a result: a failure becomes the diagnostics error with
    /// the same messages.
    pub fn into_result(self) -> (result: Result<(), OperationError>)
        ensures
            self is Success <==> result is Ok,
            result matches Err(e) ==> e is ToolDiagnostics && e.lines() == self.messages_view(),
    {
        match self {
            OperationOutcome::Success => Ok(()),
            OperationOutcome::Failure { messages } => Err(OperationError::ToolDiagnostics(messages)),
        }
    }
}

/// Takes one event into a list of diagnostics: the text of an error or fatal
/// line is appended, anything else leaves the list as it is.
pub fn record_event(collected: &mut Vec<String>, event: &EventRecord)
    ensures
        texts(final(collected)@) == if event.is_diagnostic() {
            texts(old(collected)@).push(event.text_view())
        } else {
            texts(old(collected)@)
        },
{
    match event {
        EventRecord::LogLine { severity, text } => {
            if event.counts_as_failure() {
                collected.push(text.clone());
                proof {
                    assert(texts(collected@) =~= texts(old(collected)@).push(event.text_view()));
                }
            }
        },
        EventRecord::ProgressUpdate { .. } => {},
    }
}

/// Folds the events of one run into its outcome. The operation succeeded
/// exactly when no event is a line of severity error or fatal; otherwise the
/// outcome is a failure whose messages are the texts of those lines, in the
/// order in which they came.
pub fn aggregate(events: &Vec<EventRecord>) -> (outcome: OperationOutcome)
    ensures
        outcome.messages_view() == diagnostics(events@),
        outcome is Success <==> diagnostics(events@).len() == 0,
        outcome is Success <==> forall|i: int|
            0 <= i < events@.len() ==> !(#[trigger] events@[i]).is_diagnostic(),
{
    let mut collected: Vec<String> = Vec::new();
    let mut i: usize = 0;
    proof {
        assert(events@.take(0) =~= Seq::<EventRecord>::empty());
        assert(texts(collected@) =~= Seq::<Seq<char>>::empty());
    }
    while i < events.len()
        invariant
            i <= events.len(),
            texts(collected@) == diagnostics(events@.take(i as int)),
        decreases events.len() - i,
    {
        record_event(&mut collected, &events[i]);
        proof {
            let next = events@.take(i as int + 1);
            assert(next.drop_last() =~= events@.take(i as int));
            assert(next.last() == events@[i as int]);
        }
        i += 1;
    }
    proof {
        assert(events@.take(i as int) =~= events@);
        lemma_quiet_iff_no_diagnostics(events@);
    }
    OperationOutcome::from_diagnostics(collected)
}

/// A run has no diagnostics exactly when none of its events is a line of
/// severity error or fatal.
pub proof fn lemma_quiet_iff_no_diagnostics(events: Seq<EventRecord>)
    ensures
        diagnostics(events).len() == 0 <==> forall|i: int|
            0 <= i < events.len() ==> !(#[trigger] events[i]).is_diagnostic(),
    decreases events.len(),
{
    if events.len() > 0 {
        let front = events.drop_last();
        lemma_quiet_iff_no_diagnostics(front);
        assert(forall|i: int| 0 <= i < front.len() ==> front[i] == events[i]);
        if events.last().is_diagnostic() {
            assert(events[events.len() - 1].is_diagnostic());
        } else if diagnostics(front).len() == 0 {
            assert forall|i: int| 0 <= i < events.len() implies !(#[trigger] events[i]).is_diagnostic() by {
                if i < front.len() {
                    assert(front[i] == events[i]);
                }
            }
        } else {
            let k = choose|k: int| 0 <= k < front.len() && (#[trigger] front[k]).is_diagnostic();
            assert(events[k].is_diagnostic());
        }
    }
}

/// The diagnostics of two runs one after the other are those of the first
/// followed by those of the second: the fold keeps the order of arrival.
pub proof fn lemma_diagnostics_concat(first: Seq<EventRecord>, second: Seq<EventRecord>)
    ensures
        diagnostics(first + second) == diagnostics(first) + diagnostics(second),
    decreases second.len(),
{
    if second.len() == 0 {
        assert(first + second =~= first);
        assert(diagnostics(first) + diagnostics(second) =~= diagnostics(first));
    } else {
        lemma_diagnostics_concat(first, second.drop_last());
        assert((first + second).drop_last() =~= first + second.drop_last());
        assert((first + second).last() == second.last());
        assert(diagnostics(first + second) =~= diagnostics(first) + diagnostics(second));
    }
}

} // verus!
