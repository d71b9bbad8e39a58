//! The batch runner: the state machine that carries one job out, item by item.
//!
//! The caller performs the outside work (creating directories, running the tool)
//! and reports back; the runner decides what happens next and what is reported.
//! `Idle -> Running -> Completed | Cancelled`; one runner serves one job.
use vstd::prelude::*;
use crate::invoke::{
    arguments, destination, failure_text, resolve_output_path, tool_arguments, ItemFailure,
    Target,
};
use crate::paths::{file_name, file_name_of, join, join_path, parent, parent_of};
use crate::text::push_str;
use crate::types::{Event, ProgressMessage};

verus! {

/// One file of a job, with what it becomes.
#[derive(Clone)]
pub struct Source {
    pub path: String,
    pub target: Target,
}

/// A file handed to the caller for conversion.
pub struct WorkItem {
    /// The file as it was found.
    pub input: String,
    /// Where its result goes, before it is made absolute.
    pub output: String,
    pub target: Target,
}

impl WorkItem {
    /// The tool's argument list, once input and output are absolute.
    pub fn arguments(&self, abs_input: &str, abs_output: &str) -> (r: Vec<String>)
        ensures
            r.deep_view() == tool_arguments(self.target, self.input@, abs_input@, abs_output@),
    {
        arguments(self.target, self.input.as_str(), abs_input, abs_output)
    }

    /// The directory the result goes into, if the output path names one.
    pub fn output_parent(&self) -> (r: Option<String>)
        ensures
            r matches Some(q) <==> parent_of(self.output@) is Some,
            r matches Some(q) ==> parent_of(self.output@) == Some(q@),
    {
        parent(self.output.as_str())
    }

    /// The output path placed in `abs_dir`, the absolute form of its directory.
    pub fn output_in(&self, abs_dir: &str) -> (r: String)
        ensures
            r@ == join_path(abs_dir@, file_name_of(self.output@)),
    {
        let name = file_name(self.output.as_str());
        join(abs_dir, name.as_str())
    }
}

/// The external tool a job needs.
#[derive(Clone, Copy, PartialEq, Eq, Debug, Structural)]
pub enum Tool {
    Encoder,
    Decoder,
}

impl Tool {
    pub open spec fn spec_name(self) -> Seq<char> {
        match self {
            Tool::Encoder => "cjxl"@,
            Tool::Decoder => "djxl"@,
        }
    }

    /// The tool's executable name.
    pub fn name(&self) -> (r: &'static str)
        ensures
            r@ == self.spec_name(),
    {
        match self {
            Tool::Encoder => "cjxl",
            Tool::Decoder => "djxl",
        }
    }

    /// Reported, alone, when the tool was not found.
    pub open spec fn missing_text(self) -> Seq<char> {
        match self {
            Tool::Encoder => "cjxl not found"@,
            Tool::Decoder => "djxl not found"@,
        }
    }
}

#[derive(Clone, Copy, PartialEq, Eq, Debug, Structural)]
pub enum BatchState {
    Idle,
    Running,
    Completed,
    Cancelled,
}

/// The text of a success report: the input, an arrow, the output.
pub open spec fn success_text(file: Seq<char>, output: Seq<char>) -> Seq<char> {
    file + " -> "@ + output
}

/// The report for a finished item: `Ok` holds the output path, `Err` the message.
pub open spec fn outcome_event(file: Seq<char>, outcome: Result<Seq<char>, Seq<char>>) -> Event {
    match outcome {
        Ok(output) => Event::Success { file: success_text(file, output) },
        Err(message) => Event::Error { file, error: message },
    }
}

/// The reports of the first `k` items: for each, its progress and its outcome.
pub open spec fn item_events(
    files: Seq<Seq<char>>,
    outcomes: Seq<Result<Seq<char>, Seq<char>>>,
    total: nat,
    k: nat,
) -> Seq<Event>
    decreases k,
{
    if k == 0 {
        Seq::empty()
    } else {
        item_events(files, outcomes, total, (k - 1) as nat) + seq![
            Event::Progress { current: k, total, file: files[k - 1] },
            outcome_event(files[k - 1], outcomes[k - 1]),
        ]
    }
}

/// An item's outcome as reported by `tool`.
pub open spec fn outcome_view(outcome: Result<String, ItemFailure>, tool: Tool) -> Result<
    Seq<char>,
    Seq<char>,
> {
    match outcome {
        Ok(output) => Ok(output@),
        Err(f) => Err(failure_text(f.kind, tool.spec_name(), f.detail@)),
    }
}

pub proof fn lemma_item_events(
    files: Seq<Seq<char>>,
    outcomes: Seq<Result<Seq<char>, Seq<char>>>,
    total: nat,
    k: nat,
)
    ensures
        item_events(files, outcomes, total, k).len() == 2 * k,
        forall|j: int|
            0 <= j < k ==> #[trigger] item_events(files, outcomes, total, k)[2 * j]
                == (Event::Progress { current: (j + 1) as nat, total, file: files[j] }),
        forall|j: int|
            0 <= j < k ==> #[trigger] item_events(files, outcomes, total, k)[2 * j + 1]
                == outcome_event(files[j], outcomes[j]),
    decreases k,
{
    if k > 0 {
        lemma_item_events(files, outcomes, total, (k - 1) as nat);
        let prev = item_events(files, outcomes, total, (k - 1) as nat);
        let all = item_events(files, outcomes, total, k);
        assert forall|j: int| 0 <= j < k implies #[trigger] all[2 * j] == Event::Progress {
            current: (j + 1) as nat,
            total,
            file: files[j],
        } by {
            if j < k - 1 {
                assert(all[2 * j] == prev[2 * j]);
            }
        }
        assert forall|j: int| 0 <= j < k implies #[trigger] all[2 * j + 1] == outcome_event(
            files[j],
            outcomes[j],
        ) by {
            if j < k - 1 {
                assert(all[2 * j + 1] == prev[2 * j + 1]);
            }
        }
    }
}

/// The reports of the first `k` items depend on the first `k` outcomes alone.
pub proof fn lemma_item_events_prefix(
    files: Seq<Seq<char>>,
    a: Seq<Result<Seq<char>, Seq<char>>>,
    b: Seq<Result<Seq<char>, Seq<char>>>,
    total: nat,
    k: nat,
)
    requires
        k <= a.len(),
        k <= b.len(),
        forall|j: int| 0 <= j < k ==> a[j] == b[j],
    ensures
        item_events(files, a, total, k) == item_events(files, b, total, k),
    decreases k,
{
    if k > 0 {
        lemma_item_events_prefix(files, a, b, total, (k - 1) as nat);
    }
}

/// Runs one job. The caller drives it: `start`, then `next_item` until the job
/// has ended, reporting each handed-out item's outcome with `finish_item`; every
/// message returned is to be delivered, in order.
pub struct BatchRunner {
    pub tool: Tool,
    /// Where the tool was found, if it was.
    pub tool_path: Option<String>,
    /// The work list, in order.
    pub sources: Vec<Source>,
    pub output_dir: String,
    pub keep_structure: bool,
    /// The common base of the selection, when the structure is kept and one was found.
    pub base: Option<String>,
    /// How many items have been finished.
    pub next: usize,
    /// An item has been handed out and not yet finished.
    pub in_flight: bool,
    pub state: BatchState,
    /// The outcomes of the finished items, as reported.
    pub outcomes: Ghost<Seq<Result<Seq<char>, Seq<char>>>>,
}

impl BatchRunner {
    /// The input paths of the work list.
    pub open spec fn files(&self) -> Seq<Seq<char>> {
        self.sources@.map_values(|s: Source| s.path@)
    }

    pub open spec fn total(&self) -> nat {
        self.sources@.len()
    }

    pub open spec fn wf(&self) -> bool {
        &&& self.next <= self.total()
        &&& self.outcomes@.len() == self.next
        &&& self.in_flight ==> self.state == BatchState::Running && self.next < self.total()
        &&& self.state == BatchState::Running ==> self.tool_path is Some && self.total() > 0
        &&& self.state == BatchState::Cancelled ==> self.tool_path is Some && self.next
            < self.total()
        &&& (self.state == BatchState::Completed && self.tool_path is Some) ==> self.next
            == self.total()
        &&& (self.state == BatchState::Idle || self.tool_path is None) ==> self.next == 0
    }

    /// Everything reported so far, in order.
    pub open spec fn events(&self) -> Seq<Event> {
        if self.state == BatchState::Idle {
            Seq::empty()
        } else if self.tool_path is None {
            seq![Event::Error { file: Seq::empty(), error: self.tool.missing_text() }]
        } else {
            let head = seq![Event::Started { total: self.total() }] + item_events(
                self.files(),
                self.outcomes@,
                self.total(),
                self.next as nat,
            );
            if self.state == BatchState::Completed {
                head.push(Event::Completed)
            } else if self.state == BatchState::Cancelled {
                head.push(Event::Cancelled)
            } else if self.in_flight {
                head.push(
                    Event::Progress {
                        current: (self.next + 1) as nat,
                        total: self.total(),
                        file: self.files()[self.next as int],
                    },
                )
            } else {
                head
            }
        }
    }

    /// The job itself, as opposed to how far it has come.
    pub open spec fn same_job(&self, other: &Self) -> bool {
        &&& self.tool == other.tool
        &&& self.tool_path == other.tool_path
        &&& self.sources == other.sources
        &&& self.output_dir == other.output_dir
        &&& self.keep_structure == other.keep_structure
        &&& self.base == other.base
    }

    /// A runner for the given job that has not started.
    pub fn new(
        tool: Tool,
        tool_path: Option<String>,
        sources: Vec<Source>,
        output_dir: String,
        keep_structure: bool,
        base: Option<String>,
    ) -> (r: Self)
        ensures
            r.wf(),
            r.state == BatchState::Idle,
            r.tool == tool,
            r.tool_path == tool_path,
            r.sources == sources,
            r.output_dir == output_dir,
            r.keep_structure == keep_structure,
            r.base == base,
            r.events() == Seq::<Event>::empty(),
    {
        BatchRunner {
            tool,
            tool_path,
            sources,
            output_dir,
            keep_structure,
            base,
            next: 0,
            in_flight: false,
            state: BatchState::Idle,
            outcomes: Ghost(Seq::empty()),
        }
    }

    /// The job has not ended yet.
    pub fn is_running(&self) -> (r: bool)
        ensures
            r == (self.state == BatchState::Idle || self.state == BatchState::Running),
    {
        self.state == BatchState::Idle || self.state == BatchState::Running
    }

    /// Opens the job. Without the tool, the job ends at once with a single error
    /// and no `Started`. Otherwise `Started` carries the size of the work list; an
    /// empty list ends the job with `Completed` right after it.
    pub fn start(&mut self) -> (msgs: Vec<ProgressMessage>)
        requires
            old(self).wf(),
            old(self).state == BatchState::Idle,
        ensures
            final(self).wf(),
            final(self).same_job(old(self)),
            msgs@.map_values(|m: ProgressMessage| m@) == final(self).events(),
            old(self).tool_path is None ==> final(self).state == BatchState::Completed,
            old(self).tool_path is Some && old(self).total() == 0 ==> final(self).state
                == BatchState::Completed,
            old(self).tool_path is Some && old(self).total() > 0 ==> final(self).state
                == BatchState::Running && !final(self).in_flight,
    {
        let mut msgs: Vec<ProgressMessage> = Vec::new();
        if self.tool_path.is_none() {
            msgs.push(
                ProgressMessage::Error {
                    file: String::new(),
                    error: String::from_str(
                        match self.tool {
                            Tool::Encoder => "cjxl not found",
                            Tool::Decoder => "djxl not found",
                        },
                    ),
                },
            );
            self.state = BatchState::Completed;
        } else {
            let total = self.sources.len();
            msgs.push(ProgressMessage::Started { total });
            if total == 0 {
                msgs.push(ProgressMessage::Completed);
                self.state = BatchState::Completed;
            } else {
                self.state = BatchState::Running;
            }
        }
        assert(msgs@.map_values(|m: ProgressMessage| m@) =~= self.events());
        msgs
    }

    /// The next step of a running job, taken after the caller has read the
    /// cancellation switch. After the last item the job completes; otherwise a
    /// set switch cancels it before the item; otherwise the item is handed out
    /// with its progress report.
    pub fn next_item(&mut self, cancelled: bool) -> (r: (ProgressMessage, Option<WorkItem>))
        requires
            old(self).wf(),
            old(self).state == BatchState::Running,
            !old(self).in_flight,
        ensures
            final(self).wf(),
            final(self).same_job(old(self)),
            final(self).outcomes == old(self).outcomes,
            final(self).next == old(self).next,
            final(self).events() == old(self).events().push(r.0@),
            old(self).next == old(self).total() ==> final(self).state == BatchState::Completed
                && r.1 is None,
            old(self).next < old(self).total() && cancelled ==> final(self).state
                == BatchState::Cancelled && r.1 is None,
            old(self).next < old(self).total() && !cancelled ==> {
                &&& final(self).state == BatchState::Running
                &&& final(self).in_flight
                &&& r.1 matches Some(item) && {
                    let src = old(self).sources@[old(self).next as int];
                    &&& item.input@ == src.path@
                    &&& item.target == src.target
                    &&& item.output@ == destination(
                        old(self).output_dir@,
                        src.path@,
                        old(self).keep_structure,
                        old(self).base.deep_view(),
                        src.target.spec_extension(),
                    )
                }
            },
    {
        if self.next == self.sources.len() {
            self.state = BatchState::Completed;
            return (ProgressMessage::Completed, None);
        }
        if cancelled {
            self.state = BatchState::Cancelled;
            return (ProgressMessage::Cancelled, None);
        }
        let src = &self.sources[self.next];
        let output = resolve_output_path(
            self.output_dir.as_str(),
            src.path.as_str(),
            self.keep_structure,
            &self.base,
            src.target.extension(),
        );
        let item = WorkItem { input: src.path.clone(), output, target: src.target };
        let msg = ProgressMessage::Progress {
            current: self.next + 1,
            total: self.sources.len(),
            file: src.path.clone(),
        };
        self.in_flight = true;
        (msg, Some(item))
    }

    /// Reports how the handed-out item ended: `Ok` with the absolute output path,
    /// or the failure. Either way the job goes on with the next item.
    pub fn finish_item(&mut self, outcome: Result<String, ItemFailure>) -> (m: ProgressMessage)
        requires
            old(self).wf(),
            old(self).in_flight,
        ensures
            final(self).wf(),
            final(self).same_job(old(self)),
            final(self).state == BatchState::Running,
            !final(self).in_flight,
            final(self).next == old(self).next + 1,
            final(self).outcomes@ == old(self).outcomes@.push(outcome_view(outcome, old(self).tool)),
            m@ == outcome_event(
                old(self).files()[old(self).next as int],
                outcome_view(outcome, old(self).tool),
            ),
            final(self).events() == old(self).events().push(m@),
    {
        let ghost before = self.events();
        let ghost view = outcome_view(outcome, self.tool);
        let total = self.sources.len();
        let file = self.sources[self.next].path.clone();
        let m = match outcome {
            Ok(output) => {
                let mut text = file.clone();
                push_str(&mut text, " -> ");
                push_str(&mut text, output.as_str());
                ProgressMessage::Success { file: text }
            },
            Err(f) => ProgressMessage::Error { file, error: f.message(self.tool.name()) },
        };
        let ghost k = self.next as nat;
        let ghost old_outcomes = self.outcomes@;
        self.outcomes = Ghost(self.outcomes@.push(view));
        assert(self.next < total);
        self.next = self.next + 1;
        self.in_flight = false;
        proof {
            lemma_item_events_prefix(self.files(), old_outcomes, self.outcomes@, self.total(), k);
            assert(self.events() =~= before.push(m@));
        }
        m
    }
}

} // verus!
