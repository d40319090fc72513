//! One conversion, from request to outcome, as a state machine.
//!
//! A conversion looks at the file system three times and starts one process.
//! This module does neither. A [`Conversion`] says what is to be done next
//! ([`Conversion::pending`]); the driver does it and reports what it saw
//! ([`Conversion::advance`]); and so on until the pending action is
//! [`Action::Finish`]. The checks come in a fixed order, source, output
//! directory, transcoder, and the first that fails ends the conversion.

use vstd::prelude::*;
use vstd::string::StringExecFns;
use crate::command::{build_arguments, spec_arguments};
use crate::outcome::{ErrorKind, ExecutionOutcome, OutcomeView, ProcessOutput};
use crate::paths::{directory_of, spec_directory};
use crate::request::ConversionRequest;

verus! {

/// Where the transcoder is looked for unless a conversion is told otherwise.
pub const TRANSCODER: &'static str = "/opt/homebrew/bin/ffmpeg";

/// How far a conversion has come.
#[derive(Debug, PartialEq, Eq)]
pub enum Phase {
    /// Waiting to learn whether the source file exists.
    Source,
    /// Waiting to learn whether `dir`, which the output goes into, exists.
    OutputDir { dir: String },
    /// Waiting to learn whether the transcoder is installed.
    Tool,
    /// Waiting for the transcoder to exit.
    Running,
    /// Over.
    Finished { outcome: ExecutionOutcome },
}

/// What a [`Phase`] holds, as mathematics.
pub enum PhaseView {
    Source,
    OutputDir { dir: Seq<char> },
    Tool,
    Running,
    Finished { outcome: OutcomeView },
}

impl View for Phase {
    type V = PhaseView;

    open spec fn view(&self) -> PhaseView {
        match self {
            Phase::Source => PhaseView::Source,
            Phase::OutputDir { dir } => PhaseView::OutputDir { dir: dir@ },
            Phase::Tool => PhaseView::Tool,
            Phase::Running => PhaseView::Running,
            Phase::Finished { outcome } => PhaseView::Finished { outcome: outcome@ },
        }
    }
}

/// What the driver is asked to do.
#[derive(Debug, PartialEq, Eq)]
pub enum Action {
    /// Find out whether `path` exists, and answer with [`Event::Probed`].
    Probe { path: String },
    /// Run `program` with `arguments` until it exits, and answer with
    /// [`Event::Exited`], or with [`Event::LaunchFailed`] if it did not start.
    Launch { program: String, arguments: Vec<String> },
    /// Nothing more: hand `outcome` to the caller.
    Finish { outcome: ExecutionOutcome },
}

/// What an [`Action`] holds, as mathematics.
pub enum ActionView {
    Probe { path: Seq<char> },
    Launch { program: Seq<char>, arguments: Seq<Seq<char>> },
    Finish { outcome: OutcomeView },
}

impl View for Action {
    type V = ActionView;

    open spec fn view(&self) -> ActionView {
        match self {
            Action::Probe { path } => ActionView::Probe { path: path@ },
            Action::Launch { program, arguments } => ActionView::Launch {
                program: program@,
                arguments: arguments.deep_view(),
            },
            Action::Finish { outcome } => ActionView::Finish { outcome: outcome@ },
        }
    }
}

/// What the driver saw when it did what it was asked.
#[derive(Debug, PartialEq, Eq)]
pub enum Event {
    /// The probed path exists, or does not.
    Probed { exists: bool },
    /// The transcoder ran and exited.
    Exited { output: ProcessOutput },
    /// The transcoder could not be started, for the reason given.
    LaunchFailed { reason: String },
}

/// The action that is pending in `phase`.
pub open spec fn spec_pending(
    request: ConversionRequest,
    tool: Seq<char>,
    phase: PhaseView,
) -> ActionView {
    match phase {
        PhaseView::Source => ActionView::Probe { path: request.source_path@ },
        PhaseView::OutputDir { dir } => ActionView::Probe { path: dir },
        PhaseView::Tool => ActionView::Probe { path: tool },
        PhaseView::Running => ActionView::Launch {
            program: tool,
            arguments: spec_arguments(request),
        },
        PhaseView::Finished { outcome } => ActionView::Finish { outcome },
    }
}

/// The phase that follows once the source is known to exist: the check of
/// the output directory, where the output path names one, else the check of
/// the transcoder.
pub open spec fn spec_phase_after_source(directory: Option<Seq<char>>) -> PhaseView {
    match directory {
        Some(dir) => PhaseView::OutputDir { dir },
        None => PhaseView::Tool,
    }
}

/// The phase that follows `phase` when the driver reports `event`.
///
/// A failed check ends the conversion with the failure of its kind, a passed
/// one leads to the next check, and the last to the run. The run ends the
/// conversion, however it went. An event that does not answer the pending
/// action changes nothing.
pub open spec fn spec_advance(
    request: ConversionRequest,
    tool: Seq<char>,
    phase: PhaseView,
    event: Event,
) -> PhaseView {
    match (phase, event) {
        (PhaseView::Source, Event::Probed { exists }) => if exists {
            spec_phase_after_source(spec_directory(request.spec_effective_output()))
        } else {
            PhaseView::Finished {
                outcome: OutcomeView::failure(ErrorKind::SourceNotFound, request.source_path@),
            }
        },
        (PhaseView::OutputDir { dir }, Event::Probed { exists }) => if exists {
            PhaseView::Tool
        } else {
            PhaseView::Finished {
                outcome: OutcomeView::failure(ErrorKind::OutputDirMissing, dir),
            }
        },
        (PhaseView::Tool, Event::Probed { exists }) => if exists {
            PhaseView::Running
        } else {
            PhaseView::Finished { outcome: OutcomeView::failure(ErrorKind::ToolNotFound, tool) }
        },
        (PhaseView::Running, Event::Exited { output }) => PhaseView::Finished {
            outcome: output.spec_outcome(),
        },
        (PhaseView::Running, Event::LaunchFailed { reason }) => PhaseView::Finished {
            outcome: OutcomeView::failure(ErrorKind::ToolLaunchFailed, reason@),
        },
        _ => phase,
    }
}

/// The phase that follows once the source is known to exist, given the
/// directory that the output path names.
pub fn phase_after_source(directory: Option<String>) -> (phase: Phase)
    ensures
        phase@ == spec_phase_after_source(directory.deep_view()),
{
    match directory {
        Some(dir) => Phase::OutputDir { dir },
        None => Phase::Tool,
    }
}

/// A conversion under way: the request, where the transcoder is looked for,
/// and how far the conversion has come.
#[derive(Debug, PartialEq, Eq)]
pub struct Conversion {
    pub request: ConversionRequest,
    pub tool: String,
    pub phase: Phase,
}

impl Conversion {
    /// The pending action, as mathematics.
    pub open spec fn spec_pending(&self) -> ActionView {
        spec_pending(self.request, self.tool@, self.phase@)
    }

    /// The phase after `event`, as mathematics.
    pub open spec fn spec_advance(&self, event: Event) -> PhaseView {
        spec_advance(self.request, self.tool@, self.phase@, event)
    }

    /// A conversion of `request` that has not started, with the transcoder
    /// at `tool`.
    pub fn with_tool(request: ConversionRequest, tool: String) -> (conversion: Conversion)
        ensures
            conversion.request == request,
            conversion.tool == tool,
            conversion.phase@ == PhaseView::Source,
    {
        Conversion { request, tool, phase: Phase::Source }
    }

    /// A conversion of `request` that has not started, with the transcoder
    /// at [`TRANSCODER`].
    pub fn new(request: ConversionRequest) -> (conversion: Conversion)
        ensures
            conversion.request == request,
            conversion.tool@ == TRANSCODER@,
            conversion.phase@ == PhaseView::Source,
    {
        Conversion::with_tool(request, String::from_str(TRANSCODER))
    }

    /// What the driver is to do now.
    pub fn pending(&self) -> (action: Action)
        ensures
            action@ == self.spec_pending(),
    {
        match &self.phase {
            Phase::Source => Action::Probe { path: self.request.source_path.clone() },
            Phase::OutputDir { dir } => Action::Probe { path: dir.clone() },
            Phase::Tool => Action::Probe { path: self.tool.clone() },
            Phase::Running => Action::Launch {
                program: self.tool.clone(),
                arguments: build_arguments(&self.request),
            },
            Phase::Finished { outcome } => Action::Finish { outcome: outcome.clone() },
        }
    }

    /// Takes in what the driver saw and moves on.
    pub fn advance(self, event: Event) -> (next: Conversion)
        ensures
            next.request == self.request,
            next.tool == self.tool,
            next.phase@ == self.spec_advance(event),
    {
        let Conversion { request, tool, phase } = self;
        let phase = match phase {
            Phase::Source => match event {
                Event::Probed { exists } => if exists {
                    phase_after_source(directory_of(request.effective_output().as_str()))
                } else {
                    Phase::Finished {
                        outcome: ExecutionOutcome::failure(
                            ErrorKind::SourceNotFound,
                            request.source_path.clone(),
                        ),
                    }
                },
                _ => Phase::Source,
            },
            Phase::OutputDir { dir } => match event {
                Event::Probed { exists } => if exists {
                    Phase::Tool
                } else {
                    Phase::Finished {
                        outcome: ExecutionOutcome::failure(ErrorKind::OutputDirMissing, dir),
                    }
                },
                _ => Phase::OutputDir { dir },
            },
            Phase::Tool => match event {
                Event::Probed { exists } => if exists {
                    Phase::Running
                } else {
                    Phase::Finished {
                        outcome: ExecutionOutcome::failure(ErrorKind::ToolNotFound, tool.clone()),
                    }
                },
                _ => Phase::Tool,
            },
            Phase::Running => match event {
                Event::Exited { output } => Phase::Finished { outcome: output.outcome() },
                Event::LaunchFailed { reason } => Phase::Finished {
                    outcome: ExecutionOutcome::failure(ErrorKind::ToolLaunchFailed, reason),
                },
                _ => Phase::Running,
            },
            Phase::Finished { outcome } => Phase::Finished { outcome },
        };
        Conversion { request, tool, phase }
    }

    /// Takes in what the driver saw, moves on, and says what the driver is
    /// to do next.
    pub fn step(self, event: Event) -> (result: (Conversion, Action))
        ensures
            result.0.request == self.request,
            result.0.tool == self.tool,
            result.0.phase@ == self.spec_advance(event),
            result.1@ == result.0.spec_pending(),
    {
        let next = self.advance(event);
        let action = next.pending();
        (next, action)
    }
}

} // verus!
