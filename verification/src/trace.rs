//! Whole runs of a conversion: what holds of every sequence of events a
//! driver may report.

use vstd::prelude::*;
use crate::outcome::{ErrorKind, OutcomeView, ProcessOutput};
use crate::paths::spec_directory;
use crate::pipeline::{spec_advance, spec_pending, ActionView, Event, PhaseView};
use crate::request::ConversionRequest;

verus! {

/// The phase reached from `phase` once the driver has reported `events`, one
/// after the other.
pub open spec fn spec_after_events(
    request: ConversionRequest,
    tool: Seq<char>,
    phase: PhaseView,
    events: Seq<Event>,
) -> PhaseView
    decreases events.len(),
{
    if events.len() == 0 {
        phase
    } else {
        spec_after_events(request, tool, spec_advance(request, tool, phase, events[0]), events.drop_first())
    }
}

/// Whether the transcoder is of any concern in `phase`: it is being looked
/// for, or it is to be run.
pub open spec fn concerns_tool(phase: PhaseView) -> bool {
    phase is Tool || phase is Running
}

/// Whether a run that starts in `phase` and sees `events` comes through a
/// phase in which the transcoder is looked for or run.
pub open spec fn touches_tool(
    request: ConversionRequest,
    tool: Seq<char>,
    phase: PhaseView,
    events: Seq<Event>,
) -> bool
    decreases events.len(),
{
    concerns_tool(phase) || (events.len() > 0 && touches_tool(
        request,
        tool,
        spec_advance(request, tool, phase, events[0]),
        events.drop_first(),
    ))
}

/// The transcoder is started in the phase in which it is run and in no other.
pub proof fn lemma_launch_only_when_running(
    request: ConversionRequest,
    tool: Seq<char>,
    phase: PhaseView,
)
    ensures
        spec_pending(request, tool, phase) is Launch <==> phase is Running,
        spec_pending(request, tool, phase) is Launch ==> concerns_tool(phase),
{
}

/// A finished conversion stays finished, with the outcome it has, whatever
/// is reported to it, and has nothing more to do with the transcoder.
pub proof fn lemma_finished_is_final(
    request: ConversionRequest,
    tool: Seq<char>,
    outcome: OutcomeView,
    events: Seq<Event>,
)
    ensures
        spec_after_events(request, tool, PhaseView::Finished { outcome }, events) == (PhaseView::Finished {
            outcome,
        }),
        !touches_tool(request, tool, PhaseView::Finished { outcome }, events),
    decreases events.len(),
{
    if events.len() > 0 {
        lemma_finished_is_final(request, tool, outcome, events.drop_first());
    }
}

/// A conversion whose source does not exist fails with `SourceNotFound`, and
/// the transcoder is neither looked for nor started: the first thing asked
/// is whether the source exists, and after the answer that it does not, the
/// conversion is over, whatever else is reported.
pub proof fn lemma_missing_source_stops_everything(
    request: ConversionRequest,
    tool: Seq<char>,
    later: Seq<Event>,
)
    ensures
        spec_pending(request, tool, PhaseView::Source) == (ActionView::Probe {
            path: request.source_path@,
        }),
        spec_after_events(
            request,
            tool,
            PhaseView::Source,
            seq![Event::Probed { exists: false }] + later,
        ) == (PhaseView::Finished {
            outcome: OutcomeView::failure(ErrorKind::SourceNotFound, request.source_path@),
        }),
        !touches_tool(
            request,
            tool,
            PhaseView::Source,
            seq![Event::Probed { exists: false }] + later,
        ),
{
    let events = seq![Event::Probed { exists: false }] + later;
    let outcome = OutcomeView::failure(ErrorKind::SourceNotFound, request.source_path@);
    assert(events[0] == Event::Probed { exists: false });
    assert(events.drop_first() =~= later);
    lemma_finished_is_final(request, tool, outcome, later);
}

/// A conversion whose source exists and whose output path names a directory
/// that does not exist fails with `OutputDirMissing`, and the transcoder is
/// neither looked for nor started: after the source, the directory is asked
/// about, and after the answer that it does not exist, the conversion is
/// over, whatever else is reported.
pub proof fn lemma_missing_output_dir_stops_before_tool(
    request: ConversionRequest,
    tool: Seq<char>,
    dir: Seq<char>,
    later: Seq<Event>,
)
    requires
        spec_directory(request.spec_effective_output()) == Some(dir),
    ensures
        spec_advance(request, tool, PhaseView::Source, Event::Probed { exists: true }) == (
        PhaseView::OutputDir { dir }),
        spec_pending(request, tool, PhaseView::OutputDir { dir }) == (ActionView::Probe {
            path: dir,
        }),
        spec_after_events(
            request,
            tool,
            PhaseView::Source,
            seq![Event::Probed { exists: true }, Event::Probed { exists: false }] + later,
        ) == (PhaseView::Finished {
            outcome: OutcomeView::failure(ErrorKind::OutputDirMissing, dir),
        }),
        !touches_tool(
            request,
            tool,
            PhaseView::Source,
            seq![Event::Probed { exists: true }, Event::Probed { exists: false }] + later,
        ),
{
    let events = seq![Event::Probed { exists: true }, Event::Probed { exists: false }] + later;
    let outcome = OutcomeView::failure(ErrorKind::OutputDirMissing, dir);
    let rest = events.drop_first();
    assert(events[0] == Event::Probed { exists: true });
    assert(rest[0] == Event::Probed { exists: false });
    assert(rest.drop_first() =~= later);
    lemma_finished_is_final(request, tool, outcome, later);
    assert(spec_after_events(request, tool, PhaseView::OutputDir { dir }, rest) == (PhaseView::Finished {
        outcome,
    }));
    assert(!touches_tool(request, tool, PhaseView::OutputDir { dir }, rest));
}

/// How a run of the transcoder ends: with its output once it has exited, or
/// with the reason why it did not start.
pub type Run = Result<ProcessOutput, String>;

/// What a driver reports of a run that ended in `run`.
pub open spec fn spec_event_of_run(run: Run) -> Event {
    match run {
        Ok(output) => Event::Exited { output },
        Err(reason) => Event::LaunchFailed { reason },
    }
}

/// What a driver that does as it is asked reports for `action`, in a world
/// where the paths in `present` exist and no others, and where a run of the
/// transcoder ends in `run`.
pub open spec fn spec_answer(action: ActionView, present: Set<Seq<char>>, run: Run) -> Event {
    match action {
        ActionView::Probe { path } => Event::Probed { exists: present.contains(path) },
        _ => spec_event_of_run(run),
    }
}

/// The phase reached from `phase` when such a driver has carried out `steps`
/// actions, each time the pending one.
pub open spec fn spec_drive(
    request: ConversionRequest,
    tool: Seq<char>,
    phase: PhaseView,
    present: Set<Seq<char>>,
    run: Run,
    steps: nat,
) -> PhaseView
    decreases steps,
{
    if steps == 0 {
        phase
    } else {
        let event = spec_answer(spec_pending(request, tool, phase), present, run);
        spec_drive(
            request,
            tool,
            spec_advance(request, tool, phase, event),
            present,
            run,
            (steps - 1) as nat,
        )
    }
}

/// What a run of the transcoder amounts to: the outcome read from its exit,
/// or the failure to start it.
pub open spec fn spec_outcome_of_run(run: Run) -> OutcomeView {
    match run {
        Ok(output) => output.spec_outcome(),
        Err(reason) => OutcomeView::failure(ErrorKind::ToolLaunchFailed, reason@),
    }
}

/// The outcome of a conversion in such a world. The source must exist, then
/// the directory that the output path names, if it names one, then the
/// transcoder. The first of them that does not exist is the failure
/// reported. With all in place the outcome is that of the run.
pub open spec fn spec_convert(
    request: ConversionRequest,
    tool: Seq<char>,
    present: Set<Seq<char>>,
    run: Run,
) -> OutcomeView {
    let directory = spec_directory(request.spec_effective_output());
    if !present.contains(request.source_path@) {
        OutcomeView::failure(ErrorKind::SourceNotFound, request.source_path@)
    } else if directory is Some && !present.contains(directory.unwrap()) {
        OutcomeView::failure(ErrorKind::OutputDirMissing, directory.unwrap())
    } else if !present.contains(tool) {
        OutcomeView::failure(ErrorKind::ToolNotFound, tool)
    } else {
        spec_outcome_of_run(run)
    }
}

/// A driver that does as it is asked has the outcome of the conversion
/// after four actions at most, and that outcome is [`spec_convert`].
pub proof fn lemma_drive_ends_in_outcome(
    request: ConversionRequest,
    tool: Seq<char>,
    present: Set<Seq<char>>,
    run: Run,
    steps: nat,
)
    requires
        steps >= 4,
    ensures
        spec_drive(request, tool, PhaseView::Source, present, run, steps) == (PhaseView::Finished {
            outcome: spec_convert(request, tool, present, run),
        }),
{
    reveal_with_fuel(spec_drive, 5);
    let fourth = spec_drive(request, tool, PhaseView::Source, present, run, 4);
    lemma_drive_splits(request, tool, PhaseView::Source, present, run, 4, (steps - 4) as nat);
    lemma_drive_stays_finished(request, tool, fourth, present, run, (steps - 4) as nat);
}

/// The transcoder is started only after all that must exist was found to
/// exist: where such a driver is asked to start it, the source exists, the
/// directory that the output path names exists if it names one, and the
/// transcoder exists.
pub proof fn lemma_launch_needs_every_check(
    request: ConversionRequest,
    tool: Seq<char>,
    present: Set<Seq<char>>,
    run: Run,
    steps: nat,
)
    requires
        spec_pending(
            request,
            tool,
            spec_drive(request, tool, PhaseView::Source, present, run, steps),
        ) is Launch,
    ensures
        present.contains(request.source_path@),
        spec_directory(request.spec_effective_output()) matches Some(dir) ==> present.contains(
            dir,
        ),
        present.contains(tool),
{
    reveal_with_fuel(spec_drive, 5);
    if steps >= 4 {
        lemma_drive_ends_in_outcome(request, tool, present, run, steps);
    }
}

/// Driving for `first` actions and then for `second` more is driving for
/// both together.
proof fn lemma_drive_splits(
    request: ConversionRequest,
    tool: Seq<char>,
    phase: PhaseView,
    present: Set<Seq<char>>,
    run: Run,
    first: nat,
    second: nat,
)
    ensures
        spec_drive(request, tool, phase, present, run, first + second) == spec_drive(
            request,
            tool,
            spec_drive(request, tool, phase, present, run, first),
            present,
            run,
            second,
        ),
    decreases first,
{
    if first > 0 {
        let event = spec_answer(spec_pending(request, tool, phase), present, run);
        lemma_drive_splits(
            request,
            tool,
            spec_advance(request, tool, phase, event),
            present,
            run,
            (first - 1) as nat,
            second,
        );
    }
}

/// A finished conversion stays finished however long it is driven.
proof fn lemma_drive_stays_finished(
    request: ConversionRequest,
    tool: Seq<char>,
    phase: PhaseView,
    present: Set<Seq<char>>,
    run: Run,
    steps: nat,
)
    requires
        phase is Finished,
    ensures
        spec_drive(request, tool, phase, present, run, steps) == phase,
    decreases steps,
{
    if steps > 0 {
        lemma_drive_stays_finished(request, tool, phase, present, run, (steps - 1) as nat);
    }
}

} // verus!
