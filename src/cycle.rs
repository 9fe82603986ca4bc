//! What holds of present calls as a whole: properties of the compositor's
//! state machine over single steps and over runs of events.
use vstd::prelude::*;
use crate::compositor::{Command, Compositor, Event, FrameInput, Phase, fresh_overlay, full_viewport};

verus! {

/// The compositor is inside a present call.
pub open spec fn busy(c: Compositor) -> nat {
    if c.phase == Phase::Idle {
        0
    } else {
        1
    }
}

/// At most how many more events the present call in progress takes.
pub open spec fn steps_left(p: Phase) -> nat {
    match p {
        Phase::Idle => 0,
        Phase::Drawing(_) => 1,
        Phase::TearingDown => 1,
        Phase::Importing(_) => 2,
        Phase::Resizing(_) => 3,
        Phase::Rebuilding(_) => 4,
    }
}

/// Every event of `es` is the one the compositor waits for when it comes.
pub open spec fn accepted_run(c: Compositor, es: Seq<Event>) -> bool
    decreases es.len(),
{
    es.len() == 0 || (c.accepts(es[0]) && accepted_run(c.next(es[0]).0, es.drop_first()))
}

/// The state after the events `es`, and the commands answered.
pub open spec fn run(c: Compositor, es: Seq<Event>) -> (Compositor, Seq<Command>)
    decreases es.len(),
{
    if es.len() == 0 {
        (c, Seq::empty())
    } else {
        let (c1, cmd) = c.next(es[0]);
        let (cn, rest) = run(c1, es.drop_first());
        (cn, seq![cmd] + rest)
    }
}

/// How many of `cmds` call the original entry point.
pub open spec fn calls_through(cmds: Seq<Command>) -> nat
    decreases cmds.len(),
{
    if cmds.len() == 0 {
        0
    } else {
        (if cmds[0] is CallOriginal {
            1nat
        } else {
            0nat
        }) + calls_through(cmds.drop_first())
    }
}

/// How many of `es` begin a present call.
pub open spec fn presents(es: Seq<Event>) -> nat
    decreases es.len(),
{
    if es.len() == 0 {
        0
    } else {
        (if es[0] is Present {
            1nat
        } else {
            0nat
        }) + presents(es.drop_first())
    }
}

/// Each step calls the original entry point exactly when it ends the present
/// call; each step inside a call brings its end closer, and a call takes at
/// most five events from its `Present` on.
pub proof fn lemma_step_calls_through_at_end(c: Compositor, e: Event)
    requires
        c.wf(),
        c.accepts(e),
    ensures
        c.next(e).0.wf(),
        (c.next(e).1 is CallOriginal) == (c.next(e).0.phase == Phase::Idle),
        c.phase != Phase::Idle ==> steps_left(c.next(e).0.phase) < steps_left(c.phase),
        steps_left(c.next(e).0.phase) <= 4,
{
}

/// Over any run of accepted events that starts and ends between present
/// calls, the original entry point is called exactly once per present call.
pub proof fn lemma_original_called_once_per_present(c: Compositor, es: Seq<Event>)
    requires
        c.wf(),
        c.phase == Phase::Idle,
        accepted_run(c, es),
        run(c, es).0.phase == Phase::Idle,
    ensures
        calls_through(run(c, es).1) == presents(es),
{
    lemma_run_balance(c, es);
}

/// Calls through and present calls balance, counting the call in progress.
proof fn lemma_run_balance(c: Compositor, es: Seq<Event>)
    requires
        c.wf(),
        accepted_run(c, es),
    ensures
        run(c, es).0.wf(),
        calls_through(run(c, es).1) + busy(run(c, es).0) == presents(es) + busy(c),
    decreases es.len(),
{
    if es.len() > 0 {
        let (c1, cmd) = c.next(es[0]);
        lemma_step_calls_through_at_end(c, es[0]);
        lemma_run_balance(c1, es.drop_first());
        let rest = run(c1, es.drop_first()).1;
        assert((seq![cmd] + rest).drop_first() =~= rest);
    }
}

/// The frame that the event `e` belongs to, if the compositor still holds it.
pub open spec fn frame_input(c: Compositor, e: Event) -> Option<FrameInput> {
    match (c.phase, e) {
        (Phase::Idle, Event::Present(i)) => Some(i),
        (Phase::Rebuilding(i), _) => Some(i),
        (Phase::Resizing(i), _) => Some(i),
        (Phase::Importing(i), _) => Some(i),
        (Phase::Drawing(i), _) => Some(i),
        _ => None,
    }
}

/// A frame whose block fails validation binds nothing: its present call only
/// rebuilds lost objects and calls through, untimed.
pub proof fn lemma_invalid_frame_binds_nothing(c: Compositor, e: Event)
    requires
        c.wf(),
        c.accepts(e),
        frame_input(c, e) is Some,
        !frame_input(c, e)->0.frame.valid(),
    ensures
        c.next(e).1 == Command::Rebuild || c.next(e).1 == (Command::CallOriginal { timed: false }),
{
}

/// A target is recreated only with the viewport `(0, 0, W, H)` of the
/// backbuffer as queried this frame, every draw uses that viewport, and a
/// present call recreates the target at most once.
pub proof fn lemma_resize_targets_backbuffer(c: Compositor, e: Event)
    requires
        c.wf(),
        c.accepts(e),
    ensures
        c.next(e).1 matches Command::RecreateTarget(v) ==> frame_input(c, e) is Some && v
            == full_viewport(
            frame_input(c, e)->0.backbuffer_width,
            frame_input(c, e)->0.backbuffer_height,
        ),
        c.next(e).1 matches Command::Draw(p) ==> frame_input(c, e) is Some && p.viewport
            == full_viewport(
            frame_input(c, e)->0.backbuffer_width,
            frame_input(c, e)->0.backbuffer_height,
        ),
        c.phase is Resizing ==> !(c.next(e).0.phase is Resizing),
{
}

/// A host resize to `(W, H)`, with a usable frame block, recreates the target
/// with viewport `(0, 0, W, H)`; once it exists, the next present calls of
/// that size recreate nothing.
pub proof fn lemma_resize_once(c: Compositor, input: FrameInput)
    requires
        c.wf(),
        c.phase == Phase::Idle,
        c.overlay is Some,
        input.rendering_enabled,
        !input.device_removed,
        input.frame.valid(),
        input.backbuffer_width != 0,
        input.backbuffer_height != 0,
    ensures
        ({
            let want = full_viewport(input.backbuffer_width, input.backbuffer_height);
            let o = c.overlay->0;
            &&& (!o.has_target || o.viewport != want) ==> c.next(Event::Present(input)).1
                == Command::RecreateTarget(want)
            &&& (o.has_target && o.viewport == want) ==> !(c.next(
                Event::Present(input),
            ).1 is RecreateTarget)
        }),
        c.next(Event::Present(input)).1 is RecreateTarget ==> ({
            let c1 = c.next(Event::Present(input)).0;
            let c2 = c1.next(Event::TargetRecreated(true)).0;
            &&& c2.overlay->0.has_target
            &&& c2.overlay->0.viewport == full_viewport(
                input.backbuffer_width,
                input.backbuffer_height,
            )
        }),
{
}

/// On a removed device, the next present call drops every overlay object and
/// rebuilds them all; the rebuilt model holds no target and no imported
/// texture, so nothing stale is drawn with.
pub proof fn lemma_device_removed_rebuilds(c: Compositor, input: FrameInput, vertex_buffer: bool)
    requires
        c.wf(),
        c.phase == Phase::Idle,
        input.rendering_enabled,
        input.device_removed,
    ensures
        c.next(Event::Present(input)) == (
            Compositor { overlay: None, phase: Phase::Rebuilding(input) },
            Command::Rebuild,
        ),
        ({
            let c1 = c.next(Event::Present(input)).0;
            let (c2, cmd) = c1.next(Event::Rebuilt { ok: true, vertex_buffer });
            &&& c2.overlay == Some(fresh_overlay(vertex_buffer))
            &&& cmd is RecreateTarget || cmd == (Command::CallOriginal { timed: false })
        }),
{
}

/// A failed texture import tears the overlay down completely and notifies
/// the cleanup collaborator; the present call then only calls through,
/// untimed, and draws nothing.
pub proof fn lemma_import_failure_tears_down(c: Compositor)
    requires
        c.wf(),
        c.phase is Importing,
    ensures
        c.next(Event::Imported(false)) == (
            Compositor { overlay: None, phase: Phase::TearingDown },
            Command::Teardown,
        ),
        c.next(Event::Imported(false)).0.next(Event::TornDown) == (
            Compositor { overlay: None, phase: Phase::Idle },
            Command::CallOriginal { timed: false },
        ),
{
}

} // verus!
