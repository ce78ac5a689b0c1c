//! The frame loop's one iteration, in fixed order: drain the pending
//! events (any of which may clear the running flag), then — only if
//! still running — fold the sampled controller sticks into the
//! accumulator, fill the surface payload, and describe the blit that
//! presents it into the current client area.

use vstd::prelude::*;

use crate::events::{
    event_ok, handle_event, spec_step, AppModel, AppState, WindowEvent,
};
use crate::gradient::filled;
use crate::input::{
    accumulate_sticks, lemma_disconnected_sticks_are_still, sticks_dx, sticks_dy,
    ControllerSample,
};
use crate::present::{spec_blit_params, BlitParams};

verus! {

/// Every event of a drain satisfies the handler's entry condition.
pub open spec fn events_ok(events: Seq<WindowEvent>) -> bool {
    forall|i: int| 0 <= i < events.len() ==> event_ok(#[trigger] events[i])
}

/// The state after dispatching a whole batch of pending events in
/// order.
pub open spec fn spec_drain(m: AppModel, events: Seq<WindowEvent>) -> AppModel
    decreases events.len(),
{
    if events.len() == 0 {
        m
    } else {
        spec_drain(spec_step(m, events[0]), events.drop_first())
    }
}

/// Events that request shutdown: they clear the running flag.
pub open spec fn is_shutdown_event(e: WindowEvent) -> bool {
    e == WindowEvent::Close || e == WindowEvent::Destroy || e == WindowEvent::Quit
}

/// Every slot of a frame's controller samples reads disconnected, as
/// a degraded (driverless) sampler reports.
pub open spec fn all_disconnected(samples: Seq<ControllerSample>) -> bool {
    forall|i: int| 0 <= i < samples.len() ==> samples[i] == ControllerSample::Disconnected
}

/// The state and the requested present after one whole frame: the
/// drained state untouched if the drain observed shutdown, otherwise
/// the accumulated, refilled surface and its blit description.
pub open spec fn spec_frame(
    m: AppModel,
    events: Seq<WindowEvent>,
    samples: Seq<ControllerSample>,
    client_width: i32,
    client_height: i32,
) -> (AppModel, Option<BlitParams>) {
    let drained = spec_drain(m, events);
    if !drained.running {
        (drained, None)
    } else {
        let x = drained.x_offset + sticks_dx(samples);
        let y = drained.y_offset + sticks_dy(samples);
        let surface = filled(drained.surface, x, y);
        (
            AppModel { surface, x_offset: x, y_offset: y, ..drained },
            spec_blit_params(surface, client_width, client_height),
        )
    }
}

/// Dispatch one frame's batch of pending events to the event handler,
/// in order.
pub fn drain_events(state: &mut AppState, events: &Vec<WindowEvent>)
    requires
        old(state).wf(),
        events_ok(events@),
    ensures
        final(state).wf(),
        final(state)@ == spec_drain(old(state)@, events@),
{
    let ghost m0 = state@;
    proof {
        assert(events@.skip(0) =~= events@);
    }
    let n = events.len();
    let mut i: usize = 0;
    while i < n
        invariant
            i <= n,
            n == events@.len(),
            state.wf(),
            events_ok(events@),
            spec_drain(m0, events@) == spec_drain(state@, events@.skip(i as int)),
        decreases n - i,
    {
        proof {
            assert(events@.skip(i as int)[0] == events@[i as int]);
            assert(events@.skip(i as int).drop_first() =~= events@.skip(i as int + 1));
            assert(event_ok(events@[i as int]));
        }
        let event = events[i];
        handle_event(state, event);
        i = i + 1;
    }
    proof {
        assert(events@.skip(n as int) =~= Seq::<WindowEvent>::empty());
    }
}

/// Run one frame: drain events, and — only while still running —
/// accumulate the sticks, fill the payload, and describe the present.
///
/// The accumulator margins keep every intermediate sum inside its
/// 32-bit range; dispatching events never moves the accumulator, so
/// the margins survive the drain.
pub fn frame(
    state: &mut AppState,
    events: &Vec<WindowEvent>,
    samples: &Vec<ControllerSample>,
    client_width: i32,
    client_height: i32,
) -> (present: Option<BlitParams>)
    requires
        old(state).wf(),
        events_ok(events@),
        i32::MIN + 8 * samples@.len() <= old(state)@.x_offset,
        old(state)@.x_offset + 8 * samples@.len() <= i32::MAX,
        i32::MIN + 8 * samples@.len() <= old(state)@.y_offset,
        old(state)@.y_offset + 8 * samples@.len() <= i32::MAX,
    ensures
        final(state).wf(),
        final(state)@ == spec_frame(old(state)@, events@, samples@, client_width, client_height).0,
        present == spec_frame(old(state)@, events@, samples@, client_width, client_height).1,
        !spec_drain(old(state)@, events@).running ==> present is None,
{
    drain_events(state, events);
    if !state.running {
        return None;
    }
    proof {
        lemma_drain_preserves_accumulator(old(state)@, events@);
    }
    let mut x = state.x_offset;
    let mut y = state.y_offset;
    accumulate_sticks(&mut x, &mut y, samples);
    state.x_offset = x;
    state.y_offset = y;
    state.surface.fill_gradient(x, y);
    state.surface.blit_params(client_width, client_height)
}

/// No event transition moves the 2D accumulator: only the input
/// sampler does.
pub proof fn lemma_drain_preserves_accumulator(m: AppModel, events: Seq<WindowEvent>)
    ensures
        spec_drain(m, events).x_offset == m.x_offset,
        spec_drain(m, events).y_offset == m.y_offset,
    decreases events.len(),
{
    if events.len() > 0 {
        lemma_drain_preserves_accumulator(spec_step(m, events[0]), events.drop_first());
    }
}

/// Shutdown is sticky across a drain: no event transition sets the
/// running flag back to true.
pub proof fn lemma_drain_keeps_shutdown(m: AppModel, events: Seq<WindowEvent>)
    requires
        !m.running,
    ensures
        !spec_drain(m, events).running,
    decreases events.len(),
{
    if events.len() > 0 {
        lemma_drain_keeps_shutdown(spec_step(m, events[0]), events.drop_first());
    }
}

/// A close, destroy or quit event anywhere in the drain leaves the
/// running flag false at the drain's end.
pub proof fn lemma_shutdown_event_stops_drain(m: AppModel, events: Seq<WindowEvent>)
    requires
        exists|i: int| 0 <= i < events.len() && is_shutdown_event(#[trigger] events[i]),
    ensures
        !spec_drain(m, events).running,
    decreases events.len(),
{
    let i = choose|i: int| 0 <= i < events.len() && is_shutdown_event(#[trigger] events[i]);
    if i == 0 {
        lemma_drain_keeps_shutdown(spec_step(m, events[0]), events.drop_first());
    } else {
        assert(events.drop_first()[i - 1] == events[i]);
        lemma_shutdown_event_stops_drain(spec_step(m, events[0]), events.drop_first());
    }
}

/// Dispatching a close event mid-drain stops the frame: the running
/// flag ends false, the frame's state is exactly the drained state —
/// no accumulation and no fill follow — and no present is requested.
pub proof fn lemma_shutdown_mid_drain_stops_frame(
    m: AppModel,
    events: Seq<WindowEvent>,
    samples: Seq<ControllerSample>,
    client_width: i32,
    client_height: i32,
)
    requires
        exists|i: int| 0 <= i < events.len() && is_shutdown_event(#[trigger] events[i]),
    ensures
        !spec_frame(m, events, samples, client_width, client_height).0.running,
        spec_frame(m, events, samples, client_width, client_height).0 == spec_drain(m, events),
        spec_frame(m, events, samples, client_width, client_height).1 is None,
{
    lemma_shutdown_event_stops_drain(m, events);
}

/// The inputs one frame-loop iteration consumes.
pub struct FrameInput {
    pub events: Seq<WindowEvent>,
    pub samples: Seq<ControllerSample>,
    pub client_width: i32,
    pub client_height: i32,
}

/// The state after any number of whole frames.
pub open spec fn spec_run(m: AppModel, frames: Seq<FrameInput>) -> AppModel
    decreases frames.len(),
{
    if frames.len() == 0 {
        m
    } else {
        spec_run(
            spec_frame(
                m,
                frames[0].events,
                frames[0].samples,
                frames[0].client_width,
                frames[0].client_height,
            ).0,
            frames.drop_first(),
        )
    }
}

/// With the controller driver degraded to always-disconnected
/// sampling, the 2D accumulator is unchanged across any number of
/// frames, whatever else those frames dispatch or paint.
pub proof fn lemma_degraded_driver_keeps_accumulator(m: AppModel, frames: Seq<FrameInput>)
    requires
        forall|i: int| 0 <= i < frames.len() ==> all_disconnected(#[trigger] frames[i].samples),
    ensures
        spec_run(m, frames).x_offset == m.x_offset,
        spec_run(m, frames).y_offset == m.y_offset,
    decreases frames.len(),
{
    if frames.len() > 0 {
        lemma_drain_preserves_accumulator(m, frames[0].events);
        lemma_disconnected_sticks_are_still(frames[0].samples);
        lemma_degraded_driver_keeps_accumulator(
            spec_frame(
                m,
                frames[0].events,
                frames[0].samples,
                frames[0].client_width,
                frames[0].client_height,
            ).0,
            frames.drop_first(),
        );
    }
}

} // verus!
