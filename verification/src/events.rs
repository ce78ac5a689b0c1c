//! The window event handler: a state machine over the host's
//! process-wide state. Each platform event maps to one transition —
//! resize reallocates the surface, close and destroy clear the running
//! flag, key events relatch the key table on true edges, paint asks
//! for a presentation — and anything unhandled is delegated back to
//! the platform's default processing.

use vstd::prelude::*;

use crate::input::{
    spec_apply_key_transition, apply_key_transition, KeyTable, VK_F4,
};
use crate::present::{spec_blit_params, BlitParams};
use crate::surface::{PixelSurface, SurfaceModel};

verus! {

/// Key-event flag bit marking that the key was already down before
/// this event (bit 30 of the platform's key event payload).
pub const KEY_FLAG_WAS_DOWN: i64 = 0x4000_0000;

/// Key-event flag bit marking a release: the key is up after this
/// event exactly when the bit is set (bit 31).
pub const KEY_FLAG_IS_UP: i64 = 0x8000_0000;

/// Key-event flag bit marking that an alt key is held (bit 29).
pub const KEY_FLAG_ALT_HELD: i64 = 0x2000_0000;

/// Whether the key was down before the event, from the raw payload.
pub open spec fn spec_key_was_down(flags: i64) -> bool {
    flags & KEY_FLAG_WAS_DOWN != 0
}

/// Whether the key is down after the event, from the raw payload.
pub open spec fn spec_key_is_down(flags: i64) -> bool {
    flags & KEY_FLAG_IS_UP == 0
}

/// Whether an alt key is held, from the raw payload.
pub open spec fn spec_key_alt_held(flags: i64) -> bool {
    flags & KEY_FLAG_ALT_HELD != 0
}

/// Read the was-down bit of a raw key event payload.
pub fn key_was_down(flags: i64) -> (r: bool)
    ensures
        r == spec_key_was_down(flags),
{
    (flags & KEY_FLAG_WAS_DOWN) != 0
}

/// Read the is-down state of a raw key event payload.
pub fn key_is_down(flags: i64) -> (r: bool)
    ensures
        r == spec_key_is_down(flags),
{
    (flags & KEY_FLAG_IS_UP) == 0
}

/// Read the alt-held bit of a raw key event payload.
pub fn key_alt_held(flags: i64) -> (r: bool)
    ensures
        r == spec_key_alt_held(flags),
{
    (flags & KEY_FLAG_ALT_HELD) != 0
}

/// One window-system event, reduced to the plain values the handler
/// reads. The event pump translates platform messages into these.
#[derive(Clone, Copy, PartialEq, Eq, Structural, Debug)]
pub enum WindowEvent {
    /// The client area changed size; carries the new client dimensions.
    Resize { client_width: i32, client_height: i32 },
    /// The window was activated or deactivated; observability only.
    ActivateApp,
    /// The user asked to close the window.
    Close,
    /// The window is being destroyed.
    Destroy,
    /// The event pump saw the platform's quit message.
    Quit,
    /// A key went down or up (system-key variants included): the
    /// virtual-key code and the raw flag payload.
    Key { vk: u16, flags: i64 },
    /// The platform asked for a repaint; carries the current client
    /// dimensions.
    Paint { client_width: i32, client_height: i32 },
    /// Any other event; delegated to default processing, unmodified.
    Unhandled,
}

/// What the platform wrapper must do after a handled event.
#[derive(Clone, Copy, PartialEq, Eq, Structural, Debug)]
pub enum EventAction {
    /// Nothing further; the event is fully handled.
    Handled,
    /// Blit the surface as described, inside the paint bracket.
    Present { params: BlitParams },
    /// Hand the event to the platform's default processing.
    Delegate,
}

/// The process-wide application state: the one running flag, the
/// shared backbuffer, the latched key table and the 2D accumulator.
/// It is passed by reference through the event handler and the frame
/// loop instead of living in globals.
pub struct AppState {
    pub running: bool,
    pub surface: PixelSurface,
    pub keys: KeyTable,
    pub x_offset: i32,
    pub y_offset: i32,
}

/// Mathematical model of [`AppState`].
pub struct AppModel {
    pub running: bool,
    pub surface: SurfaceModel,
    pub keys: KeyTable,
    pub x_offset: int,
    pub y_offset: int,
}

impl View for AppState {
    type V = AppModel;

    open spec fn view(&self) -> AppModel {
        AppModel {
            running: self.running,
            surface: self.surface@,
            keys: self.keys,
            x_offset: self.x_offset as int,
            y_offset: self.y_offset as int,
        }
    }
}

impl AppModel {
    /// The state is well formed when its surface is.
    pub open spec fn wf(self) -> bool {
        self.surface.wf()
    }
}

impl AppState {
    /// Well-formedness of the executable state, stated on its model.
    pub open spec fn wf(self) -> bool {
        self@.wf()
    }

    /// The state a process starts in: running, with an empty surface,
    /// no key latched and the accumulator at the origin.
    pub fn new() -> (s: AppState)
        ensures
            s.wf(),
            s@.running,
            s@.keys == KeyTable::empty(),
            s@.x_offset == 0,
            s@.y_offset == 0,
            s@.surface.data.len() == 0,
            !s@.surface.is_paintable(),
    {
        AppState {
            running: true,
            surface: PixelSurface::new_empty(),
            keys: KeyTable::new(),
            x_offset: 0,
            y_offset: 0,
        }
    }
}

/// A resize event's dimensions must be non-negative and give a byte
/// size the surface's 32-bit fields can carry; the platform wrapper
/// checks this before dispatching, as the allocator's contract asks.
pub open spec fn event_ok(e: WindowEvent) -> bool {
    match e {
        WindowEvent::Resize { client_width, client_height } => {
            &&& 0 <= client_width
            &&& 0 <= client_height
            &&& client_width * 4 <= i32::MAX
            &&& client_width * client_height * 4 <= i32::MAX
        },
        _ => true,
    }
}

/// The state after one event, the handler's transition relation:
/// resize swaps in a fresh surface for the new client size; close,
/// destroy and quit clear the running flag; a key event relatches the
/// table on a true edge and clears the running flag on the alt+F4
/// quit accelerator regardless of the latch; everything else leaves
/// the state untouched.
pub open spec fn spec_step(m: AppModel, e: WindowEvent) -> AppModel {
    match e {
        WindowEvent::Resize { client_width, client_height } => AppModel {
            surface: m.surface.resized(client_width as int, client_height as int),
            ..m
        },
        WindowEvent::Close => AppModel { running: false, ..m },
        WindowEvent::Destroy => AppModel { running: false, ..m },
        WindowEvent::Quit => AppModel { running: false, ..m },
        WindowEvent::Key { vk, flags } => AppModel {
            keys: spec_apply_key_transition(
                m.keys,
                vk,
                spec_key_was_down(flags),
                spec_key_is_down(flags),
            ),
            running: if vk == VK_F4 && spec_key_alt_held(flags) {
                false
            } else {
                m.running
            },
            ..m
        },
        WindowEvent::ActivateApp => m,
        WindowEvent::Paint { .. } => m,
        WindowEvent::Unhandled => m,
    }
}

/// The action one event asks of the platform wrapper: a paint asks for
/// a blit of the current surface into the current client area (none
/// while the surface is not paintable), an unhandled event is
/// delegated, everything else is fully handled here.
pub open spec fn spec_action(m: AppModel, e: WindowEvent) -> EventAction {
    match e {
        WindowEvent::Paint { client_width, client_height } => match spec_blit_params(
            m.surface,
            client_width,
            client_height,
        ) {
            Some(params) => EventAction::Present { params },
            None => EventAction::Handled,
        },
        WindowEvent::Unhandled => EventAction::Delegate,
        _ => EventAction::Handled,
    }
}

/// Handle one window event: apply its transition to the state and
/// report what the platform wrapper still has to do for it.
pub fn handle_event(state: &mut AppState, event: WindowEvent) -> (action: EventAction)
    requires
        old(state).wf(),
        event_ok(event),
    ensures
        final(state).wf(),
        final(state)@ == spec_step(old(state)@, event),
        action == spec_action(old(state)@, event),
{
    match event {
        WindowEvent::Resize { client_width, client_height } => {
            state.surface.resize(client_width, client_height);
            EventAction::Handled
        },
        WindowEvent::ActivateApp => EventAction::Handled,
        WindowEvent::Close => {
            state.running = false;
            EventAction::Handled
        },
        WindowEvent::Destroy => {
            state.running = false;
            EventAction::Handled
        },
        WindowEvent::Quit => {
            state.running = false;
            EventAction::Handled
        },
        WindowEvent::Key { vk, flags } => {
            let was_down = key_was_down(flags);
            let is_down = key_is_down(flags);
            apply_key_transition(&mut state.keys, vk, was_down, is_down);
            if vk == VK_F4 && key_alt_held(flags) {
                state.running = false;
            }
            EventAction::Handled
        },
        WindowEvent::Paint { client_width, client_height } => {
            match state.surface.blit_params(client_width, client_height) {
                Some(params) => EventAction::Present { params },
                None => EventAction::Handled,
            }
        },
        WindowEvent::Unhandled => EventAction::Delegate,
    }
}

} // verus!
