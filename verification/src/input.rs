//! Per-frame input: the latched keyboard table updated on true edge
//! transitions, and the 2D accumulator fed by polled controller stick
//! deflection. A missing controller driver degrades to permanently
//! disconnected slots and never faults.

use vstd::arithmetic::div_mod::{lemma_fundamental_div_mod, lemma_fundamental_div_mod_converse};
use vstd::prelude::*;

verus! {

/// Virtual-key code of the 'W' key.
pub const VK_W: u16 = 0x57;

/// Virtual-key code of the 'A' key.
pub const VK_A: u16 = 0x41;

/// Virtual-key code of the 'S' key.
pub const VK_S: u16 = 0x53;

/// Virtual-key code of the 'D' key.
pub const VK_D: u16 = 0x44;

/// Virtual-key code of the 'Q' key.
pub const VK_Q: u16 = 0x51;

/// Virtual-key code of the 'E' key.
pub const VK_E: u16 = 0x45;

/// Virtual-key code of the escape key.
pub const VK_ESCAPE: u16 = 0x1B;

/// Virtual-key code of the space bar.
pub const VK_SPACE: u16 = 0x20;

/// Virtual-key code of the F4 key; together with a held alt key it is
/// the configured quit accelerator.
pub const VK_F4: u16 = 0x73;

/// The platform's controller slot limit: slots are polled 0..4.
pub const MAX_CONTROLLERS: usize = 4;

/// Poll status a connected controller reports.
pub const CONTROLLER_STATUS_SUCCESS: u32 = 0;

/// Poll status of an absent controller, also the status the stub
/// driver reports for every slot when no driver could be loaded.
pub const CONTROLLER_STATUS_NOT_CONNECTED: u32 = 0x48F;

/// The keys whose pressed state the host latches.
#[derive(Clone, Copy, PartialEq, Eq, Structural, Debug)]
pub enum TrackedKey {
    KeyW,
    KeyA,
    KeyS,
    KeyD,
    KeyQ,
    KeyE,
    Escape,
    Space,
}

/// Latched is-down state of every tracked key.
#[derive(Clone, Copy, PartialEq, Eq, Structural, Debug)]
pub struct KeyTable {
    pub key_w: bool,
    pub key_a: bool,
    pub key_s: bool,
    pub key_d: bool,
    pub key_q: bool,
    pub key_e: bool,
    pub escape: bool,
    pub space: bool,
}

impl KeyTable {
    /// The table at process start: no key held.
    pub open spec fn empty() -> KeyTable {
        KeyTable {
            key_w: false,
            key_a: false,
            key_s: false,
            key_d: false,
            key_q: false,
            key_e: false,
            escape: false,
            space: false,
        }
    }

    /// The latched state of one tracked key.
    pub open spec fn spec_get(self, key: TrackedKey) -> bool {
        match key {
            TrackedKey::KeyW => self.key_w,
            TrackedKey::KeyA => self.key_a,
            TrackedKey::KeyS => self.key_s,
            TrackedKey::KeyD => self.key_d,
            TrackedKey::KeyQ => self.key_q,
            TrackedKey::KeyE => self.key_e,
            TrackedKey::Escape => self.escape,
            TrackedKey::Space => self.space,
        }
    }

    /// The table with one tracked key relatched.
    pub open spec fn spec_set(self, key: TrackedKey, down: bool) -> KeyTable {
        match key {
            TrackedKey::KeyW => KeyTable { key_w: down, ..self },
            TrackedKey::KeyA => KeyTable { key_a: down, ..self },
            TrackedKey::KeyS => KeyTable { key_s: down, ..self },
            TrackedKey::KeyD => KeyTable { key_d: down, ..self },
            TrackedKey::KeyQ => KeyTable { key_q: down, ..self },
            TrackedKey::KeyE => KeyTable { key_e: down, ..self },
            TrackedKey::Escape => KeyTable { escape: down, ..self },
            TrackedKey::Space => KeyTable { space: down, ..self },
        }
    }

    /// An empty table, for process start.
    pub fn new() -> (t: KeyTable)
        ensures
            t == KeyTable::empty(),
    {
        KeyTable {
            key_w: false,
            key_a: false,
            key_s: false,
            key_d: false,
            key_q: false,
            key_e: false,
            escape: false,
            space: false,
        }
    }

    /// Read the latched state of one tracked key.
    pub fn get(&self, key: TrackedKey) -> (down: bool)
        ensures
            down == self.spec_get(key),
    {
        match key {
            TrackedKey::KeyW => self.key_w,
            TrackedKey::KeyA => self.key_a,
            TrackedKey::KeyS => self.key_s,
            TrackedKey::KeyD => self.key_d,
            TrackedKey::KeyQ => self.key_q,
            TrackedKey::KeyE => self.key_e,
            TrackedKey::Escape => self.escape,
            TrackedKey::Space => self.space,
        }
    }

    fn set(&mut self, key: TrackedKey, down: bool)
        ensures
            *final(self) == old(self).spec_set(key, down),
    {
        match key {
            TrackedKey::KeyW => self.key_w = down,
            TrackedKey::KeyA => self.key_a = down,
            TrackedKey::KeyS => self.key_s = down,
            TrackedKey::KeyD => self.key_d = down,
            TrackedKey::KeyQ => self.key_q = down,
            TrackedKey::KeyE => self.key_e = down,
            TrackedKey::Escape => self.escape = down,
            TrackedKey::Space => self.space = down,
        }
    }
}

/// The tracked key a virtual-key code names, if any.
pub open spec fn spec_tracked_key(vk: u16) -> Option<TrackedKey> {
    if vk == VK_W {
        Some(TrackedKey::KeyW)
    } else if vk == VK_A {
        Some(TrackedKey::KeyA)
    } else if vk == VK_S {
        Some(TrackedKey::KeyS)
    } else if vk == VK_D {
        Some(TrackedKey::KeyD)
    } else if vk == VK_Q {
        Some(TrackedKey::KeyQ)
    } else if vk == VK_E {
        Some(TrackedKey::KeyE)
    } else if vk == VK_ESCAPE {
        Some(TrackedKey::Escape)
    } else if vk == VK_SPACE {
        Some(TrackedKey::Space)
    } else {
        None
    }
}

/// Map a virtual-key code to the tracked key it names.
pub fn tracked_key(vk: u16) -> (key: Option<TrackedKey>)
    ensures
        key == spec_tracked_key(vk),
{
    if vk == VK_W {
        Some(TrackedKey::KeyW)
    } else if vk == VK_A {
        Some(TrackedKey::KeyA)
    } else if vk == VK_S {
        Some(TrackedKey::KeyS)
    } else if vk == VK_D {
        Some(TrackedKey::KeyD)
    } else if vk == VK_Q {
        Some(TrackedKey::KeyQ)
    } else if vk == VK_E {
        Some(TrackedKey::KeyE)
    } else if vk == VK_ESCAPE {
        Some(TrackedKey::Escape)
    } else if vk == VK_SPACE {
        Some(TrackedKey::Space)
    } else {
        None
    }
}

/// The key table after one key event: relatched only on a true edge
/// (`was_down != is_down`) of a tracked key; a repeat-while-held event
/// leaves the table untouched.
pub open spec fn spec_apply_key_transition(
    table: KeyTable,
    vk: u16,
    was_down: bool,
    is_down: bool,
) -> KeyTable {
    if was_down != is_down {
        match spec_tracked_key(vk) {
            Some(key) => table.spec_set(key, is_down),
            None => table,
        }
    } else {
        table
    }
}

/// Apply one key event to the latched table.
///
/// The returned flag reports whether the event was a true edge; only
/// then is the table relatched, so a repeat-while-held event records
/// nothing.
pub fn apply_key_transition(table: &mut KeyTable, vk: u16, was_down: bool, is_down: bool) -> (edge:
    bool)
    ensures
        edge == (was_down != is_down),
        *final(table) == spec_apply_key_transition(*old(table), vk, was_down, is_down),
{
    if was_down != is_down {
        match tracked_key(vk) {
            Some(key) => table.set(key, is_down),
            None => (),
        }
        true
    } else {
        false
    }
}

/// The controller driver capability, resolved once at startup and
/// never re-branched on: the preferred driver library, the older
/// fallback library, or the always-disconnected stub when neither
/// could be loaded.
#[derive(Clone, Copy, PartialEq, Eq, Structural, Debug)]
pub enum ControllerDriver {
    Preferred,
    Fallback,
    Stub,
}

/// Which driver the startup probe selects: the preferred library when
/// it loaded, else the fallback when that loaded, else the stub.
pub open spec fn spec_select_controller_driver(
    preferred_loaded: bool,
    fallback_loaded: bool,
) -> ControllerDriver {
    if preferred_loaded {
        ControllerDriver::Preferred
    } else if fallback_loaded {
        ControllerDriver::Fallback
    } else {
        ControllerDriver::Stub
    }
}

/// Select the controller driver from the two library-load outcomes.
/// Absence of both degrades to the stub — a configuration outcome,
/// never a crash.
pub fn select_controller_driver(preferred_loaded: bool, fallback_loaded: bool) -> (driver:
    ControllerDriver)
    ensures
        driver == spec_select_controller_driver(preferred_loaded, fallback_loaded),
{
    if preferred_loaded {
        ControllerDriver::Preferred
    } else if fallback_loaded {
        ControllerDriver::Fallback
    } else {
        ControllerDriver::Stub
    }
}

/// One polled controller slot: either no device, or the device's
/// current stick deflection and button mask.
#[derive(Clone, Copy, PartialEq, Eq, Structural, Debug)]
pub enum ControllerSample {
    Disconnected,
    Connected { stick_x: i16, stick_y: i16, buttons: u16 },
}

/// The sample one slot's poll outcome stands for: connected exactly
/// when the poll reported success.
pub open spec fn spec_classify_poll(
    status: u32,
    stick_x: i16,
    stick_y: i16,
    buttons: u16,
) -> ControllerSample {
    if status == CONTROLLER_STATUS_SUCCESS {
        ControllerSample::Connected { stick_x, stick_y, buttons }
    } else {
        ControllerSample::Disconnected
    }
}

/// Turn one slot's poll outcome into a sample. Any failure status —
/// a never-loaded driver's stub included — reads as a disconnected
/// slot, which is a configuration outcome, not a fault.
pub fn classify_poll(status: u32, stick_x: i16, stick_y: i16, buttons: u16) -> (sample:
    ControllerSample)
    ensures
        sample == spec_classify_poll(status, stick_x, stick_y, buttons),
{
    if status == CONTROLLER_STATUS_SUCCESS {
        ControllerSample::Connected { stick_x, stick_y, buttons }
    } else {
        ControllerSample::Disconnected
    }
}

/// The samples an absent controller driver yields: every slot
/// permanently disconnected.
pub fn stub_samples(slots: usize) -> (samples: Vec<ControllerSample>)
    ensures
        samples@.len() == slots,
        forall|i: int| 0 <= i < slots ==> samples@[i] == ControllerSample::Disconnected,
{
    let mut samples: Vec<ControllerSample> = Vec::new();
    let mut i: usize = 0;
    while i < slots
        invariant
            i <= slots,
            samples@.len() == i,
            forall|j: int| 0 <= j < i ==> samples@[j] == ControllerSample::Disconnected,
        decreases slots - i,
    {
        samples.push(ControllerSample::Disconnected);
        i = i + 1;
    }
    samples
}

/// The x-accumulator step one sample contributes: the stick deflection
/// arithmetically shifted right by 12 bits, that is, divided by 4096
/// rounding toward negative infinity; a disconnected slot contributes
/// nothing.
pub open spec fn sample_dx(sample: ControllerSample) -> int {
    match sample {
        ControllerSample::Disconnected => 0,
        ControllerSample::Connected { stick_x, .. } => stick_x as int / 4096,
    }
}

/// The y-accumulator step one sample contributes.
pub open spec fn sample_dy(sample: ControllerSample) -> int {
    match sample {
        ControllerSample::Disconnected => 0,
        ControllerSample::Connected { stick_y, .. } => stick_y as int / 4096,
    }
}

/// Total x drift of one frame's samples.
pub open spec fn sticks_dx(samples: Seq<ControllerSample>) -> int
    decreases samples.len(),
{
    if samples.len() == 0 {
        0
    } else {
        sticks_dx(samples.drop_last()) + sample_dx(samples.last())
    }
}

/// Total y drift of one frame's samples.
pub open spec fn sticks_dy(samples: Seq<ControllerSample>) -> int
    decreases samples.len(),
{
    if samples.len() == 0 {
        0
    } else {
        sticks_dy(samples.drop_last()) + sample_dy(samples.last())
    }
}

/// Each sample's step lies in the shift's range: -8 through 7.
pub proof fn lemma_sample_step_bounds(sample: ControllerSample)
    ensures
        -8 <= sample_dx(sample) <= 7,
        -8 <= sample_dy(sample) <= 7,
{
    match sample {
        ControllerSample::Disconnected => {},
        ControllerSample::Connected { stick_x, stick_y, .. } => {
            lemma_shift_is_floor_division(stick_x as int);
            lemma_shift_is_floor_division(stick_y as int);
        },
    }
}

/// A frame's total drift is bounded by 8 steps per slot either way.
pub proof fn lemma_sticks_bounds(samples: Seq<ControllerSample>)
    ensures
        -8 * samples.len() <= sticks_dx(samples) <= 7 * samples.len(),
        -8 * samples.len() <= sticks_dy(samples) <= 7 * samples.len(),
    decreases samples.len(),
{
    if samples.len() > 0 {
        lemma_sticks_bounds(samples.drop_last());
        lemma_sample_step_bounds(samples.last());
    }
}

/// A frame whose slots are all disconnected drifts the accumulator by
/// nothing at all.
pub proof fn lemma_disconnected_sticks_are_still(samples: Seq<ControllerSample>)
    requires
        forall|i: int| 0 <= i < samples.len() ==> samples[i] == ControllerSample::Disconnected,
    ensures
        sticks_dx(samples) == 0,
        sticks_dy(samples) == 0,
    decreases samples.len(),
{
    if samples.len() > 0 {
        lemma_disconnected_sticks_are_still(samples.drop_last());
    }
}

/// Division by 4096 rounding toward negative infinity lands in -8..=7
/// for every 16-bit deflection.
proof fn lemma_shift_is_floor_division(v: int)
    requires
        i16::MIN <= v <= i16::MAX,
    ensures
        -8 <= v / 4096 <= 7,
{
    lemma_fundamental_div_mod(v, 4096);
    let q = v / 4096;
    assert(-8 <= q <= 7) by (nonlinear_arith)
        requires
            v == 4096 * q + v % 4096,
            0 <= v % 4096 < 4096,
            -0x8000 <= v <= 0x7fff,
    ;
}

/// One axis step: the deflection divided by 4096, rounding toward
/// negative infinity — exactly the arithmetic right shift by 12 bits
/// the accumulation is specified with (16384 steps by 4, -16384 by -4).
pub fn stick_step(deflection: i16) -> (step: i32)
    ensures
        step as int == deflection as int / 4096,
        -8 <= step <= 7,
{
    let biased: u32 = (deflection as i32 + 0x8000) as u32;
    let quotient: i32 = (biased / 4096) as i32;
    proof {
        lemma_fundamental_div_mod(deflection as int, 4096);
        lemma_shift_is_floor_division(deflection as int);
        assert(biased as int == 4096 * (deflection as int / 4096 + 8) + deflection as int % 4096)
            by (nonlinear_arith)
            requires
                deflection as int == 4096 * (deflection as int / 4096) + deflection as int % 4096,
                biased as int == deflection as int + 0x8000,
        ;
        lemma_fundamental_div_mod_converse(
            biased as int,
            4096,
            deflection as int / 4096 + 8,
            deflection as int % 4096,
        );
    }
    quotient - 8
}

/// Fold one frame's controller samples into the shared 2D accumulator,
/// skipping disconnected slots.
///
/// The bounds keep every intermediate sum inside the accumulator's
/// 32-bit range: each sampled slot drifts an axis by at most 8 either
/// way.
pub fn accumulate_sticks(
    x_offset: &mut i32,
    y_offset: &mut i32,
    samples: &Vec<ControllerSample>,
)
    requires
        i32::MIN + 8 * samples@.len() <= *old(x_offset),
        *old(x_offset) + 8 * samples@.len() <= i32::MAX,
        i32::MIN + 8 * samples@.len() <= *old(y_offset),
        *old(y_offset) + 8 * samples@.len() <= i32::MAX,
    ensures
        *final(x_offset) == *old(x_offset) + sticks_dx(samples@),
        *final(y_offset) == *old(y_offset) + sticks_dy(samples@),
{
    let len = samples.len();
    let mut i: usize = 0;
    while i < len
        invariant
            i <= len,
            len == samples@.len(),
            *x_offset == *old(x_offset) + sticks_dx(samples@.take(i as int)),
            *y_offset == *old(y_offset) + sticks_dy(samples@.take(i as int)),
            i32::MIN + 8 * len <= *old(x_offset),
            *old(x_offset) + 8 * len <= i32::MAX,
            i32::MIN + 8 * len <= *old(y_offset),
            *old(y_offset) + 8 * len <= i32::MAX,
        decreases len - i,
    {
        proof {
            lemma_sticks_bounds(samples@.take(i as int));
            lemma_sample_step_bounds(samples@[i as int]);
            assert(samples@.take(i as int + 1).drop_last() =~= samples@.take(i as int));
            assert(samples@.take(i as int + 1).last() == samples@[i as int]);
        }
        match samples[i] {
            ControllerSample::Disconnected => (),
            ControllerSample::Connected { stick_x, stick_y, .. } => {
                let dx = stick_step(stick_x);
                let dy = stick_step(stick_y);
                *x_offset = *x_offset + dx;
                *y_offset = *y_offset + dy;
            },
        }
        i = i + 1;
    }
    proof {
        assert(samples@.take(len as int) =~= samples@);
    }
}

} // verus!
