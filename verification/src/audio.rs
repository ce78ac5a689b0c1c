//! The best-effort audio handshake: the PCM format negotiated with the
//! platform's audio service, and the state machine that walks the
//! handshake's steps. Any step's failure parks the handshake in a
//! terminal unavailable state; the frame loop never blocks on or
//! depends on audio readiness, so failure degrades the feature and
//! never the process.

use vstd::prelude::*;

verus! {

/// Format tag for integer PCM samples.
pub const WAVE_FORMAT_TAG_PCM: u16 = 1;

/// A PCM wave format, as the audio service negotiates it.
#[derive(Clone, Copy, PartialEq, Eq, Structural, Debug)]
pub struct WaveFormat {
    pub format_tag: u16,
    pub channels: u16,
    pub samples_per_second: u32,
    pub bits_per_sample: u16,
    pub block_align: u16,
    pub avg_bytes_per_second: u32,
}

/// Build the host's playback format: stereo, 16-bit PCM at the given
/// sample rate, with the block alignment and byte rate that follow
/// from those choices.
pub fn pcm_stereo_format(samples_per_second: u32) -> (format: WaveFormat)
    requires
        samples_per_second * 4 <= u32::MAX,
    ensures
        format.format_tag == WAVE_FORMAT_TAG_PCM,
        format.channels == 2,
        format.bits_per_sample == 16,
        format.block_align == format.channels * format.bits_per_sample / 8,
        format.samples_per_second == samples_per_second,
        format.avg_bytes_per_second == samples_per_second * format.block_align,
{
    let channels: u16 = 2;
    let bits_per_sample: u16 = 16;
    let block_align: u16 = channels * bits_per_sample / 8;
    let avg_bytes_per_second: u32 = samples_per_second * (block_align as u32);
    WaveFormat {
        format_tag: WAVE_FORMAT_TAG_PCM,
        channels,
        samples_per_second,
        bits_per_sample,
        block_align,
        avg_bytes_per_second,
    }
}

/// How many bytes the secondary playback buffer holds: one second of
/// the negotiated format.
pub fn secondary_buffer_bytes(format: &WaveFormat) -> (bytes: u32)
    ensures
        bytes == format.avg_bytes_per_second,
{
    format.avg_bytes_per_second
}

/// Where the audio handshake stands. The five awaiting stages walk the
/// handshake's steps in order: acquire the service, set the
/// cooperative level, create the primary buffer, set its format,
/// create the secondary playback buffer.
#[derive(Clone, Copy, PartialEq, Eq, Structural, Debug)]
pub enum AudioHandshake {
    AwaitDevice,
    AwaitCooperativeLevel,
    AwaitPrimaryBuffer,
    AwaitPrimaryFormat,
    AwaitSecondaryBuffer,
    Ready,
    Unavailable,
}

/// The handshake after one step's outcome: success moves to the next
/// stage in order, any failure parks it in `Unavailable`, and the two
/// terminal stages never move again.
pub open spec fn spec_audio_advance(stage: AudioHandshake, step_ok: bool) -> AudioHandshake {
    match stage {
        AudioHandshake::AwaitDevice => if step_ok {
            AudioHandshake::AwaitCooperativeLevel
        } else {
            AudioHandshake::Unavailable
        },
        AudioHandshake::AwaitCooperativeLevel => if step_ok {
            AudioHandshake::AwaitPrimaryBuffer
        } else {
            AudioHandshake::Unavailable
        },
        AudioHandshake::AwaitPrimaryBuffer => if step_ok {
            AudioHandshake::AwaitPrimaryFormat
        } else {
            AudioHandshake::Unavailable
        },
        AudioHandshake::AwaitPrimaryFormat => if step_ok {
            AudioHandshake::AwaitSecondaryBuffer
        } else {
            AudioHandshake::Unavailable
        },
        AudioHandshake::AwaitSecondaryBuffer => if step_ok {
            AudioHandshake::Ready
        } else {
            AudioHandshake::Unavailable
        },
        AudioHandshake::Ready => AudioHandshake::Ready,
        AudioHandshake::Unavailable => AudioHandshake::Unavailable,
    }
}

/// Advance the handshake by one step's outcome.
pub fn audio_advance(stage: AudioHandshake, step_ok: bool) -> (next: AudioHandshake)
    ensures
        next == spec_audio_advance(stage, step_ok),
{
    match stage {
        AudioHandshake::AwaitDevice => if step_ok {
            AudioHandshake::AwaitCooperativeLevel
        } else {
            AudioHandshake::Unavailable
        },
        AudioHandshake::AwaitCooperativeLevel => if step_ok {
            AudioHandshake::AwaitPrimaryBuffer
        } else {
            AudioHandshake::Unavailable
        },
        AudioHandshake::AwaitPrimaryBuffer => if step_ok {
            AudioHandshake::AwaitPrimaryFormat
        } else {
            AudioHandshake::Unavailable
        },
        AudioHandshake::AwaitPrimaryFormat => if step_ok {
            AudioHandshake::AwaitSecondaryBuffer
        } else {
            AudioHandshake::Unavailable
        },
        AudioHandshake::AwaitSecondaryBuffer => if step_ok {
            AudioHandshake::Ready
        } else {
            AudioHandshake::Unavailable
        },
        AudioHandshake::Ready => AudioHandshake::Ready,
        AudioHandshake::Unavailable => AudioHandshake::Unavailable,
    }
}

/// The handshake after a whole run of step outcomes.
pub open spec fn spec_audio_run(stage: AudioHandshake, steps: Seq<bool>) -> AudioHandshake
    decreases steps.len(),
{
    if steps.len() == 0 {
        stage
    } else {
        spec_audio_run(spec_audio_advance(stage, steps[0]), steps.drop_first())
    }
}

/// Degrade-and-continue is permanent: once the handshake is
/// unavailable, no later outcome revives it, and once it is ready, no
/// later outcome unseats it.
pub proof fn lemma_audio_outcomes_are_terminal(stage: AudioHandshake, steps: Seq<bool>)
    ensures
        stage == AudioHandshake::Unavailable ==> spec_audio_run(stage, steps)
            == AudioHandshake::Unavailable,
        stage == AudioHandshake::Ready ==> spec_audio_run(stage, steps) == AudioHandshake::Ready,
    decreases steps.len(),
{
    if steps.len() > 0 {
        lemma_audio_outcomes_are_terminal(spec_audio_advance(stage, steps[0]), steps.drop_first());
    }
}

} // verus!
