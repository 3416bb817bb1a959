//! The pulse over the whole desktop, and the sound, when a task is done or
//! failed.

use vstd::prelude::*;

use crate::paths::{in_folder, join_path, PathStyle};
use crate::text::opt;

verus! {

/// Why the desktop pulses.
#[derive(Clone, Copy, Debug, PartialEq, Eq, Structural)]
pub enum OverlayKind {
    Success,
    RetryError,
}

/// Whether the pulse of a success is going on.
#[derive(Clone, Copy, Debug, PartialEq, Eq, Structural)]
pub struct OverlayState {
    pub success_active: bool,
}

/// A task is done; gives the pulse to begin, unless it is going on.
pub fn show_completion_overlay(state: &mut OverlayState) -> (r: Option<OverlayKind>)
    ensures
        final(state).success_active,
        r == (if old(state).success_active {
            None
        } else {
            Some(OverlayKind::Success)
        }),
{
    let going_on = state.success_active;
    state.success_active = true;
    if going_on {
        None
    } else {
        Some(OverlayKind::Success)
    }
}

/// The user has seen it: the pulse of a success ends.
pub fn stop_completion_overlay(state: &mut OverlayState)
    ensures
        !final(state).success_active,
{
    state.success_active = false;
}

/// An error led to a retry: one pulse for each, also when they come fast.
pub fn show_retry_error_overlay() -> (r: OverlayKind)
    ensures
        r == OverlayKind::RetryError,
{
    OverlayKind::RetryError
}

/// The opacity of the overlay for a while.
#[derive(Clone, Copy, Debug, PartialEq, Eq, Structural)]
pub struct Frame {
    /// The opacity, or nothing where it stays as it is.
    pub alpha: Option<u8>,
    pub millis: u64,
}

/// The opacities of one pulse.
pub open spec fn alphas(kind: OverlayKind) -> Seq<u8> {
    match kind {
        OverlayKind::Success => seq![24, 55, 95, 140, 180, 215, 185, 145, 100, 60, 28, 0],
        OverlayKind::RetryError => seq![35, 85, 150, 225, 175, 105, 45, 0],
    }
}

/// How long each opacity of a pulse stays.
pub open spec fn frame_millis(kind: OverlayKind) -> u64 {
    match kind {
        OverlayKind::Success => 115,
        OverlayKind::RetryError => 75,
    }
}

/// How long nothing changes after a pulse.
pub open spec fn rest_millis(kind: OverlayKind) -> u64 {
    match kind {
        OverlayKind::Success => 140,
        OverlayKind::RetryError => 90,
    }
}

fn pulse_alphas(kind: OverlayKind) -> (r: Vec<u8>)
    ensures
        r@ == alphas(kind),
{
    let mut out: Vec<u8> = Vec::new();
    match kind {
        OverlayKind::Success => {
            out.push(24);
            out.push(55);
            out.push(95);
            out.push(140);
            out.push(180);
            out.push(215);
            out.push(185);
            out.push(145);
            out.push(100);
            out.push(60);
            out.push(28);
            out.push(0);
        },
        OverlayKind::RetryError => {
            out.push(35);
            out.push(85);
            out.push(150);
            out.push(225);
            out.push(175);
            out.push(105);
            out.push(45);
            out.push(0);
        },
    }
    assert(out@ =~= alphas(kind));
    out
}

/// One pulse and the rest after it.
pub open spec fn pulse(kind: OverlayKind) -> Seq<Frame> {
    Seq::new(
        alphas(kind).len(),
        |i: int| Frame { alpha: Some(alphas(kind)[i]), millis: frame_millis(kind) },
    ).push(Frame { alpha: None, millis: rest_millis(kind) })
}

/// The frames of one pulse and the rest after it.
pub fn pulse_frames(kind: OverlayKind) -> (r: Vec<Frame>)
    ensures
        r@ == pulse(kind),
{
    let values = pulse_alphas(kind);
    let millis: u64 = match kind {
        OverlayKind::Success => 115,
        OverlayKind::RetryError => 75,
    };
    let mut out: Vec<Frame> = Vec::new();
    let mut i: usize = 0;
    while i < values.len()
        invariant
            i <= values@.len(),
            values@ == alphas(kind),
            millis == frame_millis(kind),
            out@.len() == i,
            forall|k: int|
                0 <= k < i ==> out@[k] == (Frame { alpha: Some(alphas(kind)[k]), millis }),
        decreases values.len() - i,
    {
        out.push(Frame { alpha: Some(values[i]), millis });
        i = i + 1;
    }
    let rest: u64 = match kind {
        OverlayKind::Success => 140,
        OverlayKind::RetryError => 90,
    };
    out.push(Frame { alpha: None, millis: rest });
    assert(out@ =~= pulse(kind));
    out
}

/// How many pulses follow one another; without a number the pulses go on until
/// they are stopped.
pub fn pulse_count(kind: OverlayKind) -> (r: Option<usize>)
    ensures
        r == (match kind {
            OverlayKind::Success => None::<usize>,
            OverlayKind::RetryError => Some(2usize),
        }),
{
    match kind {
        OverlayKind::Success => None,
        OverlayKind::RetryError => Some(2),
    }
}

/// Whether the rest after a pulse is kept: not after the last one.
pub fn keeps_rest(kind: OverlayKind, pulse_index: usize, still_active: bool) -> (r: bool)
    ensures
        r == (match kind {
            OverlayKind::Success => still_active,
            OverlayKind::RetryError => pulse_index == 0,
        }),
{
    match kind {
        OverlayKind::Success => still_active,
        OverlayKind::RetryError => pulse_index == 0,
    }
}

/// The place of the overlay: the whole desktop, where it has an area.
pub fn desktop_bounds(x: i32, y: i32, width: i32, height: i32) -> (r: Option<(i32, i32, i32, i32)>)
    ensures
        r == (if width > 0 && height > 0 {
            Some((x, y, width, height))
        } else {
            None
        }),
{
    if width > 0 && height > 0 {
        Some((x, y, width, height))
    } else {
        None
    }
}

/// How long to sleep before messages are looked at again, while waiting.
pub fn wait_slice(remaining_millis: u64) -> (r: u64)
    ensures
        r == (if remaining_millis < 16 {
            remaining_millis
        } else {
            16
        }),
{
    if remaining_millis < 16 {
        remaining_millis
    } else {
        16
    }
}

/// One part of the sound that announces a finished task.
#[derive(Clone, Copy, Debug, PartialEq, Eq, Structural)]
pub enum SoundStep {
    /// Play a file of the media directory; a success ends the sequence.
    Alarm,
    /// Play the first file, else the sound of the system.
    First,
    /// Wait a quarter of a second.
    Pause,
    /// Play the second file, else the sound of the system.
    Second,
    /// The sequence is over.
    Done,
}

/// What follows a part of the sound.
pub fn next_sound(step: SoundStep, played: bool) -> (r: SoundStep)
    ensures
        r == (match step {
            SoundStep::Alarm => if played {
                SoundStep::Done
            } else {
                SoundStep::First
            },
            SoundStep::First => SoundStep::Pause,
            SoundStep::Pause => SoundStep::Second,
            SoundStep::Second => SoundStep::Done,
            SoundStep::Done => SoundStep::Done,
        }),
{
    match step {
        SoundStep::Alarm => {
            if played {
                SoundStep::Done
            } else {
                SoundStep::First
            }
        },
        SoundStep::First => SoundStep::Pause,
        SoundStep::Pause => SoundStep::Second,
        SoundStep::Second => SoundStep::Done,
        SoundStep::Done => SoundStep::Done,
    }
}

/// The file of a part of the sound.
pub fn sound_file(step: SoundStep) -> (r: Option<&'static str>)
    ensures
        opt(r) == (match step {
            SoundStep::Alarm => Some("Alarm01.wav"@),
            SoundStep::First => Some("Windows Notify Calendar.wav"@),
            SoundStep::Second => Some("Windows Notify System Generic.wav"@),
            _ => None,
        }),
{
    match step {
        SoundStep::Alarm => Some("Alarm01.wav"),
        SoundStep::First => Some("Windows Notify Calendar.wav"),
        SoundStep::Second => Some("Windows Notify System Generic.wav"),
        _ => None,
    }
}

/// The directory of media under the directory of Windows.
pub fn media_directory(windir: &Option<String>, system_root: &Option<String>) -> (r: Option<String>)
    ensures
        opt(r) == (match (opt(*windir), opt(*system_root)) {
            (Some(root), _) => Some(in_folder(root, "Media"@, PathStyle::Windows)),
            (None, Some(root)) => Some(in_folder(root, "Media"@, PathStyle::Windows)),
            (None, None) => None,
        }),
{
    match (windir, system_root) {
        (Some(root), _) => Some(join_path(root.as_str(), "Media", PathStyle::Windows)),
        (None, Some(root)) => Some(join_path(root.as_str(), "Media", PathStyle::Windows)),
        (None, None) => None,
    }
}

} // verus!
