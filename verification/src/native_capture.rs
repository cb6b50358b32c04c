//! The arithmetic of native desktop recording: the captured area, the
//! frame buffer size, frame timing and the media type fields, and the
//! single-worker state of the recorder. The GDI capture and the encoder are
//! platform code run by the caller.

use crate::platform::TargetOs;
use vstd::prelude::*;
use vstd::string::*;

verus! {

/// The virtual desktop with odd extents rounded down to even ones, which
/// the H.264 encoder needs; refused when an extent is not positive.
pub open spec fn desktop_rect_spec(x: i32, y: i32, width: i32, height: i32) -> Option<(i32, i32, i32, i32)> {
    let w = width & !1i32;
    let h = height & !1i32;
    if w <= 0 || h <= 0 {
        None
    } else {
        Some((x, y, w, h))
    }
}

pub fn desktop_rect(x: i32, y: i32, width: i32, height: i32) -> (r: Result<(i32, i32, i32, i32), String>)
    ensures
        match desktop_rect_spec(x, y, width, height) {
            Some(t) => r == Ok::<(i32, i32, i32, i32), String>(t),
            None => r matches Err(e) && e@ == "Windows returned an invalid virtual desktop size"@,
        },
{
    let w = width & !1i32;
    let h = height & !1i32;
    if w <= 0 || h <= 0 {
        return Err(String::from_str("Windows returned an invalid virtual desktop size"));
    }
    Ok((x, y, w, h))
}

/// The size in bytes of one 32-bit frame of the given extents, or the
/// reason it cannot be held in memory.
pub open spec fn frame_bytes_spec(width: i32, height: i32) -> Result<int, Seq<char>> {
    if width < 0 || height < 0 || width * height > usize::MAX {
        Err("screen dimensions overflowed"@)
    } else if width * height * 4 > usize::MAX {
        Err("screen buffer size overflowed"@)
    } else {
        Ok(width * height * 4)
    }
}

pub fn frame_bytes(width: i32, height: i32) -> (r: Result<usize, String>)
    ensures
        match frame_bytes_spec(width, height) {
            Ok(n) => r matches Ok(m) && m == n,
            Err(e) => r matches Err(m) && m@ == e,
        },
{
    if width < 0 || height < 0 {
        return Err(String::from_str("screen dimensions overflowed"));
    }
    let w = width as usize;
    let h = height as usize;
    let pixels = match w.checked_mul(h) {
        Some(p) => p,
        None => {
            return Err(String::from_str("screen dimensions overflowed"));
        },
    };
    match pixels.checked_mul(4) {
        Some(b) => Ok(b),
        None => Err(String::from_str("screen buffer size overflowed")),
    }
}

/// The recording's frame rate, kept within 1..=60.
pub fn recording_fps(fps: u32) -> (r: u32)
    ensures
        r == if fps < 1 {
            1
        } else if fps > 60 {
            60
        } else {
            fps
        },
{
    if fps < 1 {
        1
    } else if fps > 60 {
        60
    } else {
        fps
    }
}

/// The duration of one frame in 100-nanosecond units.
pub fn frame_duration(fps: u32) -> (r: i64)
    requires
        fps >= 1,
    ensures
        r == 10_000_000int / (fps as int),
{
    10_000_000i64 / (fps as i64)
}

/// The time between captures in microseconds.
pub fn frame_interval_micros(fps: u32) -> (r: u64)
    requires
        fps >= 1,
    ensures
        r == 1_000_000int / (fps as int),
{
    1_000_000u64 / (fps as u64)
}

/// The presentation time of a frame: the frame index times the frame
/// duration, saturating at the bounds of `i64`, or `None` when the frame
/// index itself does not fit an `i64`.
pub fn sample_time(frame_index: u64, duration: i64) -> (r: Option<i64>)
    ensures
        frame_index > i64::MAX ==> r is None,
        frame_index <= i64::MAX ==> r == Some(
            if frame_index * duration > i64::MAX {
                i64::MAX
            } else if frame_index * duration < i64::MIN {
                i64::MIN
            } else {
                (frame_index * duration) as i64
            },
        ),
{
    if frame_index > i64::MAX as u64 {
        return None;
    }
    let a: i128 = frame_index as i128;
    let b: i128 = duration as i128;
    assert(-0x8000_0000_0000_0000 * 0x7fff_ffff_ffff_ffff <= a * b <= 0x7fff_ffff_ffff_ffff
        * 0x7fff_ffff_ffff_ffff) by (nonlinear_arith)
        requires
            0 <= a <= 0x7fff_ffff_ffff_ffff,
            -0x8000_0000_0000_0000 <= b <= 0x7fff_ffff_ffff_ffff,
    ;
    let p: i128 = a * b;
    if p > i64::MAX as i128 {
        Some(i64::MAX)
    } else if p < i64::MIN as i128 {
        Some(i64::MIN)
    } else {
        Some(p as i64)
    }
}

/// The packed frame size attribute: width in the high half, height in the
/// low half, a negative extent counting as 0.
pub fn frame_size_attribute(width: i32, height: i32) -> (r: u64)
    ensures
        r == ((if width < 0 { 0u64 } else { width as u64 }) << 32u64) | (if height < 0 {
            0u64
        } else {
            height as u64
        }),
{
    let w: u64 = if width < 0 {
        0
    } else {
        width as u64
    };
    let h: u64 = if height < 0 {
        0
    } else {
        height as u64
    };
    (w << 32u64) | h
}

/// The packed frame rate attribute: frames per second over 1.
pub fn frame_rate_attribute(fps: u32) -> (r: u64)
    ensures
        r == ((fps as u64) << 32u64) | 1u64,
{
    ((fps as u64) << 32u64) | 1u64
}

pub open spec fn windows_only_message() -> Seq<char> {
    "native MP4 desktop recording is currently implemented for Windows only"@
}

/// The recorder's single worker: at most one runs at a time.
pub struct NativeRecorder {
    os: TargetOs,
    active: bool,
}

impl NativeRecorder {
    pub closed spec fn active_spec(&self) -> bool {
        self.active
    }

    pub closed spec fn os_spec(&self) -> TargetOs {
        self.os
    }

    pub fn new(os: TargetOs) -> (r: Self)
        ensures
            !r.active_spec(),
            r.os_spec() == os,
    {
        NativeRecorder { os, active: false }
    }

    /// Claim the worker for a new recording; the caller then starts it.
    pub fn start(&mut self) -> (r: Result<(), String>)
        ensures
            final(self).os_spec() == old(self).os_spec(),
            old(self).os_spec() != TargetOs::Windows ==> (r matches Err(e) && e@ == windows_only_message())
                && final(self).active_spec() == old(self).active_spec(),
            old(self).os_spec() == TargetOs::Windows && old(self).active_spec() ==> (r matches Err(e)
                && e@ == "native screen recording is already active"@) && final(self).active_spec(),
            old(self).os_spec() == TargetOs::Windows && !old(self).active_spec() ==> r is Ok
                && final(self).active_spec(),
    {
        if self.os != TargetOs::Windows {
            return Err(String::from_str("native MP4 desktop recording is currently implemented for Windows only"));
        }
        if self.active {
            return Err(String::from_str("native screen recording is already active"));
        }
        self.active = true;
        Ok(())
    }

    /// The worker could not be started after all.
    pub fn start_failed(&mut self)
        ensures
            !final(self).active_spec(),
            final(self).os_spec() == old(self).os_spec(),
    {
        self.active = false;
    }

    /// Release the worker; the caller stops and joins it.
    pub fn stop(&mut self) -> (r: Result<(), String>)
        ensures
            final(self).os_spec() == old(self).os_spec(),
            !final(self).active_spec(),
            old(self).os_spec() != TargetOs::Windows ==> (r matches Err(e) && e@ == windows_only_message()),
            old(self).os_spec() == TargetOs::Windows && !old(self).active_spec() ==> (r matches Err(e)
                && e@ == "native screen recording is not active"@),
            old(self).os_spec() == TargetOs::Windows && old(self).active_spec() ==> r is Ok,
    {
        if self.os != TargetOs::Windows {
            self.active = false;
            return Err(String::from_str("native MP4 desktop recording is currently implemented for Windows only"));
        }
        if !self.active {
            return Err(String::from_str("native screen recording is not active"));
        }
        self.active = false;
        Ok(())
    }
}

} // verus!
