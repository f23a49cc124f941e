//! The decisions of a capture session. The caller runs the loop: it asks
//! whether to capture, hands over each image, paces with the clock, and
//! reports how late each tick ran.
use vstd::prelude::*;
use crate::fps::{interval_in, FpsClock, TimeUnit};
use crate::image::{CapturedFrame, Image};

verus! {

/// What the capture loop does next.
#[derive(Clone, Copy, Debug, PartialEq, Eq, Structural)]
pub enum CaptureAction {
    /// Capture one image, then tick the clock.
    Capture,
    /// Leave the loop and finish the session.
    Stop,
}

/// Where a session stands.
#[derive(Clone, Copy, Debug, PartialEq, Eq, Structural)]
pub enum SessionState {
    Running,
    Cancelled,
    Failed,
}

/// Why a session ended with a failure.
#[derive(Clone, Copy, Debug, PartialEq, Eq, Structural)]
pub enum CaptureError {
    /// The image provider had no image to give.
    NoImage,
}

/// The largest delay a GIF frame can carry.
pub open spec fn delay_limit() -> int {
    65535
}

/// The delay of the next frame, in hundredths of a second: one frame period
/// less the lateness of the previous tick rounded to the nearest
/// millisecond (halves up), never
/// below zero.
pub open spec fn capture_delay(fps: nat, deviation: Option<i64>) -> int {
    let late_us: int = match deviation {
        Some(d) => if d >= 0 {
            (d + 500_000) / 1_000_000 * 1000
        } else {
            0
        },
        None => 0,
    };
    let span: int = interval_in(fps, TimeUnit::Microsecond) - late_us;
    if span <= 0 {
        0
    } else if span / 10_000 > delay_limit() {
        delay_limit()
    } else {
        span / 10_000
    }
}

/// What a finished session hands back: its frames, and whether it was
/// cancelled or failed.
pub struct RecordResult {
    pub frames: Vec<CapturedFrame>,
    pub cancelled: bool,
    pub error: Option<CaptureError>,
}

/// A single-use capture session paced by an [`FpsClock`].
pub struct Recorder {
    clock: FpsClock,
    frames: Vec<CapturedFrame>,
    deviation: Option<i64>,
    state: SessionState,
}

impl Recorder {
    pub closed spec fn spec_clock(&self) -> FpsClock {
        self.clock
    }

    /// The frames captured so far.
    pub closed spec fn spec_frames(&self) -> Seq<CapturedFrame> {
        self.frames@
    }

    /// How late the last tick ran, in nanoseconds, if there was one.
    pub closed spec fn spec_deviation(&self) -> Option<i64> {
        self.deviation
    }

    pub closed spec fn spec_state(&self) -> SessionState {
        self.state
    }

    pub open spec fn wf(&self) -> bool {
        self.spec_clock().wf()
    }

    /// A new session with no frames yet.
    pub fn new(clock: FpsClock) -> (r: Self)
        requires
            clock.wf(),
        ensures
            r.wf(),
            r.spec_clock() == clock,
            r.spec_frames() == Seq::<CapturedFrame>::empty(),
            r.spec_deviation() == None::<i64>,
            r.spec_state() == SessionState::Running,
    {
        Recorder { clock, frames: Vec::new(), deviation: None, state: SessionState::Running }
    }

    /// The state of the session.
    pub fn state(&self) -> (r: SessionState)
        ensures
            r == self.spec_state(),
    {
        self.state
    }

    /// Number of frames captured so far.
    pub fn frame_count(&self) -> (r: usize)
        ensures
            r == self.spec_frames().len(),
    {
        self.frames.len()
    }

    /// Decides the next step at the start of a loop iteration. A pending
    /// cancellation stops the session at once, before any further capture,
    /// keeping the frames collected so far.
    pub fn poll(&mut self, cancel_requested: bool) -> (r: CaptureAction)
        ensures
            final(self).spec_clock() == old(self).spec_clock(),
            final(self).spec_frames() == old(self).spec_frames(),
            final(self).spec_deviation() == old(self).spec_deviation(),
            old(self).spec_state() != SessionState::Running ==> r == CaptureAction::Stop
                && final(self).spec_state() == old(self).spec_state(),
            old(self).spec_state() == SessionState::Running && cancel_requested ==> r
                == CaptureAction::Stop && final(self).spec_state() == SessionState::Cancelled,
            old(self).spec_state() == SessionState::Running && !cancel_requested ==> r
                == CaptureAction::Capture && final(self).spec_state() == SessionState::Running,
    {
        if self.state != SessionState::Running {
            CaptureAction::Stop
        } else if cancel_requested {
            self.state = SessionState::Cancelled;
            CaptureAction::Stop
        } else {
            CaptureAction::Capture
        }
    }

    /// The delay the next captured frame gets.
    pub fn next_delay(&self) -> (r: u16)
        requires
            self.wf(),
        ensures
            r == capture_delay(self.spec_clock().rate(), self.spec_deviation()),
    {
        let interval_us = self.clock.target_interval(TimeUnit::Microsecond);
        let late_us: u64 = match self.deviation {
            Some(d) => if d >= 0 {
                let du = d as u64;
                assert((du + 500_000) / 1_000_000 * 1000 <= u64::MAX) by (nonlinear_arith)
                    requires
                        du <= i64::MAX,
                ;
                (du + 500_000) / 1_000_000 * 1000
            } else {
                0
            },
            None => 0,
        };
        if interval_us <= late_us {
            0
        } else if (interval_us - late_us) / 10_000 > 65535 {
            65535
        } else {
            ((interval_us - late_us) / 10_000) as u16
        }
    }

    /// Takes the provider's answer for this iteration. An image becomes the
    /// next frame, with the delay of [`Self::next_delay`]; no image ends the
    /// session with a failure and keeps the frames collected so far.
    pub fn push_image(&mut self, image: Option<Image>) -> (r: Result<(), CaptureError>)
        requires
            old(self).wf(),
            old(self).spec_state() == SessionState::Running,
        ensures
            final(self).spec_clock() == old(self).spec_clock(),
            final(self).spec_deviation() == old(self).spec_deviation(),
            image is None ==> r == Err::<(), CaptureError>(CaptureError::NoImage)
                && final(self).spec_state() == SessionState::Failed
                && final(self).spec_frames() == old(self).spec_frames(),
            image matches Some(img) ==> r == Ok::<(), CaptureError>(())
                && final(self).spec_state() == SessionState::Running
                && final(self).spec_frames() == old(self).spec_frames().push(
                (CapturedFrame {
                    image: img,
                    delay: capture_delay(old(self).spec_clock().rate(), old(self).spec_deviation()) as u16,
                }),
            ),
    {
        match image {
            None => {
                self.state = SessionState::Failed;
                Err(CaptureError::NoImage)
            },
            Some(img) => {
                let delay = self.next_delay();
                self.frames.push(CapturedFrame::new(img, delay));
                Ok(())
            },
        }
    }

    /// Records how late the tick that followed the last capture ran, as
    /// returned by [`FpsClock::deviation`].
    pub fn ticked(&mut self, deviation_ns: i64)
        ensures
            final(self).spec_clock() == old(self).spec_clock(),
            final(self).spec_frames() == old(self).spec_frames(),
            final(self).spec_state() == old(self).spec_state(),
            final(self).spec_deviation() == Some(deviation_ns),
    {
        self.deviation = Some(deviation_ns);
    }

    /// Ends the session and hands its frames to the caller.
    pub fn finish(self) -> (r: RecordResult)
        ensures
            r.frames@ == self.spec_frames(),
            r.cancelled <==> self.spec_state() == SessionState::Cancelled,
            r.error == (if self.spec_state() == SessionState::Failed {
                Some(CaptureError::NoImage)
            } else {
                None
            }),
    {
        let cancelled = self.state == SessionState::Cancelled;
        let error = if self.state == SessionState::Failed {
            Some(CaptureError::NoImage)
        } else {
            None
        };
        RecordResult { frames: self.frames, cancelled, error }
    }
}

} // verus!
