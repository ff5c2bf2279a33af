//! The video capture session: a pacing timer that gates capture to the
//! configured frame rate, and a background worker fed by a channel of
//! (staging-buffer, copy-signal) pairs.
//!
//! The worker waits for each GPU copy to finish, has the driver encode the
//! frame with a monotonically increasing presentation timestamp, and
//! finalizes the encoder when the configured end frame is reached or the
//! channel is closed. Encoding and file handling are the driver's work; the
//! engine decides, counts and timestamps.

use vstd::prelude::*;

use super::buffers::{img_dims, img_raw, CapturedImage, ReadBackBuffer};
use super::command_queue::{fences_advance, Fences, Signal};

verus! {

/// One encoded video sample: its presentation timestamp and duration, in
/// 100-nanosecond units.
#[derive(Clone, Copy, PartialEq, Eq, Structural, Debug)]
pub struct Sample {
    pub time: u64,
    pub duration: u64,
}

/// The presentation timestamp of a frame: `frame * 10_000_000 / fps` in
/// 100-nanosecond units.
pub fn sample_time(frame: u64, fps: u32) -> (r: u64)
    requires
        fps >= 1,
        frame <= u64::MAX / 10_000_000,
    ensures
        r == frame * 10_000_000 / (fps as int),
{
    frame * 10_000_000 / (fps as u64)
}

/// The capture pacing timer: fires when a frame interval has elapsed since
/// it last fired, so capture runs at the configured rate however fast the
/// display refreshes. Times are microseconds on a monotonic clock the
/// driver reads.
#[derive(Clone, Copy, PartialEq, Eq, Structural, Debug)]
pub struct Timer {
    pub last: u64,
    pub per_frame: u64,
}

impl Timer {
    /// A timer for `fps` captures per second, last fired now.
    pub fn new(fps: u32, now: u64) -> (r: Timer)
        requires
            fps >= 1,
        ensures
            r.last == now,
            r.per_frame == 1_000_000 as u64 / (fps as u64),
    {
        Timer { last: now, per_frame: 1_000_000 / (fps as u64) }
    }

    /// Whether a frame interval has elapsed; if so the timer re-arms at
    /// `now`. The clock is monotonic: `now` is never before the last fire.
    pub fn signal(&mut self, now: u64) -> (r: bool)
        requires
            old(self).last <= now,
        ensures
            r == (now - old(self).last >= old(self).per_frame),
            final(self).per_frame == old(self).per_frame,
            final(self).last == if r {
                now
            } else {
                old(self).last
            },
    {
        if now - self.last >= self.per_frame {
            self.last = now;
            true
        } else {
            false
        }
    }
}

/// One capture request travelling down the channel: the staging buffer the
/// frame was copied into, the pool slot it came from, and the copy's
/// completion signal.
pub struct CaptureRequest {
    pub slot: usize,
    pub buffer: ReadBackBuffer,
    pub signal: Signal,
}

/// The background worker of one capture session: the channel of pending
/// capture requests, the frame counter, and the samples encoded so far.
pub struct Worker {
    /// Capture requests not yet encoded, oldest first.
    pub pending: Vec<CaptureRequest>,
    /// How many frames have been encoded.
    pub frame: u64,
    /// The session's capture rate.
    pub fps: u32,
    /// The frame count at which the session finalizes on its own.
    pub end_frame: Option<u64>,
    /// The samples encoded so far, in order.
    pub samples: Vec<Sample>,
    /// The request channel was closed: the session is stopping.
    pub closed: bool,
    /// The encoder was finalized; the worker has exited.
    pub done: bool,
}

/// The worker's invariant: one sample per encoded frame, each stamped
/// `i * 10_000_000 / fps`, the frame counter within the session's end, and
/// every pending signal on a registered fence. The frame counter stays
/// within a billion frames so timestamps cannot overflow.
pub open spec fn worker_wf(w: Worker, fences: Seq<u64>) -> bool {
    &&& w.fps >= 1
    &&& w.frame == w.samples@.len()
    &&& w.frame <= 1_000_000_000
    &&& (w.end_frame matches Some(e) ==> w.frame <= e && (w.frame == e ==> w.done))
    &&& forall|i: int|
        0 <= i < w.pending@.len() ==> (#[trigger] w.pending@[i]).signal.fence < fences.len()
            && w.pending@[i].buffer.wf()
    &&& forall|i: int|
        0 <= i < w.samples@.len() ==> (#[trigger] w.samples@[i]) == (Sample {
            time: (i * 10_000_000 / (w.fps as int)) as u64,
            duration: (10_000_000 as int / (w.fps as int)) as u64,
        })
}

/// What one worker step did.
pub enum StepAction {
    /// Nothing to do: no session, the worker already exited, or the channel
    /// is open but empty.
    Idle,
    /// One frame was converted and encoded. The staging buffer comes back
    /// with its pool slot for release; the image is what the driver encoded;
    /// `finished` says the session reached its end frame and finalized with
    /// this sample.
    Encoded {
        slot: usize,
        buffer: ReadBackBuffer,
        image: CapturedImage,
        sample: Sample,
        finished: bool,
    },
    /// The channel was closed and drained; the encoder finalized.
    Finalized,
    /// A request was left over after the session had already finalized; its
    /// copy was waited out and its staging buffer comes back, as the
    /// original's channel teardown returns queued pool elements.
    Drained { slot: usize, buffer: ReadBackBuffer },
    /// The driver's encoder call failed. A staging buffer comes back with
    /// its slot when the failure struck a frame; the driver deletes the
    /// partial output file.
    Failed { returned: Option<(usize, ReadBackBuffer)> },
}

/// The video capture pipeline: at most one active session.
pub struct Video {
    /// The active session's worker, kept until it has drained and exited.
    pub worker: Option<Worker>,
    /// The active session's pacing timer.
    pub timer: Option<Timer>,
}

/// The pipeline's invariant under a fence table.
pub open spec fn video_wf(v: Video, fences: Seq<u64>) -> bool {
    v.worker matches Some(w) ==> worker_wf(w, fences)
}

impl Video {
    /// A session is writing: it exists, is not stopping, and has not
    /// finalized.
    pub open spec fn spec_is_writing(self) -> bool {
        self.worker matches Some(w) && !w.closed && !w.done
    }

    /// No session yet.
    pub fn new() -> (r: Video)
        ensures
            r.worker is None,
            r.timer is None,
    {
        Video { worker: None, timer: None }
    }

    /// Whether a session is accepting frames.
    pub fn is_writing(&self) -> (r: bool)
        ensures
            r == self.spec_is_writing(),
    {
        match &self.worker {
            Some(w) => !w.closed && !w.done,
            None => false,
        }
    }

    /// Opens a session: the driver has created the encoder sink; the engine
    /// arms the pacing timer and a fresh worker. A session already running
    /// is replaced; its driver-side worker drains on its own.
    pub fn start(&mut self, fps: u32, end_frame: Option<u64>, now: u64)
        requires
            fps >= 1,
            end_frame matches Some(e) ==> e >= 1,
        ensures
            final(self).worker == Some(Worker {
                pending: final(self).worker.unwrap().pending,
                frame: 0u64,
                fps,
                end_frame,
                samples: final(self).worker.unwrap().samples,
                closed: false,
                done: false,
            }),
            final(self).worker.unwrap().pending@.len() == 0,
            final(self).worker.unwrap().samples@ == Seq::<Sample>::empty(),
            final(self).timer == Some(Timer { last: now, per_frame: 1_000_000 as u64 / (fps as u64) }),
    {
        self.worker = Some(Worker {
            pending: Vec::new(),
            frame: 0,
            fps,
            end_frame,
            samples: Vec::new(),
            closed: false,
            done: false,
        });
        self.timer = Some(Timer::new(fps, now));
    }

    /// Whether this display frame should be captured: a session is writing
    /// and the pacing timer fires. Frames the display outruns are dropped,
    /// not duplicated.
    pub fn signal(&mut self, now: u64) -> (r: bool)
        requires
            old(self).timer matches Some(t) ==> t.last <= now,
        ensures
            final(self).worker == old(self).worker,
            r == (old(self).spec_is_writing() && (old(self).timer matches Some(t) && now - t.last
                >= t.per_frame)),
            match (old(self).timer, final(self).timer) {
                (Some(t0), Some(t1)) => t1.per_frame == t0.per_frame && t1.last == if r {
                    now
                } else {
                    t0.last
                },
                (None, None) => true,
                _ => false,
            },
    {
        let writing = self.is_writing();
        if !writing {
            return false;
        }
        match &mut self.timer {
            Some(t) => t.signal(now),
            None => false,
        }
    }

    /// Hands a copied frame to the worker: the staging buffer, its pool
    /// slot, and the copy's completion signal go down the channel. The
    /// buffer comes straight back when no session is writing.
    pub fn write(&mut self, slot: usize, buffer: ReadBackBuffer, signal: Signal) -> (rejected: Option<ReadBackBuffer>)
        ensures
            final(self).timer == old(self).timer,
            if old(self).spec_is_writing() {
                &&& rejected is None
                &&& final(self).worker == Some(Worker {
                    pending: final(self).worker.unwrap().pending,
                    ..old(self).worker.unwrap()
                })
                &&& final(self).worker.unwrap().pending@ == old(
                self).worker.unwrap().pending@.push(CaptureRequest { slot, buffer, signal })
            } else {
                rejected == Some(buffer) && final(self).worker == old(self).worker
            },
    {
        let writing = self.is_writing();
        if writing {
            match &mut self.worker {
                Some(w) => {
                    w.pending.push(CaptureRequest { slot, buffer, signal });
                    None
                },
                None => Some(buffer),
            }
        } else {
            Some(buffer)
        }
    }

    /// One pass of the background worker loop. It takes the next pending
    /// request, waits for its copy signal, and has the driver encode the
    /// staged frame; `encode_ok` reports whether the driver's encoder call
    /// succeeded. Reaching the end frame, or draining a closed channel,
    /// finalizes the encoder and ends the worker; a failed encoder call ends
    /// the worker too, handing any staging buffer back, and the engine
    /// surfaces it as an encode failure while the driver deletes the partial
    /// output file.
    pub fn worker_step(&mut self, fences: &mut Fences, encode_ok: bool) -> (r: StepAction)
        requires
            video_wf(*old(self), old(fences)@),
            old(self).worker matches Some(w) ==> w.frame < 1_000_000_000,
        ensures
            video_wf(*final(self), final(fences)@),
            fences_advance(old(fences)@, final(fences)@),
            final(self).timer == old(self).timer,
            worker_step_rel(*old(self), *final(self), old(fences)@, final(fences)@, encode_ok, r),
    {
        match &mut self.worker {
            None => StepAction::Idle,
            Some(w) => {
                if w.done {
                    if w.pending.len() > 0 {
                        let req = w.pending.remove(0);
                        proof {
                            assert(w.pending@ =~= old(self).worker.unwrap().pending@.skip(1));
                            assert(old(self).worker.unwrap().pending@[0].signal.fence
                                < fences@.len());
                        }
                        req.signal.wait(fences);
                        StepAction::Drained { slot: req.slot, buffer: req.buffer }
                    } else {
                        StepAction::Idle
                    }
                } else if w.pending.len() > 0 {
                    let req = w.pending.remove(0);
                    proof {
                        assert(w.pending@ =~= old(self).worker.unwrap().pending@.skip(1));
                        assert(old(self).worker.unwrap().pending@[0].signal.fence
                            < fences@.len());
                        assert(old(self).worker.unwrap().pending@[0].buffer.wf());
                    }
                    req.signal.wait(fences);
                    if encode_ok {
                        let image = req.buffer.to_image();
                        let sample = Sample {
                            time: sample_time(w.frame, w.fps),
                            duration: 10_000_000 / (w.fps as u64),
                        };
                        w.samples.push(sample);
                        w.frame = w.frame + 1;
                        let finished = match w.end_frame {
                            Some(e) => w.frame >= e,
                            None => false,
                        };
                        if finished {
                            w.done = true;
                        }
                        StepAction::Encoded {
                            slot: req.slot,
                            buffer: req.buffer,
                            image,
                            sample,
                            finished,
                        }
                    } else {
                        w.done = true;
                        StepAction::Failed { returned: Some((req.slot, req.buffer)) }
                    }
                } else if w.closed {
                    w.done = true;
                    if encode_ok {
                        StepAction::Finalized
                    } else {
                        StepAction::Failed { returned: None }
                    }
                } else {
                    StepAction::Idle
                }
            },
        }
    }

    /// Closes the session's channel. The worker drains what is pending and
    /// then finalizes; the pacing timer is disarmed at once.
    pub fn stop(&mut self)
        ensures
            final(self).timer is None,
            match old(self).worker {
                Some(w) => final(self).worker == Some(Worker { closed: true, ..w }),
                None => final(self).worker is None,
            },
    {
        self.timer = None;
        match &mut self.worker {
            Some(w) => {
                w.closed = true;
            },
            None => {},
        }
    }
}

/// What one worker step does, case by case: which request it consumed, what
/// it encoded, when it finalized, and how the pipeline state moved.
pub open spec fn worker_step_rel(
    pre: Video,
    post: Video,
    pre_fences: Seq<u64>,
    post_fences: Seq<u64>,
    encode_ok: bool,
    r: StepAction,
) -> bool {
    match pre.worker {
        None => r is Idle && post.worker is None && post_fences == pre_fences,
        Some(w) => {
            if w.done {
                if w.pending@.len() > 0 {
                    let req = w.pending@[0];
                    &&& (r matches StepAction::Drained { slot, buffer } && slot == req.slot
                        && buffer == req.buffer)
                    &&& req.signal.spec_is_completed(post_fences)
                    &&& post.worker matches Some(w1)
                    &&& (post.worker.unwrap() == Worker {
                        pending: post.worker.unwrap().pending,
                        ..w
                    })
                    &&& post.worker.unwrap().pending@ == w.pending@.skip(1)
                } else {
                    &&& r is Idle
                    &&& post.worker == Some(w)
                    &&& post_fences == pre_fences
                }
            } else if w.pending@.len() > 0 {
                let req = w.pending@[0];
                &&& req.signal.spec_is_completed(post_fences)
                &&& if encode_ok {
                    let sample = Sample {
                        time: (w.frame * 10_000_000 / (w.fps as int)) as u64,
                        duration: (10_000_000 as int / (w.fps as int)) as u64,
                    };
                    let finished = w.end_frame matches Some(e) && w.frame + 1 == e;
                    &&& (r matches StepAction::Encoded {
                        slot,
                        buffer,
                        image,
                        sample: s2,
                        finished: f2,
                    } && slot == req.slot && buffer == req.buffer && s2 == sample && f2
                        == finished && img_dims(image) == (
                    req.buffer.spec_size().width,
                    req.buffer.spec_size().height,
                    ) && img_raw(image) == req.buffer.spec_data().take(
                        req.buffer.spec_size().spec_byte_len() as int,
                    ))
                    &&& post.worker matches Some(w1)
                    &&& (post.worker.unwrap() == Worker {
                        pending: post.worker.unwrap().pending,
                        frame: (w.frame + 1) as u64,
                        samples: post.worker.unwrap().samples,
                        done: finished,
                        ..w
                    })
                    &&& post.worker.unwrap().pending@ == w.pending@.skip(1)
                    &&& post.worker.unwrap().samples@ == w.samples@.push(sample)
                } else {
                    &&& (r matches StepAction::Failed { returned } && returned == Some(
                        (req.slot, req.buffer),
                    ))
                    &&& post.worker matches Some(w1)
                    &&& (post.worker.unwrap() == Worker {
                        pending: post.worker.unwrap().pending,
                        done: true,
                        ..w
                    })
                    &&& post.worker.unwrap().pending@ == w.pending@.skip(1)
                }
            } else if w.closed {
                &&& post.worker == Some(Worker { done: true, ..w })
                &&& post_fences == pre_fences
                &&& if encode_ok {
                    r is Finalized
                } else {
                    r matches StepAction::Failed { returned } && returned is None
                }
            } else {
                &&& r is Idle
                &&& post.worker == Some(w)
                &&& post_fences == pre_fences
            }
        },
    }
}

/// Video frame count: while a session runs, the samples encoded are exactly
/// the frames counted, the counter never passes the configured end frame,
/// and reaching it finalizes the session. So driving enough capturable
/// frames through a session with an end frame yields exactly that many
/// samples, each stamped `frame * 10_000_000 / fps`.
pub proof fn lemma_video_frame_count(v: Video, fences: Seq<u64>, e: u64)
    requires
        video_wf(v, fences),
        v.worker matches Some(w) && w.end_frame == Some(e),
    ensures
        v.worker.unwrap().samples@.len() == v.worker.unwrap().frame,
        v.worker.unwrap().frame <= e,
        v.worker.unwrap().frame == e ==> v.worker.unwrap().done,
        forall|i: int|
            0 <= i < v.worker.unwrap().samples@.len()
                ==> (#[trigger] v.worker.unwrap().samples@[i]).time == (i * 10_000_000 / (
            v.worker.unwrap().fps as int)) as u64,
{
}

} // verus!
