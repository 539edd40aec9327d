use vstd::prelude::*;
use vstd::string::*;

verus! {

/// How strictly liveness (anti-spoofing) is enforced.
#[derive(Clone, Copy, Debug, PartialEq, Eq, Structural)]
pub enum LivenessMode {
    Light,
    Heavy,
    Off,
}

/// The outcome of observing a frame.
#[derive(Debug, Clone, PartialEq)]
pub enum LivenessDecision {
    Confirmed { cue: String },
    Denied { reason: String },
    Pending,
}

/// The per-frame spoof cues, measured on the frame by the caller
/// (the thresholds depend on the mode).
#[derive(Clone, Copy, Debug, PartialEq, Eq, Structural)]
pub struct FrameCues {
    /// A rectangular phone/screen bezel edge was seen.
    pub screen_bezel: bool,
    /// The face shows the uniform glare of glass.
    pub glass_glare: bool,
}

/// The natural-motion cues measured over the recorded window of frames.
#[derive(Clone, Copy, Debug, PartialEq, Eq, Structural)]
pub struct MotionCues {
    /// The eye aspect ratio changed like a blink.
    pub blink: bool,
    /// The head moved enough in yaw and pitch.
    pub head_motion: bool,
}

/// What `observe` concluded from one frame.
#[derive(Debug, Clone, PartialEq)]
pub enum Observation {
    /// The frame settled the decision.
    Decided(LivenessDecision),
    /// The frame was recorded and the window is long enough: measure the
    /// motion cues over `history()` and hand them to `settle`.
    AwaitingMotionCues,
}

/// Number of recent frames the analyzer keeps.
pub const MAX_HISTORY: usize = 25;

/// Number of recorded frames needed before motion can be judged.
pub const MIN_FRAMES: usize = 5;

pub open spec fn already_confirmed_cue() -> Seq<char> {
    "Liveness disabled/already confirmed"@
}

pub open spec fn bezel_reason() -> Seq<char> {
    "Suspicious rectangular screen bezel detected (Possible phone/screen spoof)"@
}

pub open spec fn glare_reason() -> Seq<char> {
    "Unnatural uniform glass glare detected"@
}

pub open spec fn blink_cue() -> Seq<char> {
    "Natural eye blink detected"@
}

pub open spec fn head_motion_cue() -> Seq<char> {
    "3D head micro-motion confirmed"@
}

/// `d` confirms liveness with the cue text `cue`.
pub open spec fn confirms_with(d: LivenessDecision, cue: Seq<char>) -> bool {
    d matches LivenessDecision::Confirmed { cue: c } && c@ == cue
}

/// `d` denies liveness for the reason `reason`.
pub open spec fn denies_with(d: LivenessDecision, reason: Seq<char>) -> bool {
    d matches LivenessDecision::Denied { reason: r } && r@ == reason
}

/// The window after recording `frame`: appended, oldest dropped beyond
/// `MAX_HISTORY` frames.
pub open spec fn recorded<F>(history: Seq<F>, frame: F) -> Seq<F> {
    let pushed = history.push(frame);
    if pushed.len() > MAX_HISTORY {
        pushed.drop_first()
    } else {
        pushed
    }
}

/// Temporal anti-spoofing analysis over a sliding window of frames `F`.
pub struct LivenessAnalyzer<F> {
    pub mode: LivenessMode,
    history: Vec<F>,
    max_history: usize,
    confirmed: bool,
    awaiting: bool,
}

impl<F> LivenessAnalyzer<F> {
    /// The recorded window, oldest first.
    pub closed spec fn window(&self) -> Seq<F> {
        self.history@
    }

    /// The mode the analyzer runs in.
    pub closed spec fn current_mode(&self) -> LivenessMode {
        self.mode
    }

    /// Liveness has been confirmed (latched until `reset`).
    pub closed spec fn is_confirmed_spec(&self) -> bool {
        self.confirmed
    }

    /// The last `observe` asked for motion cues and `settle` is due.
    pub closed spec fn is_awaiting_spec(&self) -> bool {
        self.awaiting
    }

    /// Well-formedness: the window holds at most `MAX_HISTORY` frames, and
    /// motion cues are only awaited on an unconfirmed, long enough window.
    pub closed spec fn inv(&self) -> bool {
        &&& self.max_history == MAX_HISTORY
        &&& self.history@.len() <= MAX_HISTORY
        &&& self.awaiting ==> (self.history@.len() >= MIN_FRAMES && !self.confirmed)
    }

    /// The state of a fresh analyzer in `mode`.
    pub open spec fn is_fresh(&self, mode: LivenessMode) -> bool {
        &&& self.inv()
        &&& self.current_mode() == mode
        &&& self.window() == Seq::<F>::empty()
        &&& self.is_confirmed_spec() == (mode == LivenessMode::Off)
        &&& !self.is_awaiting_spec()
    }

    pub fn new(mode: LivenessMode) -> (a: Self)
        ensures
            a.is_fresh(mode),
    {
        LivenessAnalyzer {
            mode,
            history: Vec::with_capacity(30),
            max_history: MAX_HISTORY,
            confirmed: mode == LivenessMode::Off,
            awaiting: false,
        }
    }

    /// Forgets all recorded frames and any confirmation (except that `Off`
    /// mode is always confirmed).
    pub fn reset(&mut self)
        requires
            old(self).inv(),
        ensures
            final(self).is_fresh(old(self).current_mode()),
    {
        self.history.clear();
        self.confirmed = self.mode == LivenessMode::Off;
        self.awaiting = false;
    }

    /// The recorded window, oldest first.
    pub fn history(&self) -> (h: &Vec<F>)
        ensures
            h@ == self.window(),
    {
        &self.history
    }

    /// The mode the analyzer runs in.
    pub fn mode(&self) -> (m: LivenessMode)
        ensures
            m == self.current_mode(),
    {
        self.mode
    }

    pub fn is_confirmed(&self) -> (c: bool)
        ensures
            c == self.is_confirmed_spec(),
    {
        self.confirmed
    }

    /// Whether `settle` is due.
    pub fn is_awaiting_motion_cues(&self) -> (w: bool)
        ensures
            w == self.is_awaiting_spec(),
    {
        self.awaiting
    }

    /// Evaluates the anti-spoofing criteria for one frame with its spoof
    /// cues: a disabled or already confirmed analyzer confirms at once; a
    /// bezel, then glare, cue denies the frame without recording it;
    /// otherwise the frame joins the window, which stays `Pending` until it
    /// holds `MIN_FRAMES` frames and then awaits the motion cues.
    pub fn observe(&mut self, frame: F, cues: FrameCues) -> (obs: Observation)
        requires
            old(self).inv(),
        ensures
            final(self).inv(),
            final(self).window().len() <= MAX_HISTORY,
            final(self).current_mode() == old(self).current_mode(),
            old(self).current_mode() == LivenessMode::Off || old(self).is_confirmed_spec() ==> {
                &&& obs matches Observation::Decided(d) && confirms_with(d, already_confirmed_cue())
                &&& final(self).window() == old(self).window()
                &&& final(self).is_confirmed_spec() == old(self).is_confirmed_spec()
                &&& !final(self).is_awaiting_spec()
            },
            !(old(self).current_mode() == LivenessMode::Off || old(self).is_confirmed_spec()) ==> {
                &&& !final(self).is_confirmed_spec()
                &&& if cues.screen_bezel {
                    &&& obs matches Observation::Decided(d) && denies_with(d, bezel_reason())
                    &&& final(self).window() == old(self).window()
                    &&& !final(self).is_awaiting_spec()
                } else if cues.glass_glare {
                    &&& obs matches Observation::Decided(d) && denies_with(d, glare_reason())
                    &&& final(self).window() == old(self).window()
                    &&& !final(self).is_awaiting_spec()
                } else {
                    &&& final(self).window() == recorded(old(self).window(), frame)
                    &&& if final(self).window().len() < MIN_FRAMES {
                        obs == Observation::Decided(LivenessDecision::Pending)
                            && !final(self).is_awaiting_spec()
                    } else {
                        obs == Observation::AwaitingMotionCues && final(self).is_awaiting_spec()
                    }
                }
            },
    {
        self.awaiting = false;
        if self.mode == LivenessMode::Off || self.confirmed {
            return Observation::Decided(
                LivenessDecision::Confirmed {
                    cue: String::from_str("Liveness disabled/already confirmed"),
                },
            );
        }
        if cues.screen_bezel {
            return Observation::Decided(
                LivenessDecision::Denied {
                    reason: String::from_str(
                        "Suspicious rectangular screen bezel detected (Possible phone/screen spoof)",
                    ),
                },
            );
        }
        if cues.glass_glare {
            return Observation::Decided(
                LivenessDecision::Denied {
                    reason: String::from_str("Unnatural uniform glass glare detected"),
                },
            );
        }
        let ghost before = self.history@;
        self.history.push(frame);
        if self.history.len() > self.max_history {
            self.history.remove(0);
            proof {
                assert(self.history@ == before.push(frame).drop_first());
            }
        }
        if self.history.len() < MIN_FRAMES {
            return Observation::Decided(LivenessDecision::Pending);
        }
        self.awaiting = true;
        Observation::AwaitingMotionCues
    }

    /// Concludes a frame that awaited its motion cues: a blink, else head
    /// motion, confirms liveness (and latches it); otherwise `Pending`.
    pub fn settle(&mut self, cues: MotionCues) -> (d: LivenessDecision)
        requires
            old(self).inv(),
            old(self).is_awaiting_spec(),
        ensures
            final(self).inv(),
            final(self).window().len() <= MAX_HISTORY,
            final(self).current_mode() == old(self).current_mode(),
            final(self).window() == old(self).window(),
            !final(self).is_awaiting_spec(),
            cues.blink ==> confirms_with(d, blink_cue()) && final(self).is_confirmed_spec(),
            !cues.blink && cues.head_motion ==> confirms_with(d, head_motion_cue())
                && final(self).is_confirmed_spec(),
            !cues.blink && !cues.head_motion ==> d == LivenessDecision::Pending
                && !final(self).is_confirmed_spec(),
    {
        self.awaiting = false;
        if cues.blink {
            self.confirmed = true;
            return LivenessDecision::Confirmed { cue: String::from_str("Natural eye blink detected") };
        }
        if cues.head_motion {
            self.confirmed = true;
            return LivenessDecision::Confirmed {
                cue: String::from_str("3D head micro-motion confirmed"),
            };
        }
        LivenessDecision::Pending
    }
}

} // verus!
