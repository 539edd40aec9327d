use mukalujauh::liveness::{
    FrameCues, LivenessAnalyzer, LivenessDecision, LivenessMode, MotionCues, Observation,
    MAX_HISTORY, MIN_FRAMES,
};

fn clear() -> FrameCues {
    FrameCues { screen_bezel: false, glass_glare: false }
}

fn confirmed(cue: &str) -> LivenessDecision {
    LivenessDecision::Confirmed { cue: cue.to_string() }
}

#[test]
fn off_mode_always_confirms() {
    let mut a: LivenessAnalyzer<u32> = LivenessAnalyzer::new(LivenessMode::Off);
    assert!(a.is_confirmed());
    let bezel = FrameCues { screen_bezel: true, glass_glare: true };
    assert_eq!(
        a.observe(1, bezel),
        Observation::Decided(confirmed("Liveness disabled/already confirmed"))
    );
    assert!(a.history().is_empty());
}

#[test]
fn bezel_denies_before_glare() {
    let mut a: LivenessAnalyzer<u32> = LivenessAnalyzer::new(LivenessMode::Heavy);
    let both = FrameCues { screen_bezel: true, glass_glare: true };
    assert_eq!(
        a.observe(1, both),
        Observation::Decided(LivenessDecision::Denied {
            reason: "Suspicious rectangular screen bezel detected (Possible phone/screen spoof)"
                .to_string()
        })
    );
    let glare = FrameCues { screen_bezel: false, glass_glare: true };
    assert_eq!(
        a.observe(2, glare),
        Observation::Decided(LivenessDecision::Denied {
            reason: "Unnatural uniform glass glare detected".to_string()
        })
    );
    assert!(a.history().is_empty());
    assert!(!a.is_confirmed());
}

#[test]
fn pending_until_five_frames() {
    let mut a: LivenessAnalyzer<u32> = LivenessAnalyzer::new(LivenessMode::Light);
    for i in 0..(MIN_FRAMES as u32 - 1) {
        assert_eq!(a.observe(i, clear()), Observation::Decided(LivenessDecision::Pending));
        assert!(!a.is_awaiting_motion_cues());
    }
    assert_eq!(a.observe(99, clear()), Observation::AwaitingMotionCues);
    assert!(a.is_awaiting_motion_cues());
    assert_eq!(a.history(), &vec![0, 1, 2, 3, 99]);
}

#[test]
fn blink_confirms_and_latches() {
    let mut a: LivenessAnalyzer<u32> = LivenessAnalyzer::new(LivenessMode::Light);
    for i in 0..5 {
        a.observe(i, clear());
    }
    let d = a.settle(MotionCues { blink: true, head_motion: true });
    assert_eq!(d, confirmed("Natural eye blink detected"));
    assert!(a.is_confirmed());
    let spoof = FrameCues { screen_bezel: true, glass_glare: false };
    assert_eq!(
        a.observe(7, spoof),
        Observation::Decided(confirmed("Liveness disabled/already confirmed"))
    );
    a.reset();
    assert!(!a.is_confirmed());
    assert!(a.history().is_empty());
}

#[test]
fn head_motion_confirms_and_still_stays_pending() {
    let mut a: LivenessAnalyzer<u32> = LivenessAnalyzer::new(LivenessMode::Heavy);
    for i in 0..5 {
        a.observe(i, clear());
    }
    assert_eq!(a.settle(MotionCues { blink: false, head_motion: false }), LivenessDecision::Pending);
    assert!(!a.is_confirmed());
    assert!(!a.is_awaiting_motion_cues());
    assert_eq!(a.observe(5, clear()), Observation::AwaitingMotionCues);
    assert_eq!(
        a.settle(MotionCues { blink: false, head_motion: true }),
        confirmed("3D head micro-motion confirmed")
    );
    assert!(a.is_confirmed());
}

#[test]
fn window_keeps_latest_frames() {
    let mut a: LivenessAnalyzer<u32> = LivenessAnalyzer::new(LivenessMode::Light);
    for i in 0..40u32 {
        a.observe(i, clear());
        if a.is_awaiting_motion_cues() {
            a.settle(MotionCues { blink: false, head_motion: false });
        }
        assert!(a.history().len() <= MAX_HISTORY);
    }
    let expected: Vec<u32> = (15..40).collect();
    assert_eq!(a.history(), &expected);
}

#[test]
fn reset_of_off_mode_stays_confirmed() {
    let mut a: LivenessAnalyzer<u32> = LivenessAnalyzer::new(LivenessMode::Off);
    a.reset();
    assert!(a.is_confirmed());
    assert_eq!(a.mode, LivenessMode::Off);
    assert_eq!(a.mode(), LivenessMode::Off);
}
