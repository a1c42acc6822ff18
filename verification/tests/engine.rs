use click_engine::clickpack::{bucket_delta, Button, ButtonEdge, ClickType, SampleBank, Timings};
use click_engine::config::IgnoredClickTypes;
use click_engine::events::{ClickTimes, EventHandler, DEATH_WINDOW_DEFAULT};
use click_engine::trigger::{classify_and_maybe_play, scale_units, should_play, VOLUME_UNIT};

fn wide_timings() -> Timings {
    // micro/soft boundaries at 50 ms and 150 ms, no hard boundary
    Timings { micro: 50_000, soft: 150_000, hard: u64::MAX }
}

fn edge(button: Button, pressed: bool, timestamp: u64) -> ButtonEdge {
    ButtonEdge { button, pressed, timestamp }
}

#[test]
fn bucket_concrete_gaps() {
    let t = wide_timings();
    assert_eq!(bucket_delta(30_000, &t, true), ClickType::MicroClick);
    assert_eq!(bucket_delta(100_000, &t, true), ClickType::SoftClick);
    assert_eq!(bucket_delta(500_000, &t, true), ClickType::Click);
    assert_eq!(bucket_delta(30_000, &t, false), ClickType::MicroRelease);
    assert_eq!(bucket_delta(100_000, &t, false), ClickType::SoftRelease);
    assert_eq!(bucket_delta(500_000, &t, false), ClickType::Release);
}

#[test]
fn bucket_with_hard_boundary() {
    // boundaries at 20 ms, 100 ms and 300 ms: a gap past the last one is hard
    let t = Timings { micro: 20_000, soft: 100_000, hard: 300_000 };
    assert_eq!(bucket_delta(10_000, &t, true), ClickType::MicroClick);
    assert_eq!(bucket_delta(50_000, &t, true), ClickType::SoftClick);
    assert_eq!(bucket_delta(200_000, &t, true), ClickType::Click);
    assert_eq!(bucket_delta(300_000, &t, true), ClickType::HardClick);
    assert_eq!(bucket_delta(900_000, &t, false), ClickType::HardRelease);
}

#[test]
fn bucket_boundary_ties_fall_to_the_slower_category() {
    // a threshold is an exclusive upper bound on the faster category
    let t = Timings { micro: 20_000, soft: 100_000, hard: 300_000 };
    assert_eq!(bucket_delta(19_999, &t, true), ClickType::MicroClick);
    assert_eq!(bucket_delta(20_000, &t, true), ClickType::SoftClick);
    assert_eq!(bucket_delta(99_999, &t, true), ClickType::SoftClick);
    assert_eq!(bucket_delta(100_000, &t, true), ClickType::Click);
    assert_eq!(bucket_delta(299_999, &t, true), ClickType::Click);
    assert_eq!(bucket_delta(300_000, &t, true), ClickType::HardClick);
}

#[test]
fn second_press_after_fifty_ms_is_soft() {
    // two presses of the same button at t=0 and t=0.05 with boundaries
    // [0.02, 0.1, 0.3]: the second press lands in the soft bucket
    let t = Timings { micro: 20_000, soft: 100_000, hard: 300_000 };
    let mut h = EventHandler::new();
    h.on_init(0);
    let _first = h.classify(edge(Button::Left, true, 0), &t);
    let second = h.classify(edge(Button::Left, true, 50_000), &t);
    assert_eq!(second, ClickType::SoftClick);
}

#[test]
fn classify_updates_button_and_category_slots() {
    let t = wide_timings();
    let mut h = EventHandler::new();
    h.on_init(0);
    let c = h.classify(edge(Button::Left, true, 30_000), &t);
    assert_eq!(c, ClickType::MicroClick);
    assert_eq!(h.prev_times.left, 30_000);
    assert_eq!(h.prev_times.microclick, 30_000);
    assert_eq!(h.prev_times.click, 0);
    let c2 = h.classify(edge(Button::Left, true, 630_000), &t);
    assert_eq!(c2, ClickType::Click);
    assert_eq!(h.prev_times.left, 630_000);
    assert_eq!(h.prev_times.click, 630_000);
    // history of the other category is kept
    assert_eq!(h.prev_times.microclick, 30_000);
}

#[test]
fn history_is_monotone_over_increasing_edges() {
    let t = wide_timings();
    let mut h = EventHandler::new();
    h.on_init(0);
    let edges = [
        edge(Button::Left, true, 10_000),
        edge(Button::Left, false, 40_000),
        edge(Button::Right, true, 200_000),
        edge(Button::Jump, true, 250_000),
        edge(Button::Left, true, 700_000),
    ];
    let mut prev = h.prev_times.clone();
    for e in edges {
        h.classify(e, &t);
        let now = h.prev_times.clone();
        assert!(prev.click <= now.click);
        assert!(prev.release <= now.release);
        assert!(prev.hardclick <= now.hardclick);
        assert!(prev.hardrelease <= now.hardrelease);
        assert!(prev.softclick <= now.softclick);
        assert!(prev.softrelease <= now.softrelease);
        assert!(prev.microclick <= now.microclick);
        assert!(prev.microrelease <= now.microrelease);
        assert!(prev.jump <= now.jump);
        assert!(prev.left <= now.left);
        assert!(prev.right <= now.right);
        prev = now;
    }
}

#[test]
fn reset_makes_deltas_start_from_zero() {
    let t = wide_timings();
    let mut crowded = EventHandler::new();
    crowded.on_init(0);
    for i in 1..6u64 {
        crowded.classify(edge(Button::Left, true, i * 90_000), &t);
    }
    crowded.on_reset();
    assert_eq!(crowded.prev_times, ClickTimes::default());

    let mut fresh = EventHandler::new();
    fresh.on_init(0);
    // same edge classifies identically after a reset as on a fresh handler:
    // the delta is measured against time zero, not the pre-reset history
    let a = crowded.classify(edge(Button::Left, true, 100_000), &t);
    let b = fresh.classify(edge(Button::Left, true, 100_000), &t);
    assert_eq!(a, b);
    assert_eq!(a, ClickType::SoftClick);
}

#[test]
fn death_suppresses_every_category_until_the_window_clears() {
    let ignored = IgnoredClickTypes::default();
    let all = [
        ClickType::HardClick,
        ClickType::HardRelease,
        ClickType::SoftClick,
        ClickType::SoftRelease,
        ClickType::Click,
        ClickType::Release,
        ClickType::MicroClick,
        ClickType::MicroRelease,
        ClickType::Silent,
    ];
    for typ in all {
        assert!(!should_play(typ, true, &ignored));
    }
    let mut h = EventHandler::new();
    h.on_init(0);
    h.on_death();
    assert!(h.is_dead());
    assert!(!should_play(ClickType::Click, h.is_dead(), &ignored));
    // the default window is half a second; step past it
    h.on_update(DEATH_WINDOW_DEFAULT);
    assert!(!h.is_dead());
    assert!(should_play(ClickType::Click, h.is_dead(), &ignored));
}

#[test]
fn zero_master_volume_silences_every_trigger() {
    let mut bank = SampleBank::default();
    bank.click = Some(3);
    for volume_draw in [0u32, 1, 500, 1000, 4321, u32::MAX] {
        let req = click_engine::trigger::trigger(ClickType::Click, &bank, volume_draw, 1000, 0, 1000).unwrap();
        assert_eq!(req.gain_units, 0);
    }
}

#[test]
fn ignoring_one_category_suppresses_only_that_category() {
    let t = wide_timings();
    let mut ignored = IgnoredClickTypes::default();
    ignored.softclicks = true;
    let mut bank = SampleBank::default();
    bank.click = Some(1);
    bank.softclick = Some(2);

    let mut h = EventHandler::new();
    h.on_init(0);
    // gap 100 ms: soft bucket, which is ignored
    let (c1, r1) = classify_and_maybe_play(
        &mut h,
        edge(Button::Left, true, 100_000),
        &t,
        &ignored,
        &bank,
        1000,
        1000,
        1000,
        1000,
    );
    assert_eq!(c1, ClickType::SoftClick);
    assert!(r1.is_none());
    // gap 500 ms: plain bucket, a different category, still plays
    let (c2, r2) = classify_and_maybe_play(
        &mut h,
        edge(Button::Left, true, 600_000),
        &t,
        &ignored,
        &bank,
        1000,
        1000,
        1000,
        1000,
    );
    assert_eq!(c2, ClickType::Click);
    let r2 = r2.expect("an unignored category with a sample plays");
    assert_eq!(r2.sample_ref, 1);
}

#[test]
fn missing_sample_drops_the_request_silently() {
    let bank = SampleBank::default();
    assert!(click_engine::trigger::trigger(ClickType::Click, &bank, 1000, 1000, 1000, 1000).is_none());
    let mut h = EventHandler::new();
    h.on_init(0);
    let (c, r) = classify_and_maybe_play(
        &mut h,
        edge(Button::Left, true, 100_000),
        &wide_timings(),
        &IgnoredClickTypes::default(),
        &bank,
        1000,
        1000,
        1000,
        1000,
    );
    assert_eq!(c, ClickType::SoftClick);
    assert!(r.is_none());
    // the history was still recorded
    assert_eq!(h.prev_times.left, 100_000);
    assert_eq!(h.prev_times.softclick, 100_000);
}

#[test]
fn gain_and_pitch_composition() {
    let mut bank = SampleBank::default();
    bank.hardclick = Some(9);
    // volume draw 0.8, master 0.5 -> gain 0.4; pitch draw 1.2, speed 2.0 -> 2.4
    let req = click_engine::trigger::trigger(ClickType::HardClick, &bank, 800, 1200, 500, 2000).unwrap();
    assert_eq!(req.sample_ref, 9);
    assert_eq!(req.gain_units, 400);
    assert_eq!(req.pitch_units, 2400);
    assert!(req.device_hint.is_none());
}

#[test]
fn scale_units_exact_values() {
    assert_eq!(scale_units(500, 2000), 1000);
    assert_eq!(scale_units(1000, 1000), 1000);
    assert_eq!(scale_units(1, 1), 0);
    assert_eq!(scale_units(999, 1000), 999);
    assert_eq!(scale_units(0, u32::MAX), 0);
    assert_eq!(scale_units(VOLUME_UNIT, VOLUME_UNIT), VOLUME_UNIT);
    // the product saturates at the type's limit
    assert_eq!(scale_units(u32::MAX, u32::MAX), u32::MAX);
}

#[test]
fn elapsed_since_category_reads_the_category_slot() {
    let t = wide_timings();
    let mut h = EventHandler::new();
    h.on_init(0);
    h.classify(edge(Button::Left, true, 30_000), &t); // micro click
    assert_eq!(h.elapsed_since_category(ClickType::MicroClick, 100_000), 70_000);
    // a category never seen measures from session start
    assert_eq!(h.elapsed_since_category(ClickType::HardClick, 100_000), 100_000);
    // a slot in the future reads as a zero gap
    assert_eq!(h.elapsed_since_category(ClickType::MicroClick, 10_000), 0);
}

#[test]
fn silent_sentinel_never_plays() {
    let ignored = IgnoredClickTypes::default();
    assert!(!should_play(ClickType::Silent, false, &ignored));
    let mut bank = SampleBank::default();
    bank.click = Some(1);
    assert_eq!(bank.sample_for(ClickType::Silent), None);
}
