//! Trigger engine: decides whether a classified edge sounds and, if so,
//! composes the playback request with its gain and pitch.
//!
//! Gains and pitches are fixed-point thousandths: 1000 units is unity. A
//! request's gain is the per-trigger volume drawn from the volume policy
//! scaled by the master volume; its pitch is the per-trigger pitch drawn
//! from the pitch policy scaled by the session speed factor, so audio stays
//! in sync with an accelerated or decelerated session clock.

use vstd::prelude::*;

use crate::clickpack::ButtonEdge;
use crate::clickpack::ClickType;
use crate::clickpack::SampleBank;
use crate::clickpack::Timings;
use crate::config::IgnoredClickTypes;
use crate::events::EventHandler;
use crate::events::spec_classify;
use crate::events::spec_record;

verus! {

/// One fixed-point unit of gain or pitch: 1000 units is a multiplier of one.
pub const VOLUME_UNIT: u32 = 1000;

/// Product of two fixed-point multipliers, saturating at the type's limit.
pub open spec fn spec_scale(a: u32, b: u32) -> u32 {
    let p = (a * b) / (VOLUME_UNIT as int);
    if p > u32::MAX {
        u32::MAX as u32
    } else {
        p as u32
    }
}

/// Multiply two fixed-point multipliers (thousandths), saturating.
pub fn scale_units(a: u32, b: u32) -> (r: u32)
    ensures
        r == spec_scale(a, b),
{
    proof {
        assert((a as u64) * (b as u64) <= (u32::MAX as u64) * (u32::MAX as u64))
            by (nonlinear_arith)
            requires
                a <= u32::MAX,
                b <= u32::MAX,
        ;
    }
    let p: u64 = (a as u64) * (b as u64) / (VOLUME_UNIT as u64);
    if p > u32::MAX as u64 {
        u32::MAX
    } else {
        p as u32
    }
}

/// Whether a classified edge may sound: the `Silent` sentinel never plays,
/// an ignored category never plays, and nothing plays during the post-death
/// grace window.
pub open spec fn spec_should_play(typ: ClickType, dead: bool, ignored: IgnoredClickTypes) -> bool {
    &&& typ != ClickType::Silent
    &&& !ignored.spec_is_ignored(typ)
    &&& !dead
}

/// Decide whether a classified edge produces sound. Pure: reads
/// already-computed state, mutates nothing.
pub fn should_play(typ: ClickType, dead: bool, ignored: &IgnoredClickTypes) -> (b: bool)
    ensures
        b == spec_should_play(typ, dead, *ignored),
{
    match typ {
        ClickType::Silent => false,
        _ => !ignored.is_ignored(typ) && !dead,
    }
}

/// A concrete playback command: which sample of the bank to play, at what
/// gain and pitch (fixed-point thousandths), optionally pinned to a device.
/// Created per triggered event and handed to the audio output, never
/// retained.
#[derive(Clone, Debug)]
pub struct PlaybackRequest {
    pub sample_ref: u64,
    pub gain_units: u32,
    pub pitch_units: u32,
    pub device_hint: Option<String>,
}

/// Turn an approved category into a playback request. A category the bank
/// has no sample for is dropped silently: the result is `Some` exactly when
/// a sample exists. The gain is the drawn volume scaled by the master
/// volume; the pitch is the drawn pitch scaled by the speed factor.
pub fn trigger(
    typ: ClickType,
    bank: &SampleBank,
    volume_draw: u32,
    pitch_draw: u32,
    master_volume: u32,
    speed_factor: u32,
) -> (r: Option<PlaybackRequest>)
    ensures
        r is Some <==> bank.spec_sample_for(typ) is Some,
        r matches Some(req) ==> {
            &&& bank.spec_sample_for(typ) == Some(req.sample_ref)
            &&& req.gain_units == spec_scale(volume_draw, master_volume)
            &&& req.pitch_units == spec_scale(pitch_draw, speed_factor)
            &&& req.device_hint is None
        },
{
    match bank.sample_for(typ) {
        Some(sample_ref) => Some(
            PlaybackRequest {
                sample_ref,
                gain_units: scale_units(volume_draw, master_volume),
                pitch_units: scale_units(pitch_draw, speed_factor),
                device_hint: None,
            },
        ),
        None => None,
    }
}

/// The whole triggering path for one observed edge: classify it against the
/// timing history (always recording the history, even when suppressed),
/// gate the category through the ignore policy and the death state, and
/// compose the playback request. The category is returned in any case, for
/// display and logging; the request is `Some` exactly when the category may
/// sound and the bank holds a sample for it.
pub fn classify_and_maybe_play(
    events: &mut EventHandler,
    edge: ButtonEdge,
    timings: &Timings,
    ignored: &IgnoredClickTypes,
    bank: &SampleBank,
    volume_draw: u32,
    pitch_draw: u32,
    master_volume: u32,
    speed_factor: u32,
) -> (r: (ClickType, Option<PlaybackRequest>))
    ensures
        r.0 == spec_classify(old(events).prev_times, edge, *timings),
        r.0 != ClickType::Silent,
        final(events).prev_times == spec_record(old(events).prev_times, edge.button, r.0, edge.timestamp),
        final(events).is_in_level == old(events).is_in_level,
        final(events).playlayer_time == old(events).playlayer_time,
        final(events).dead_timer == old(events).dead_timer,
        final(events).dead_timer_limit == old(events).dead_timer_limit,
        r.1 is Some <==> (spec_should_play(r.0, old(events).dead_timer is Some, *ignored)
            && bank.spec_sample_for(r.0) is Some),
        r.1 matches Some(req) ==> {
            &&& bank.spec_sample_for(r.0) == Some(req.sample_ref)
            &&& req.gain_units == spec_scale(volume_draw, master_volume)
            &&& req.pitch_units == spec_scale(pitch_draw, speed_factor)
        },
{
    let category = events.classify(edge, timings);
    let request = if should_play(category, events.is_dead(), ignored) {
        trigger(category, bank, volume_draw, pitch_draw, master_volume, speed_factor)
    } else {
        None
    };
    (category, request)
}

} // verus!
