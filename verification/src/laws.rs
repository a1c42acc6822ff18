//! The engine's general guarantees, stated and proved once over the spec
//! model that the executable contracts speak of.

use vstd::prelude::*;

use crate::clickpack::Button;
use crate::clickpack::ButtonEdge;
use crate::clickpack::ClickType;
use crate::clickpack::Timings;
use crate::clickpack::spec_bucket;
use crate::config::IgnoredClickTypes;
use crate::events::ClickTimes;
use crate::events::spec_classify;
use crate::events::spec_classify_all;
use crate::events::spec_delta;
use crate::events::spec_record;
use crate::trigger::VOLUME_UNIT;
use crate::trigger::spec_scale;
use crate::trigger::spec_should_play;

verus! {

/// Recording one classified edge never moves a history slot backwards, as
/// long as the edge is no earlier than every stored slot: every slot either
/// keeps its value or moves up to the edge's time, and the history stays
/// bounded by that time.
pub proof fn lemma_history_step_monotone(
    times: ClickTimes,
    button: Button,
    typ: ClickType,
    t: u64,
)
    requires
        times.bounded_by(t),
    ensures
        times.pointwise_le(spec_record(times, button, typ, t)),
        spec_record(times, button, typ, t).bounded_by(t),
{
}

/// A history bounded by one time is bounded by every later time.
pub proof fn lemma_bounded_by_weaken(times: ClickTimes, t1: u64, t2: u64)
    requires
        times.bounded_by(t1),
        t1 <= t2,
    ensures
        times.bounded_by(t2),
{
}

/// For every sequence of edges with strictly increasing timestamps, starting
/// from a history bounded by the first timestamp, classifying them in order
/// leaves every slot of the timing history at least where it started: the
/// history is monotonically non-decreasing, and stays bounded by the last
/// timestamp.
pub proof fn lemma_history_monotone(
    times: ClickTimes,
    edges: Seq<ButtonEdge>,
    timings: Timings,
)
    requires
        forall|i: int, j: int|
            0 <= i < j < edges.len() ==> edges[i].timestamp < edges[j].timestamp,
        edges.len() > 0 ==> times.bounded_by(edges[0].timestamp),
    ensures
        times.pointwise_le(spec_classify_all(times, edges, timings)),
        edges.len() > 0 ==> spec_classify_all(times, edges, timings).bounded_by(
            edges.last().timestamp,
        ),
    decreases edges.len(),
{
    if edges.len() > 0 {
        let edge = edges[0];
        let typ = spec_classify(times, edge, timings);
        let recorded = spec_record(times, edge.button, typ, edge.timestamp);
        lemma_history_step_monotone(times, edge.button, typ, edge.timestamp);
        let rest = edges.drop_first();
        if rest.len() > 0 {
            lemma_bounded_by_weaken(recorded, edge.timestamp, rest[0].timestamp);
        }
        lemma_history_monotone(recorded, rest, timings);
        if rest.len() > 0 {
            assert(edges.last() == rest.last());
        }
    }
}

/// A reset is idempotent for classification: immediately after a reset the
/// gap of the first edge of any button is measured against time zero, so it
/// equals the edge's own timestamp and its category is independent of
/// whatever history preceded the reset.
pub proof fn lemma_reset_deltas_from_zero(edge: ButtonEdge, timings: Timings)
    ensures
        spec_delta(edge.timestamp, ClickTimes::spec_empty().button_slot(edge.button))
            == edge.timestamp,
        spec_classify(ClickTimes::spec_empty(), edge, timings) == spec_bucket(
            edge.timestamp,
            timings,
            edge.pressed,
        ),
{
}

/// While the session is dead no category may sound; once the grace window
/// clears, a category that is neither the sentinel nor ignored sounds
/// again.
pub proof fn lemma_death_suppresses_all(ignored: IgnoredClickTypes)
    ensures
        forall|typ: ClickType| !spec_should_play(typ, true, ignored),
        forall|typ: ClickType|
            (typ != ClickType::Silent && !ignored.spec_is_ignored(typ)) ==> spec_should_play(
                typ,
                false,
                ignored,
            ),
{
}

/// A master volume of zero silences every trigger: whatever the volume
/// policy draws, the resulting gain is zero.
pub proof fn lemma_zero_master_silences(volume_draw: u32)
    ensures
        spec_scale(volume_draw, 0) == 0,
{
}

/// A unity master volume passes the drawn volume through unchanged.
pub proof fn lemma_unity_master_is_identity(volume_draw: u32)
    ensures
        spec_scale(volume_draw, VOLUME_UNIT) == volume_draw,
{
}

/// Two ignore policies that agree everywhere but on one category decide
/// playability identically for every other category: toggling a single
/// category's flag suppresses that category alone.
pub proof fn lemma_ignore_is_per_category(
    p1: IgnoredClickTypes,
    p2: IgnoredClickTypes,
    toggled: ClickType,
    other: ClickType,
    dead: bool,
)
    requires
        forall|typ: ClickType|
            typ != toggled ==> p1.spec_is_ignored(typ) == p2.spec_is_ignored(typ),
        other != toggled,
    ensures
        spec_should_play(other, dead, p1) == spec_should_play(other, dead, p2),
{
    assert(p1.spec_is_ignored(other) == p2.spec_is_ignored(other));
}

} // verus!
