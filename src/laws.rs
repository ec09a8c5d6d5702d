use vstd::prelude::*;
use crate::check::decide;
use crate::engine::Context;
use crate::timestamp::{Timestamp, MtimeResult};

verus! {

/// An earlier moment at nanosecond precision is no later at millisecond
/// precision.
pub proof fn lemma_before_ms(a: Timestamp, b: Timestamp)
    requires
        a.wf(),
        b.wf(),
        a.spec_before(b),
    ensures
        a.ms() <= b.ms(),
{
    if a.secs < b.secs {
        assert(a.nanos as int / 1_000_000 < 1000);
        assert(a.secs as int * 1000 + 1000 <= b.secs as int * 1000) by (nonlinear_arith)
            requires a.secs < b.secs;
    } else {
        assert(a.nanos as int / 1_000_000 <= b.nanos as int / 1_000_000) by (nonlinear_arith)
            requires a.nanos < b.nanos;
    }
}

/// Once a run has left a source and its target with the same time at
/// millisecond precision, the divergence check finds nothing to do in either
/// direction, whatever the stamp.
pub proof fn law_synced_pair_is_left_alone(s: Timestamp, t: Timestamp, stamp: Option<Timestamp>)
    requires
        s.wf(),
        t.wf(),
        s.ms() == t.ms(),
    ensures
        decide(s, MtimeResult::Modified(t), stamp) is Unneeded,
        decide(t, MtimeResult::Modified(s), stamp) is Unneeded,
{
}

/// Where only one side of a pair was edited since the last run (the stamp is
/// no older than the other side, and older than the edited one), the edited
/// side is regenerated into the other, and the other is not regenerated.
pub proof fn law_one_sided_edit(edited: Timestamp, other: Timestamp, stamp: Timestamp)
    requires
        edited.wf(),
        other.wf(),
        stamp.wf(),
        other.ms() <= stamp.ms(),
        stamp.ms() < edited.ms(),
    ensures
        decide(edited, MtimeResult::Modified(other), Some(stamp)) is Needed,
        decide(other, MtimeResult::Modified(edited), Some(stamp)) is Unneeded,
{
    if edited.spec_before(other) {
        lemma_before_ms(edited, other);
    }
    if !other.spec_before(edited) {
        if other == edited {
        } else {
            assert(edited.spec_before(other));
            lemma_before_ms(edited, other);
        }
    }
}

/// Where both sides were edited since the last run, at different
/// millisecond times, the divergence check refuses in one of the two
/// directions with a stamp older than the target.
pub proof fn law_two_sided_edit_refused(a: Timestamp, b: Timestamp, stamp: Timestamp)
    requires
        a.wf(),
        b.wf(),
        stamp.wf(),
        stamp.ms() < a.ms(),
        stamp.ms() < b.ms(),
        a.ms() != b.ms(),
    ensures
        decide(a, MtimeResult::Modified(b), Some(stamp)) is StampOlder
            || decide(b, MtimeResult::Modified(a), Some(stamp)) is StampOlder,
        decide(a, MtimeResult::Modified(b), Some(stamp)) is StampOlder
            || decide(a, MtimeResult::Modified(b), Some(stamp)) is Unneeded,
        decide(b, MtimeResult::Modified(a), Some(stamp)) is StampOlder
            || decide(b, MtimeResult::Modified(a), Some(stamp)) is Unneeded,
{
    if a.spec_before(b) {
        lemma_before_ms(a, b);
        if b.spec_before(a) {
            lemma_before_ms(b, a);
        }
    } else if b.spec_before(a) {
        lemma_before_ms(b, a);
    } else {
        assert(a == b);
    }
}

proof fn lemma_observed_covered(c: Context, x: Timestamp)
    requires
        c.wf(),
        c.observed@.contains(x),
    ensures
        c.newest_stamp is Some && !c.newest_stamp->0.spec_before(x),
{
    let k = choose|k: int| 0 <= k < c.observed@.len() && c.observed@[k] == x;
    assert(c.newest_stamp is Some);
    assert(!c.newest_stamp->0.spec_before(c.observed@[k]));
}

/// The time a run gives the stamp is no earlier than the source time of any
/// input it looked at, queued for generation or not.
pub proof fn law_stamp_covers_sources(c: Context, i: int)
    requires
        c.wf(),
    ensures
        0 <= i < c.observed@.len() ==> c.newest_stamp is Some && !c.newest_stamp->0.spec_before(c.observed@[i]),
        0 <= i < c.src_inputs@.len() ==> c.newest_stamp is Some && !c.newest_stamp->0.spec_before(c.src_inputs@[i].source_time),
        0 <= i < c.lit_inputs@.len() ==> c.newest_stamp is Some && !c.newest_stamp->0.spec_before(c.lit_inputs@[i].source_time),
{
    if 0 <= i < c.src_inputs@.len() {
        lemma_observed_covered(c, c.src_inputs@[i].source_time);
    }
    if 0 <= i < c.lit_inputs@.len() {
        lemma_observed_covered(c, c.lit_inputs@[i].source_time);
    }
}

} // verus!
