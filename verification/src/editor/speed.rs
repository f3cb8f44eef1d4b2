//! Speed segments: stretches of the recording played faster or slower.
//!
//! A speed is an `f32` held as its IEEE-754 bit pattern. The logic here
//! clamps speeds (by the IEEE ordering of the bit patterns), finds the
//! speed at a position, orders the segments and lays out the stretches
//! of a playback; turning stretches into milliseconds of playback
//! divides by the speeds and is done by the caller in floating point.

use vstd::prelude::*;

verus! {

/// Bit pattern of `1.0f32`, the speed outside every segment.
pub const NORMAL_SPEED: u32 = 0x3F80_0000;

/// Bit pattern of `0.25f32`, the slowest speed.
pub const MIN_SPEED: u32 = 0x3E80_0000;

/// Bit pattern of `4.0f32`, the fastest speed.
pub const MAX_SPEED: u32 = 0x4080_0000;

/// Whether `b` is the bit pattern of a NaN: all exponent bits set and a
/// non-zero mantissa, i.e. a magnitude above that of infinity.
pub open spec fn f32_is_nan(b: u32) -> bool {
    b % 0x8000_0000 > 0x7F80_0000
}

/// Whether the `f32` values with bit patterns `a` and `b` compare equal:
/// never when one is NaN, always for the two zeros, otherwise exactly when
/// the patterns agree.
pub open spec fn f32_bits_eq(a: u32, b: u32) -> bool {
    !f32_is_nan(a) && !f32_is_nan(b) && (a == b || (a % 0x8000_0000 == 0 && b % 0x8000_0000
        == 0))
}

/// `==` of two `f32` values given by their bit patterns.
pub fn f32_bits_equal(a: u32, b: u32) -> (e: bool)
    ensures
        e == f32_bits_eq(a, b),
{
    let ma = a % 0x8000_0000;
    let mb = b % 0x8000_0000;
    ma <= 0x7F80_0000 && mb <= 0x7F80_0000 && (a == b || (ma == 0 && mb == 0))
}

/// Whether the `f32` with bit pattern `b` compares below `0.25`: it is not
/// NaN and is either negative (or negative zero) or a smaller positive value.
pub open spec fn below_min_speed(b: u32) -> bool {
    !f32_is_nan(b) && (b >= 0x8000_0000 || b < MIN_SPEED)
}

/// Whether the `f32` with bit pattern `b` compares above `4.0`.
pub open spec fn above_max_speed(b: u32) -> bool {
    !f32_is_nan(b) && b < 0x8000_0000 && b > MAX_SPEED
}

/// `f32::clamp(speed, 0.25, 4.0)` on bit patterns: NaN stays NaN.
pub open spec fn clamped_speed(b: u32) -> u32 {
    if below_min_speed(b) {
        MIN_SPEED
    } else if above_max_speed(b) {
        MAX_SPEED
    } else {
        b
    }
}

/// Clamps a speed to `[0.25, 4.0]`.
pub fn clamp_speed(speed: u32) -> (c: u32)
    ensures
        c == clamped_speed(speed),
{
    let magnitude = speed % 0x8000_0000;
    if magnitude > 0x7F80_0000 {
        speed
    } else if speed >= 0x8000_0000 || speed < MIN_SPEED {
        MIN_SPEED
    } else if speed > MAX_SPEED {
        MAX_SPEED
    } else {
        speed
    }
}

/// A stretch `[start_ms, end_ms)` played at `speed` (an `f32` bit pattern).
#[derive(Debug, Clone, Copy)]
pub struct SpeedSegment {
    pub start_ms: u64,
    pub end_ms: u64,
    pub speed: u32,
}

impl PartialEq for SpeedSegment {
    /// Equal bounds and speeds that compare equal as `f32`.
    fn eq(&self, other: &Self) -> (r: bool) {
        self.start_ms == other.start_ms && self.end_ms == other.end_ms && f32_bits_equal(
            self.speed,
            other.speed,
        )
    }
}

impl vstd::std_specs::cmp::PartialEqSpecImpl for SpeedSegment {
    open spec fn obeys_eq_spec() -> bool {
        true
    }

    open spec fn eq_spec(&self, other: &Self) -> bool {
        self.start_ms == other.start_ms && self.end_ms == other.end_ms && f32_bits_eq(
            self.speed,
            other.speed,
        )
    }
}

/// A piece of a playback: `len_ms` milliseconds of the recording played at
/// normal speed (`None`) or at a segment's speed.
#[derive(Debug, Clone, Copy, PartialEq, Eq)]
pub struct Stretch {
    pub len_ms: u64,
    pub speed: Option<u32>,
}

/// Inserts `x` after every element whose start is not greater than its own
/// (scanning from the back).
pub open spec fn insert_by_start(s: Seq<SpeedSegment>, x: SpeedSegment) -> Seq<SpeedSegment>
    decreases s.len(),
{
    if s.len() == 0 {
        seq![x]
    } else if s.last().start_ms <= x.start_ms {
        s.push(x)
    } else {
        insert_by_start(s.drop_last(), x).push(s.last())
    }
}

/// The segments in stable order of their start: each segment is inserted,
/// in list order, after every earlier one that does not start later.
pub open spec fn sorted_by_start(s: Seq<SpeedSegment>) -> Seq<SpeedSegment>
    decreases s.len(),
{
    if s.len() == 0 {
        s
    } else {
        insert_by_start(sorted_by_start(s.drop_last()), s.last())
    }
}

/// Whether the starts never decrease.
pub open spec fn starts_ascending(s: Seq<SpeedSegment>) -> bool {
    forall|i: int, j: int| 0 <= i <= j < s.len() ==> s[i].start_ms <= s[j].start_ms
}

/// The pieces of playing `[cursor, original_ms)` over segments `segs` in
/// their order: before each segment the part not yet covered plays at normal
/// speed, then the part of the segment not yet covered plays at its speed,
/// and whatever remains after the last segment plays at normal speed.
pub open spec fn stretches_from(segs: Seq<SpeedSegment>, cursor: u64, original_ms: u64) -> Seq<
    Stretch,
>
    decreases segs.len(),
{
    if cursor >= original_ms {
        seq![]
    } else if segs.len() == 0 {
        seq![Stretch { len_ms: (original_ms - cursor) as u64, speed: None }]
    } else {
        let seg = segs[0];
        let gap_end = if seg.start_ms < original_ms {
            seg.start_ms
        } else {
            original_ms
        };
        let gap = if cursor < gap_end {
            seq![Stretch { len_ms: (gap_end - cursor) as u64, speed: None }]
        } else {
            seq![]
        };
        let c1 = if cursor < gap_end {
            gap_end
        } else {
            cursor
        };
        if c1 >= original_ms {
            gap
        } else {
            let seg_end = if seg.end_ms < original_ms {
                seg.end_ms
            } else {
                original_ms
            };
            let chunk = if c1 < seg_end {
                seq![Stretch { len_ms: (seg_end - c1) as u64, speed: Some(seg.speed) }]
            } else {
                seq![]
            };
            let c2 = if c1 < seg_end {
                seg_end
            } else {
                c1
            };
            gap + chunk + stretches_from(segs.drop_first(), c2, original_ms)
        }
    }
}

/// Total length of the stretches.
pub open spec fn total_len(s: Seq<Stretch>) -> nat
    decreases s.len(),
{
    if s.len() == 0 {
        0
    } else {
        s[0].len_ms as nat + total_len(s.drop_first())
    }
}

/// The speed at `position_ms`: that of the first segment covering it.
pub open spec fn speed_at_spec(segs: Seq<SpeedSegment>, position_ms: u64) -> u32
    decreases segs.len(),
{
    if segs.len() == 0 {
        NORMAL_SPEED
    } else if segs[0].start_ms <= position_ms && position_ms < segs[0].end_ms {
        segs[0].speed
    } else {
        speed_at_spec(segs.drop_first(), position_ms)
    }
}

/// The speed segments of a project.
pub struct SpeedManager {
    pub segments: Vec<SpeedSegment>,
}

impl SpeedManager {
    /// No segments: everything plays at normal speed.
    pub fn new() -> (m: Self)
        ensures
            m.segments@ == Seq::<SpeedSegment>::empty(),
    {
        SpeedManager { segments: Vec::new() }
    }

    /// Adds a segment; its speed is clamped to `[0.25, 4.0]`.
    pub fn add_segment(&mut self, start_ms: u64, end_ms: u64, speed: u32)
        ensures
            final(self).segments@ == old(self).segments@.push(
                SpeedSegment { start_ms, end_ms, speed: clamped_speed(speed) },
            ),
    {
        let speed = clamp_speed(speed);
        self.segments.push(SpeedSegment { start_ms, end_ms, speed });
    }

    /// Removes the segment at `index`; an index out of range changes nothing.
    pub fn remove_segment(&mut self, index: usize)
        ensures
            index < old(self).segments@.len() ==> final(self).segments@ == old(
                self,
            ).segments@.remove(index as int),
            index >= old(self).segments@.len() ==> final(self).segments@ == old(self).segments@,
    {
        if index < self.segments.len() {
            self.segments.remove(index);
        }
    }

    /// The speed at `position_ms`: that of the first segment covering it,
    /// else normal speed.
    pub fn speed_at(&self, position_ms: u64) -> (s: u32)
        ensures
            s == speed_at_spec(self.segments@, position_ms),
    {
        let mut i: usize = 0;
        assert(self.segments@.skip(0) =~= self.segments@);
        while i < self.segments.len()
            invariant
                i <= self.segments@.len(),
                speed_at_spec(self.segments@, position_ms) == speed_at_spec(
                    self.segments@.skip(i as int),
                    position_ms,
                ),
            decreases self.segments@.len() - i,
        {
            let seg = self.segments[i];
            assert(self.segments@.skip(i as int).drop_first() =~= self.segments@.skip(i + 1));
            if position_ms >= seg.start_ms && position_ms < seg.end_ms {
                return seg.speed;
            }
            i = i + 1;
        }
        NORMAL_SPEED
    }

    /// The segments in stable order of their start.
    pub fn sorted_segments(&self) -> (sorted: Vec<SpeedSegment>)
        ensures
            sorted@ == sorted_by_start(self.segments@),
    {
        let mut sorted: Vec<SpeedSegment> = Vec::new();
        let mut i: usize = 0;
        while i < self.segments.len()
            invariant
                i <= self.segments@.len(),
                sorted@ == sorted_by_start(self.segments@.take(i as int)),
            decreases self.segments@.len() - i,
        {
            let x = self.segments[i];
            assert(self.segments@.take(i + 1).drop_last() =~= self.segments@.take(i as int));
            let mut p: usize = sorted.len();
            while p > 0 && sorted[p - 1].start_ms > x.start_ms
                invariant
                    p <= sorted@.len(),
                    forall|j: int| p <= j < sorted@.len() ==> sorted@[j].start_ms > x.start_ms,
                decreases p,
            {
                p = p - 1;
            }
            proof {
                lemma_insert_at(sorted@, x, p as int);
            }
            sorted.insert(p, x);
            assert(sorted@ =~= sorted_by_start(self.segments@.take(i + 1)));
            i = i + 1;
        }
        assert(self.segments@.take(self.segments@.len() as int) =~= self.segments@);
        sorted
    }

    /// The stretches of playing the first `original_ms` of the recording,
    /// in order, over the segments in stable order of their start.
    pub fn playback_stretches(&self, original_ms: u64) -> (plan: Vec<Stretch>)
        ensures
            plan@ == stretches_from(sorted_by_start(self.segments@), 0, original_ms),
    {
        let sorted = self.sorted_segments();
        let mut plan: Vec<Stretch> = Vec::new();
        let mut cursor: u64 = 0;
        let mut i: usize = 0;
        assert(sorted@.skip(0) =~= sorted@);
        assert(plan@ + stretches_from(sorted@, 0, original_ms) =~= stretches_from(sorted@, 0, original_ms));
        while i < sorted.len()
            invariant
                i <= sorted@.len(),
                sorted@ == sorted_by_start(self.segments@),
                plan@ + stretches_from(sorted@.skip(i as int), cursor, original_ms)
                    == stretches_from(sorted@, 0, original_ms),
            decreases sorted@.len() - i,
        {
            let ghost before = plan@;
            let ghost c0 = cursor;
            assert(sorted@.skip(i as int).drop_first() =~= sorted@.skip(i + 1));
            if cursor >= original_ms {
                assert(stretches_from(sorted@.skip(i as int), cursor, original_ms) =~= seq![]);
                assert(plan@ =~= stretches_from(sorted@, 0, original_ms));
                assert(stretches_from(sorted@.skip(i + 1), cursor, original_ms) =~= seq![]);
                i = i + 1;
                assert(plan@ + stretches_from(sorted@.skip(i as int), cursor, original_ms)
                    =~= stretches_from(sorted@, 0, original_ms));
            } else {
                let seg = sorted[i];
                let gap_end = if seg.start_ms < original_ms {
                    seg.start_ms
                } else {
                    original_ms
                };
                if cursor < gap_end {
                    plan.push(Stretch { len_ms: gap_end - cursor, speed: None });
                    cursor = gap_end;
                }
                if cursor >= original_ms {
                    assert(stretches_from(sorted@.skip(i + 1), cursor, original_ms) =~= seq![]);
                    assert(plan@ =~= stretches_from(sorted@, 0, original_ms));
                    i = i + 1;
                    assert(plan@ + stretches_from(sorted@.skip(i as int), cursor, original_ms)
                        =~= stretches_from(sorted@, 0, original_ms));
                } else {
                    let seg_end = if seg.end_ms < original_ms {
                        seg.end_ms
                    } else {
                        original_ms
                    };
                    if cursor < seg_end {
                        plan.push(Stretch { len_ms: seg_end - cursor, speed: Some(seg.speed) });
                        cursor = seg_end;
                    }
                    i = i + 1;
                    assert(plan@ + stretches_from(sorted@.skip(i as int), cursor, original_ms)
                        =~= stretches_from(sorted@, 0, original_ms));
                }
            }
        }
        if cursor < original_ms {
            plan.push(Stretch { len_ms: original_ms - cursor, speed: None });
        }
        assert(plan@ =~= stretches_from(sorted@, 0, original_ms));
        plan
    }
}

impl Default for SpeedManager {
    /// No segments.
    fn default() -> (m: Self)
        ensures
            m.segments@ == Seq::<SpeedSegment>::empty(),
    {
        Self::new()
    }
}

/// Inserting at a position `p` after which every start is greater than that
/// of `x`, and before which the start is not, is `insert_by_start`.
proof fn lemma_insert_at(s: Seq<SpeedSegment>, x: SpeedSegment, p: int)
    requires
        0 <= p <= s.len(),
        forall|j: int| p <= j < s.len() ==> s[j].start_ms > x.start_ms,
        p > 0 ==> s[p - 1].start_ms <= x.start_ms,
    ensures
        insert_by_start(s, x) == s.insert(p, x),
    decreases s.len(),
{
    if s.len() == 0 {
        assert(s.insert(p, x) =~= seq![x]);
    } else if p == s.len() {
        assert(s.insert(p, x) =~= s.push(x));
    } else {
        lemma_insert_at(s.drop_last(), x, p);
        assert(s.insert(p, x) =~= s.drop_last().insert(p, x).push(s.last()));
    }
}


/// Length of two plans one after the other.
proof fn lemma_total_len_concat(a: Seq<Stretch>, b: Seq<Stretch>)
    ensures
        total_len(a + b) == total_len(a) + total_len(b),
    decreases a.len(),
{
    if a.len() == 0 {
        assert(a + b =~= b);
    } else {
        lemma_total_len_concat(a.drop_first(), b);
        assert((a + b).drop_first() =~= a.drop_first() + b);
    }
}

/// Length of a single stretch.
proof fn lemma_total_len_single(st: Stretch)
    ensures
        total_len(seq![st]) == st.len_ms,
{
    reveal_with_fuel(total_len, 2);
    assert(seq![st].drop_first() =~= Seq::<Stretch>::empty());
}

/// The stretches of a playback cover the played part of the recording
/// exactly once: their lengths add up to `original_ms - cursor`.
pub proof fn law_stretches_cover(segs: Seq<SpeedSegment>, cursor: u64, original_ms: u64)
    requires
        cursor <= original_ms,
    ensures
        total_len(stretches_from(segs, cursor, original_ms)) == original_ms - cursor,
    decreases segs.len(),
{
    if cursor >= original_ms {
    } else if segs.len() == 0 {
        lemma_total_len_single(Stretch { len_ms: (original_ms - cursor) as u64, speed: None });
    } else {
        let seg = segs[0];
        let gap_end = if seg.start_ms < original_ms { seg.start_ms } else { original_ms };
        let gap = if cursor < gap_end {
            seq![Stretch { len_ms: (gap_end - cursor) as u64, speed: None }]
        } else {
            seq![]
        };
        let c1 = if cursor < gap_end { gap_end } else { cursor };
        assert(total_len(gap) == c1 - cursor) by {
            if cursor < gap_end {
                lemma_total_len_single(Stretch { len_ms: (gap_end - cursor) as u64, speed: None });
            }
        }
        if c1 < original_ms {
            let seg_end = if seg.end_ms < original_ms { seg.end_ms } else { original_ms };
            let chunk = if c1 < seg_end {
                seq![Stretch { len_ms: (seg_end - c1) as u64, speed: Some(seg.speed) }]
            } else {
                seq![]
            };
            let c2 = if c1 < seg_end { seg_end } else { c1 };
            assert(total_len(chunk) == c2 - c1) by {
                if c1 < seg_end {
                    lemma_total_len_single(
                        Stretch { len_ms: (seg_end - c1) as u64, speed: Some(seg.speed) },
                    );
                }
            }
            law_stretches_cover(segs.drop_first(), c2, original_ms);
            lemma_total_len_concat(gap, chunk);
            lemma_total_len_concat(gap + chunk, stretches_from(segs.drop_first(), c2, original_ms));
        }
    }
}

/// With no segments the whole recording plays as one stretch at normal speed.
pub proof fn law_no_segments_plays_normally(original_ms: u64)
    requires
        original_ms > 0,
    ensures
        stretches_from(sorted_by_start(Seq::<SpeedSegment>::empty()), 0, original_ms) == seq![
            Stretch { len_ms: original_ms, speed: None },
        ],
{
}

/// Inserting keeps the starts ascending and adds exactly one element.
proof fn lemma_insert_by_start(s: Seq<SpeedSegment>, x: SpeedSegment)
    requires
        starts_ascending(s),
    ensures
        starts_ascending(insert_by_start(s, x)),
        insert_by_start(s, x).to_multiset() == s.to_multiset().insert(x),
        insert_by_start(s, x).len() == s.len() + 1,
        forall|i: int|
            0 <= i < insert_by_start(s, x).len() ==> (insert_by_start(s, x)[i] == x || (
            exists|j: int| 0 <= j < s.len() && s[j] == #[trigger] insert_by_start(s, x)[i])),
    decreases s.len(),
{
    broadcast use vstd::seq_lib::group_to_multiset_ensures;
    if s.len() == 0 {
        assert(seq![x] =~= Seq::<SpeedSegment>::empty().push(x));
    } else if s.last().start_ms <= x.start_ms {
        assert forall|i: int| 0 <= i < s.push(x).len() implies (s.push(x)[i] == x || (exists|j: int|
            0 <= j < s.len() && s[j] == #[trigger] s.push(x)[i])) by {
            if i < s.len() {
                assert(s[i] == s.push(x)[i]);
            }
        }
    } else {
        let t = s.drop_last();
        assert(starts_ascending(t));
        lemma_insert_by_start(t, x);
        let r = insert_by_start(t, x);
        assert forall|i: int, j: int| 0 <= i <= j < r.push(s.last()).len() implies r.push(
            s.last(),
        )[i].start_ms <= r.push(s.last())[j].start_ms by {
            if j == r.len() {
                if i < r.len() {
                    if r[i] != x {
                        let k = choose|k: int| 0 <= k < t.len() && t[k] == r[i];
                        assert(s[k] == t[k]);
                    }
                }
            }
        }
        assert(s =~= t.push(s.last()));
        assert(r.push(s.last()).to_multiset() == r.to_multiset().insert(s.last()));
        assert(t.push(s.last()).to_multiset() == t.to_multiset().insert(s.last()));
        assert(r.to_multiset().insert(s.last()) =~= t.to_multiset().insert(s.last()).insert(x));
        assert forall|i: int| 0 <= i < r.push(s.last()).len() implies (r.push(s.last())[i] == x
            || (exists|j: int| 0 <= j < s.len() && s[j] == #[trigger] r.push(s.last())[i])) by {
            if i == r.len() {
                assert(s[s.len() - 1] == r.push(s.last())[i]);
            } else if r[i] != x {
                let k = choose|k: int| 0 <= k < t.len() && t[k] == r[i];
                assert(s[k] == r.push(s.last())[i]);
            }
        }
    }
}

/// Ordering the segments by start sorts them: the starts ascend and the
/// result holds exactly the same segments.
pub proof fn law_sorted_by_start(s: Seq<SpeedSegment>)
    ensures
        starts_ascending(sorted_by_start(s)),
        sorted_by_start(s).to_multiset() == s.to_multiset(),
    decreases s.len(),
{
    broadcast use vstd::seq_lib::group_to_multiset_ensures;
    if s.len() > 0 {
        law_sorted_by_start(s.drop_last());
        lemma_insert_by_start(sorted_by_start(s.drop_last()), s.last());
        assert(s =~= s.drop_last().push(s.last()));
    } else {
        assert(s.to_multiset() =~= vstd::multiset::Multiset::<SpeedSegment>::empty());
    }
}

/// A clamped speed is NaN exactly when the given one is; otherwise it lies
/// in `[0.25, 4.0]` and an in-range speed is kept as it is.
pub proof fn law_clamp_speed_range(b: u32)
    ensures
        f32_is_nan(clamped_speed(b)) == f32_is_nan(b),
        !f32_is_nan(b) ==> MIN_SPEED <= clamped_speed(b) <= MAX_SPEED,
        !below_min_speed(b) && !above_max_speed(b) ==> clamped_speed(b) == b,
        clamped_speed(clamped_speed(b)) == clamped_speed(b),
{
}

/// The speed at a position is that of the first segment, in the order
/// they were added, that covers it (start inclusive, end exclusive),
/// however the segments are ordered in time.
pub proof fn law_speed_at_first_covering(segs: Seq<SpeedSegment>, position_ms: u64, k: int)
    requires
        0 <= k < segs.len(),
        segs[k].start_ms <= position_ms < segs[k].end_ms,
        forall|j: int|
            0 <= j < k ==> !(segs[j].start_ms <= position_ms && position_ms < #[trigger] segs[j].end_ms),
    ensures
        speed_at_spec(segs, position_ms) == segs[k].speed,
    decreases k,
{
    if k > 0 {
        assert(!(segs[0].start_ms <= position_ms && position_ms < segs[0].end_ms));
        let rest = segs.drop_first();
        assert forall|j: int| 0 <= j < k - 1 implies !(rest[j].start_ms <= position_ms
            && position_ms < #[trigger] rest[j].end_ms) by {
            assert(rest[j] == segs[j + 1]);
        }
        assert(rest[k - 1] == segs[k]);
        law_speed_at_first_covering(rest, position_ms, k - 1);
    }
}

/// Where no segment covers a position, it plays at normal speed.
pub proof fn law_speed_at_uncovered(segs: Seq<SpeedSegment>, position_ms: u64)
    requires
        forall|j: int|
            0 <= j < segs.len() ==> !(segs[j].start_ms <= position_ms && position_ms
                < #[trigger] segs[j].end_ms),
    ensures
        speed_at_spec(segs, position_ms) == NORMAL_SPEED,
    decreases segs.len(),
{
    if segs.len() > 0 {
        assert(!(segs[0].start_ms <= position_ms && position_ms < segs[0].end_ms));
        let rest = segs.drop_first();
        assert forall|j: int| 0 <= j < rest.len() implies !(rest[j].start_ms <= position_ms
            && position_ms < #[trigger] rest[j].end_ms) by {
            assert(rest[j] == segs[j + 1]);
        }
        law_speed_at_uncovered(rest, position_ms);
    }
}

/// The speed at a position is normal speed or the speed of a segment that
/// covers it.
pub proof fn law_speed_at_from_covering(segs: Seq<SpeedSegment>, position_ms: u64)
    ensures
        speed_at_spec(segs, position_ms) == NORMAL_SPEED || exists|k: int|
            0 <= k < segs.len() && segs[k].start_ms <= position_ms < segs[k].end_ms
                && #[trigger] segs[k].speed == speed_at_spec(segs, position_ms),
    decreases segs.len(),
{
    if segs.len() > 0 {
        if !(segs[0].start_ms <= position_ms && position_ms < segs[0].end_ms) {
            let rest = segs.drop_first();
            law_speed_at_from_covering(rest, position_ms);
            if speed_at_spec(segs, position_ms) != NORMAL_SPEED {
                let k = choose|k: int|
                    0 <= k < rest.len() && rest[k].start_ms <= position_ms < rest[k].end_ms
                        && #[trigger] rest[k].speed == speed_at_spec(rest, position_ms);
                assert(segs[k + 1] == rest[k]);
            }
        }
    }
}

} // verus!
