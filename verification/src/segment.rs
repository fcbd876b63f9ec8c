//! Segments: labelled time intervals, as they are stored and shown.

use vstd::prelude::*;
use crate::threshold::Interval;

verus! {

/// What a segment marks.
#[derive(Clone, Copy, Debug, PartialEq, Eq, Structural)]
pub enum SegmentType {
    Detection,
    Pattern,
    Anomaly,
    Labeled,
}

/// A labelled time interval. A segment has no `id` until it is stored: the
/// store assigns it.
#[derive(Clone, Debug, PartialEq, Eq)]
pub struct Segment {
    pub id: Option<String>,
    pub from: u64,
    pub to: u64,
    pub segment_type: SegmentType,
}

impl Segment {
    /// The invariant of a segment: it does not end before it starts.
    pub open spec fn is_valid(self) -> bool {
        self.from <= self.to
    }

    /// The segment that reports a detected interval: not yet stored, and
    /// spanning the interval.
    pub open spec fn detection(interval: Interval) -> Segment {
        Segment { id: None, from: interval.from, to: interval.to, segment_type: SegmentType::Detection }
    }

    /// Checks the invariant of a segment.
    pub fn check_valid(&self) -> (r: bool)
        ensures
            r == self.is_valid(),
    {
        self.from <= self.to
    }

    /// Makes the segment that reports a detected interval.
    pub fn from_interval(interval: Interval) -> (r: Segment)
        ensures
            r == Segment::detection(interval),
            interval.is_proper() ==> r.is_valid(),
    {
        Segment { id: None, from: interval.from, to: interval.to, segment_type: SegmentType::Detection }
    }
}

/// What a detection found, as segments.
#[derive(Clone, Debug, PartialEq, Eq)]
pub struct Detections {
    /// The segments found, in the order of the series.
    pub segments: Vec<Segment>,
    /// Whether the last segment is provisional: the series ended while the
    /// condition still held, and more data may extend the segment.
    pub open_ended: bool,
}

/// The segments that report the intervals, one for each and in their order.
pub open spec fn detection_segments(intervals: Seq<Interval>) -> Seq<Segment> {
    intervals.map_values(|interval: Interval| Segment::detection(interval))
}

/// Whether the last of the intervals is open-ended.
pub open spec fn ends_open(intervals: Seq<Interval>) -> bool {
    intervals.len() > 0 && intervals.last().open_ended
}

/// Turns detected intervals into segments, and says whether the last of
/// them is open-ended.
pub fn segments_of(intervals: &Vec<Interval>) -> (r: Detections)
    ensures
        r.segments@ == detection_segments(intervals@),
        r.open_ended == ends_open(intervals@),
{
    let mut segments: Vec<Segment> = Vec::new();
    let mut open_ended = false;
    let mut i: usize = 0;
    while i < intervals.len()
        invariant
            0 <= i <= intervals.len(),
            segments@ == detection_segments(intervals@.take(i as int)),
            open_ended == ends_open(intervals@.take(i as int)),
        decreases intervals.len() - i,
    {
        segments.push(Segment::from_interval(intervals[i]));
        open_ended = intervals[i].open_ended;
        assert(intervals@.take(i + 1) == intervals@.take(i as int).push(intervals@[i as int]));
        i += 1;
    }
    assert(intervals@.take(i as int) == intervals@);
    Detections { segments, open_ended }
}

} // verus!
