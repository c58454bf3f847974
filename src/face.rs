use vstd::prelude::*;

verus! {

/// Minutes in one turn of the hour hand.
pub const HOUR_HAND_PERIOD: u32 = 720;

/// Seconds in one turn of the minute hand.
pub const MINUTE_HAND_PERIOD: u32 = 3600;

/// Seconds in one turn of the second hand.
pub const SECOND_HAND_PERIOD: u32 = 60;

/// A wall-clock reading, broken into its components.
#[derive(Clone, Copy, Debug, PartialEq, Eq, Structural)]
pub struct TimeSample {
    pub hour: u8,
    pub minute: u8,
    pub second: u8,
}

impl TimeSample {
    /// Every component is in its range: hour below 24, minute and second below 60.
    pub open spec fn wf(self) -> bool {
        self.hour < 24 && self.minute < 60 && self.second < 60
    }

    /// Builds a sample when each component is in its range.
    pub fn new(hour: u8, minute: u8, second: u8) -> (r: Option<TimeSample>)
        ensures
            r == (if hour < 24 && minute < 60 && second < 60 {
                Some(TimeSample { hour, minute, second })
            } else {
                None
            }),
    {
        if hour < 24 && minute < 60 && second < 60 {
            Some(TimeSample { hour, minute, second })
        } else {
            None
        }
    }
}

/// A rotation of `2π · elapsed / period` radians, clockwise from twelve o'clock.
#[derive(Clone, Copy, Debug, PartialEq, Eq, Structural)]
pub struct HandAngle {
    pub elapsed: u32,
    pub period: u32,
}

impl HandAngle {
    /// The angle stays below one full turn, i.e. lies in `[0, 2π)`.
    pub open spec fn within_turn(self) -> bool {
        self.elapsed < self.period
    }

    /// The angle is a multiple of a full turn (the ratio is 0 modulo 1).
    pub open spec fn is_whole_turns(self) -> bool {
        self.period > 0 && self.elapsed % self.period == 0
    }
}

pub open spec fn hour_angle_of(t: TimeSample) -> HandAngle {
    HandAngle { elapsed: ((t.hour % 12) * 60 + t.minute) as u32, period: HOUR_HAND_PERIOD }
}

pub open spec fn minute_angle_of(t: TimeSample) -> HandAngle {
    HandAngle { elapsed: (t.minute * 60 + t.second) as u32, period: MINUTE_HAND_PERIOD }
}

pub open spec fn second_angle_of(t: TimeSample) -> HandAngle {
    HandAngle { elapsed: t.second as u32, period: SECOND_HAND_PERIOD }
}

/// The hour hand turns once in twelve hours: minutes elapsed since the last
/// twelve o'clock, over 720.
pub fn hour_angle(t: TimeSample) -> (r: HandAngle)
    requires
        t.wf(),
    ensures
        r == hour_angle_of(t),
        r.elapsed == (t.hour % 12) * 60 + t.minute,
        r.within_turn(),
{
    HandAngle { elapsed: (t.hour % 12) as u32 * 60 + t.minute as u32, period: HOUR_HAND_PERIOD }
}

/// The minute hand turns once an hour: seconds elapsed over 3600.
pub fn minute_angle(t: TimeSample) -> (r: HandAngle)
    requires
        t.wf(),
    ensures
        r == minute_angle_of(t),
        r.elapsed == t.minute * 60 + t.second,
        r.within_turn(),
{
    HandAngle { elapsed: t.minute as u32 * 60 + t.second as u32, period: MINUTE_HAND_PERIOD }
}

/// The second hand turns once a minute: seconds elapsed over 60.
pub fn second_angle(t: TimeSample) -> (r: HandAngle)
    requires
        t.wf(),
    ensures
        r == second_angle_of(t),
        r.within_turn(),
{
    HandAngle { elapsed: t.second as u32, period: SECOND_HAND_PERIOD }
}


/// Length of the hour hand in canvas units.
pub const HOUR_HAND_RADIUS: u32 = 70;

/// Length of the minute hand in canvas units.
pub const MINUTE_HAND_RADIUS: u32 = 170;

/// Length of the second hand in canvas units.
pub const SECOND_HAND_RADIUS: u32 = 150;

/// Distance of the hour labels from the centre.
pub const LABEL_RADIUS: u32 = 190;

/// Number of hour labels on the ring.
pub const LABEL_COUNT: u8 = 12;

/// Half the width (and height) of the canvas: drawing spans `[-200, 200]` on both axes.
pub const CANVAS_HALF_EXTENT: u32 = 200;

/// The colour a hand is drawn in.
#[derive(Clone, Copy, Debug, PartialEq, Eq, Structural)]
pub enum HandColor {
    Red,
    Yellow,
    Green,
}

/// A segment from the centre of the face along `angle`, `radius` units long.
#[derive(Clone, Copy, Debug, PartialEq, Eq, Structural)]
pub struct HandLine {
    pub angle: HandAngle,
    pub radius: u32,
    pub color: HandColor,
}

/// The text of `hour` placed `radius` units from the centre along `angle`.
#[derive(Clone, Copy, Debug, PartialEq, Eq, Structural)]
pub struct HourLabel {
    pub hour: u8,
    pub angle: HandAngle,
    pub radius: u32,
}

/// Everything drawn for one frame: the three hands, then the ring of labels.
#[derive(Clone, Debug)]
pub struct ClockFace {
    pub hands: Vec<HandLine>,
    pub labels: Vec<HourLabel>,
}

pub struct ClockFaceView {
    pub hands: Seq<HandLine>,
    pub labels: Seq<HourLabel>,
}

impl View for ClockFace {
    type V = ClockFaceView;

    open spec fn view(&self) -> ClockFaceView {
        ClockFaceView { hands: self.hands@, labels: self.labels@ }
    }
}

/// Hour, minute and second hand, in that order, each with its length and colour.
pub open spec fn hands_of(t: TimeSample) -> Seq<HandLine> {
    seq![
        HandLine { angle: hour_angle_of(t), radius: HOUR_HAND_RADIUS, color: HandColor::Red },
        HandLine { angle: minute_angle_of(t), radius: MINUTE_HAND_RADIUS, color: HandColor::Yellow },
        HandLine { angle: second_angle_of(t), radius: SECOND_HAND_RADIUS, color: HandColor::Green },
    ]
}

/// The label of hour `h`, at `h / 12` of a turn on the outer ring.
pub open spec fn label_of(h: int) -> HourLabel {
    HourLabel {
        hour: h as u8,
        angle: HandAngle { elapsed: h as u32, period: LABEL_COUNT as u32 },
        radius: LABEL_RADIUS,
    }
}

/// The labels of hours 1 to 12, in order.
pub open spec fn labels_spec() -> Seq<HourLabel> {
    Seq::new(LABEL_COUNT as nat, |i: int| label_of(i + 1))
}

/// The whole drawing for the time `t`.
pub open spec fn face_of(t: TimeSample) -> ClockFaceView {
    ClockFaceView { hands: hands_of(t), labels: labels_spec() }
}

/// The three hands for `t`.
pub fn hand_lines(t: TimeSample) -> (r: Vec<HandLine>)
    requires
        t.wf(),
    ensures
        r@ == hands_of(t),
{
    let hour = HandLine { angle: hour_angle(t), radius: HOUR_HAND_RADIUS, color: HandColor::Red };
    let minute = HandLine {
        angle: minute_angle(t),
        radius: MINUTE_HAND_RADIUS,
        color: HandColor::Yellow,
    };
    let second = HandLine {
        angle: second_angle(t),
        radius: SECOND_HAND_RADIUS,
        color: HandColor::Green,
    };
    let r = vec![hour, minute, second];
    assert(r@ =~= hands_of(t));
    r
}

/// The ring of hour labels "1" to "12"; it does not depend on the time.
pub fn hour_labels() -> (r: Vec<HourLabel>)
    ensures
        r@ == labels_spec(),
{
    let mut r: Vec<HourLabel> = Vec::new();
    let mut h: u8 = 1;
    while h <= LABEL_COUNT
        invariant
            1 <= h <= LABEL_COUNT + 1,
            r@ =~= Seq::new((h - 1) as nat, |i: int| label_of(i + 1)),
        decreases LABEL_COUNT + 1 - h,
    {
        r.push(HourLabel {
            hour: h,
            angle: HandAngle { elapsed: h as u32, period: LABEL_COUNT as u32 },
            radius: LABEL_RADIUS,
        });
        h = h + 1;
    }
    r
}

/// The drawing instructions for one frame showing the time `t`.
pub fn clock_face(t: TimeSample) -> (r: ClockFace)
    requires
        t.wf(),
    ensures
        r@ == face_of(t),
{
    ClockFace { hands: hand_lines(t), labels: hour_labels() }
}

/// The number of quarter turns in `a`, when `a` is a whole number of them.
pub open spec fn quarter_turns(a: HandAngle) -> Option<int> {
    if a.period > 0 && (4 * a.elapsed) % (a.period as int) == 0 {
        Some(((4 * a.elapsed) / (a.period as int)) % 4)
    } else {
        None
    }
}

/// Offset `(sin θ · radius, cos θ · radius)` for an angle θ that points straight
/// up, right, down or left; none for any other angle.
pub open spec fn cardinal_offset_of(a: HandAngle, radius: u32) -> Option<(i64, i64)> {
    match quarter_turns(a) {
        Some(q) => Some(
            if q == 0 {
                (0i64, radius as i64)
            } else if q == 1 {
                (radius as i64, 0i64)
            } else if q == 2 {
                (0i64, (-(radius as int)) as i64)
            } else {
                ((-(radius as int)) as i64, 0i64)
            },
        ),
        None => None,
    }
}

/// The exact end point of a segment of length `radius` along `a`, where `a` is a
/// whole number of quarter turns. Zero points up, and angles grow clockwise.
pub fn cardinal_offset(a: HandAngle, radius: u32) -> (r: Option<(i64, i64)>)
    ensures
        r == cardinal_offset_of(a, radius),
{
    if a.period == 0 {
        return None;
    }
    let four: u64 = 4 * (a.elapsed as u64);
    let period: u64 = a.period as u64;
    if four % period != 0 {
        return None;
    }
    let q: u64 = (four / period) % 4;
    let len: i64 = radius as i64;
    if q == 0 {
        Some((0, len))
    } else if q == 1 {
        Some((len, 0))
    } else if q == 2 {
        Some((0, -len))
    } else {
        Some((-len, 0))
    }
}

/// For every valid time, each hand lies within one turn, in `[0, 2π)`, and is at
/// angle zero exactly when its elapsed fraction of a turn is a whole number.
pub proof fn lemma_hand_angles_within_turn(t: TimeSample)
    requires
        t.wf(),
    ensures
        hour_angle_of(t).within_turn(),
        minute_angle_of(t).within_turn(),
        second_angle_of(t).within_turn(),
        hour_angle_of(t).is_whole_turns() <==> hour_angle_of(t).elapsed == 0,
        minute_angle_of(t).is_whole_turns() <==> minute_angle_of(t).elapsed == 0,
        second_angle_of(t).is_whole_turns() <==> second_angle_of(t).elapsed == 0,
{
}

/// Drawing the same time twice gives the same instructions: the same hands, in the
/// same places and colours, and the same labels.
pub proof fn lemma_face_deterministic(t1: TimeSample, t2: TimeSample)
    requires
        t1.wf(),
        t2.wf(),
        t1 == t2,
    ensures
        face_of(t1) == face_of(t2),
{
}

/// The hour labels are the same whatever the time: label `i` shows hour `i + 1`
/// at `(i + 1) / 12` of a turn, on the ring of radius 190.
pub proof fn lemma_labels_independent_of_time(t1: TimeSample, t2: TimeSample)
    requires
        t1.wf(),
        t2.wf(),
    ensures
        face_of(t1).labels == face_of(t2).labels,
        face_of(t1).labels.len() == 12,
        forall|i: int|
            0 <= i < 12 ==> {
                let l = #[trigger] face_of(t1).labels[i];
                &&& l.hour == i + 1
                &&& l.angle == (HandAngle { elapsed: (i + 1) as u32, period: 12 })
                &&& l.radius == 190
            },
{
}

} // verus!
