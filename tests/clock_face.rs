use analog_clock::face::{
    cardinal_offset, clock_face, hand_lines, hour_angle, hour_labels, minute_angle, second_angle,
    HandAngle, HandColor, TimeSample,
};

fn sample(hour: u8, minute: u8, second: u8) -> TimeSample {
    TimeSample::new(hour, minute, second).expect("valid time")
}

#[test]
fn time_sample_rejects_out_of_range_components() {
    assert!(TimeSample::new(23, 59, 59).is_some());
    assert!(TimeSample::new(24, 0, 0).is_none());
    assert!(TimeSample::new(0, 60, 0).is_none());
    assert!(TimeSample::new(0, 0, 60).is_none());
}

#[test]
fn midnight_points_every_hand_straight_up() {
    let t = sample(0, 0, 0);
    let face = clock_face(t);
    assert_eq!(face.hands.len(), 3);
    for hand in &face.hands {
        assert_eq!(hand.angle.elapsed, 0);
        assert_eq!(cardinal_offset(hand.angle, hand.radius), Some((0, hand.radius as i64)));
    }
    assert_eq!(cardinal_offset(face.hands[0].angle, face.hands[0].radius), Some((0, 70)));
    assert_eq!(cardinal_offset(face.hands[1].angle, face.hands[1].radius), Some((0, 170)));
    assert_eq!(cardinal_offset(face.hands[2].angle, face.hands[2].radius), Some((0, 150)));
}

#[test]
fn six_o_clock_points_hour_hand_down() {
    let a = hour_angle(sample(6, 0, 0));
    assert_eq!(a, HandAngle { elapsed: 360, period: 720 });
    assert_eq!(cardinal_offset(a, 70), Some((0, -70)));
}

#[test]
fn three_o_clock_points_hour_hand_right() {
    let a = hour_angle(sample(3, 0, 0));
    assert_eq!(a, HandAngle { elapsed: 180, period: 720 });
    assert_eq!(cardinal_offset(a, 70), Some((70, 0)));
}

#[test]
fn nine_o_clock_points_hour_hand_left() {
    assert_eq!(cardinal_offset(hour_angle(sample(9, 0, 0)), 70), Some((-70, 0)));
}

#[test]
fn off_axis_angles_have_no_exact_offset() {
    assert_eq!(cardinal_offset(HandAngle { elapsed: 1, period: 12 }, 190), None);
    assert_eq!(cardinal_offset(HandAngle { elapsed: 5, period: 0 }, 190), None);
    assert_eq!(cardinal_offset(HandAngle { elapsed: 15, period: 60 }, 150), Some((150, 0)));
}

#[test]
fn hand_angles_follow_elapsed_over_period() {
    let t = sample(10, 30, 45);
    assert_eq!(hour_angle(t), HandAngle { elapsed: 630, period: 720 });
    assert_eq!(minute_angle(t), HandAngle { elapsed: 1845, period: 3600 });
    assert_eq!(second_angle(t), HandAngle { elapsed: 45, period: 60 });
}

#[test]
fn hand_angles_stay_within_one_turn() {
    for hour in 0..24u8 {
        for minute in [0u8, 1, 29, 59] {
            for second in [0u8, 30, 59] {
                let t = sample(hour, minute, second);
                for a in [hour_angle(t), minute_angle(t), second_angle(t)] {
                    assert!(a.elapsed < a.period);
                    let angle = 2.0 * std::f64::consts::PI * (a.elapsed as f64 / a.period as f64);
                    assert!((0.0..2.0 * std::f64::consts::PI).contains(&angle));
                    assert_eq!(a.elapsed % a.period == 0, a.elapsed == 0);
                }
            }
        }
    }
}

#[test]
fn afternoon_hour_hand_counts_from_noon() {
    let a = hour_angle(sample(13, 0, 0));
    assert_eq!(a, HandAngle { elapsed: 60, period: 720 });
    assert_eq!(cardinal_offset(a, 70), None);
    assert_eq!(hour_angle(sample(23, 59, 0)), HandAngle { elapsed: 719, period: 720 });
    assert_eq!(cardinal_offset(hour_angle(sample(15, 0, 0)), 70), Some((70, 0)));
}

#[test]
fn noon_points_hour_hand_straight_up() {
    let a = hour_angle(sample(12, 0, 0));
    assert_eq!(a, HandAngle { elapsed: 0, period: 720 });
    assert_eq!(cardinal_offset(a, 70), Some((0, 70)));
}

#[test]
fn hands_have_fixed_lengths_and_colours() {
    let hands = hand_lines(sample(7, 8, 9));
    assert_eq!(hands.len(), 3);
    assert_eq!((hands[0].radius, hands[0].color), (70, HandColor::Red));
    assert_eq!((hands[1].radius, hands[1].color), (170, HandColor::Yellow));
    assert_eq!((hands[2].radius, hands[2].color), (150, HandColor::Green));
}

#[test]
fn drawing_the_same_time_twice_is_identical() {
    let t = sample(17, 42, 5);
    let a = clock_face(t);
    let b = clock_face(t);
    assert_eq!(a.hands, b.hands);
    assert_eq!(a.labels, b.labels);
}

#[test]
fn hour_labels_do_not_depend_on_the_time() {
    let labels = hour_labels();
    assert_eq!(labels.len(), 12);
    for (i, label) in labels.iter().enumerate() {
        assert_eq!(label.hour as usize, i + 1);
        assert_eq!(label.angle, HandAngle { elapsed: i as u32 + 1, period: 12 });
        assert_eq!(label.radius, 190);
    }
    assert_eq!(clock_face(sample(0, 0, 0)).labels, labels);
    assert_eq!(clock_face(sample(23, 59, 59)).labels, labels);
    assert_eq!(cardinal_offset(labels[2].angle, labels[2].radius), Some((190, 0)));
    assert_eq!(cardinal_offset(labels[11].angle, labels[11].radius), Some((0, 190)));
}
