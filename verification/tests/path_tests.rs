//! Tests for the ease curve, segments, and the drift-path generator.

use dials_research::path::{
    generate_random_dial_path, time_to_pass_end, DialSpeed, PathSegment, WANDER_SEGMENT_COUNT,
};
use dials_research::range::DialRange;

#[test]
fn segment_value_hits_endpoints_exactly() {
    let seg = PathSegment {
        start: 0,
        end: 1000,
        duration_ms: 1000,
    };
    assert_eq!(seg.value_at_time(0), 0);
    assert_eq!(seg.value_at_time(1000), 1000);
}

#[test]
fn segment_value_at_midpoint() {
    let seg = PathSegment {
        start: 0,
        end: 1000,
        duration_ms: 1000,
    };
    // The ease weight is exactly 500 per mille at the midpoint.
    assert_eq!(seg.value_at_time(500), 500);
}

#[test]
fn segment_value_quarter_point_exact() {
    let seg = PathSegment {
        start: 100,
        end: 300,
        duration_ms: 1000,
    };
    // ease(250, 1000) = 2000*250*250 / (1000*1000) = 125 per mille,
    // so the value is 100 + 125*200/1000 = 125.
    assert_eq!(seg.value_at_time(250), 125);
}

#[test]
fn segment_value_is_monotone_upward() {
    let seg = PathSegment {
        start: -500,
        end: 2500,
        duration_ms: 3000,
    };
    let mut last = seg.value_at_time(0);
    let mut t: i64 = 0;
    while t <= 3000 {
        let v = seg.value_at_time(t);
        assert!(v >= last);
        assert!((-500..=2500).contains(&v));
        last = v;
        t += 50;
    }
}

#[test]
fn segment_travel_direction_signs() {
    let up = PathSegment {
        start: 0,
        end: 10,
        duration_ms: 100,
    };
    let down = PathSegment {
        start: 10,
        end: 0,
        duration_ms: 100,
    };
    assert_eq!(up.travel_direction(), 1);
    assert_eq!(down.travel_direction(), -1);
}

#[test]
fn crossing_time_is_exact() {
    let range = DialRange::new(0, 1000);
    let seg = PathSegment {
        start: 500,
        end: 1100,
        duration_ms: 1000,
    };
    // Solving the fixed-point ease curve by hand: the needle is first
    // outside [0, 1000] at millisecond 712 of this segment.
    let tc = time_to_pass_end(&range, &seg);
    assert_eq!(tc, 712);
    assert!(!range.contains(seg.value_at_time(tc)));
    assert!(range.contains(seg.value_at_time(tc - 1)));
}

#[test]
fn wander_path_stays_in_range() {
    let range = DialRange::new(200, 4200);
    let path = generate_random_dial_path(&range, 2200, None, DialSpeed::Medium);
    assert_eq!(path.len(), WANDER_SEGMENT_COUNT);
    let mut prev_end: i64 = 2200;
    for seg in path.iter() {
        assert_eq!(seg.start, prev_end);
        assert!(range.contains(seg.start));
        assert!(range.contains(seg.end));
        assert!((1500..=2500).contains(&seg.duration_ms));
        // Sample the curve across the segment: always inside the band.
        let mut t: i64 = 0;
        while t <= seg.duration_ms {
            assert!(range.contains(seg.value_at_time(t)));
            t += seg.duration_ms / 7 + 1;
        }
        prev_end = seg.end;
    }
}

#[test]
fn drift_path_meets_deadline_exactly() {
    let range = DialRange::new(100, 300);
    for _ in 0..20 {
        let deadline = 5000;
        let path = generate_random_dial_path(&range, 200, Some(deadline), DialSpeed::Medium);
        assert!(path.len() >= 2);

        let segs: Vec<_> = path.iter().copied().collect();
        let last = segs[segs.len() - 1];
        // The final segment starts inside the band and targets a value
        // strictly outside it, overshooting by at most 400 units.
        assert!(range.contains(last.start));
        assert!(!range.contains(last.end));
        assert!(last.end >= -300 && last.end <= 700);

        // Consecutive segments join up.
        for w in segs.windows(2) {
            assert_eq!(w[0].end, w[1].start);
        }

        // The time to the first out-of-range needle value is exactly the
        // deadline: every earlier segment in full, plus the crossing time
        // of the final segment.
        let tc = time_to_pass_end(&range, &last);
        let front: i64 = segs[..segs.len() - 1].iter().map(|s| s.duration_ms).sum();
        assert_eq!(front + tc, deadline);

        // Outside at the crossing and for the rest of the segment.
        assert!(!range.contains(last.value_at_time(tc)));
        assert!(!range.contains(last.value_at_time(last.duration_ms)));
        // Inside just before the crossing.
        assert!(range.contains(last.value_at_time(tc - 1)));
    }
}

#[test]
fn drift_path_with_tiny_deadline_is_clamped() {
    let range = DialRange::new(100, 300);
    // A zero deadline cannot be met: the path still crosses out, as soon
    // as a path can, with a minimal one-millisecond filler segment.
    let path = generate_random_dial_path(&range, 200, Some(0), DialSpeed::Fast);
    assert!(path.len() >= 2);
    let segs: Vec<_> = path.iter().copied().collect();
    assert_eq!(segs[0].duration_ms, 1);
    let last = segs[segs.len() - 1];
    assert!(!range.contains(last.end));
}

#[test]
fn speed_bands() {
    assert_eq!(DialSpeed::Slow.segment_band(), (2000, 4000));
    assert_eq!(DialSpeed::Medium.segment_band(), (1500, 2500));
    assert_eq!(DialSpeed::Fast.segment_band(), (750, 1250));
}
