use speed_leds::mapper::map_speed_to_leds;

// The band table's lower bounds and outputs; a band is closed by the next
// entry's lower bound, and the last band is open-ended.
const BANDS: [(u32, (u32, u32, u32)); 14] = [
    (0, (0, 0, 0)),
    (1, (25, 0, 0)),
    (6, (50, 0, 0)),
    (11, (75, 0, 0)),
    (16, (100, 0, 0)),
    (21, (100, 25, 0)),
    (26, (100, 50, 0)),
    (31, (100, 75, 0)),
    (36, (100, 100, 0)),
    (41, (100, 100, 25)),
    (46, (100, 100, 50)),
    (51, (100, 100, 75)),
    (56, (100, 100, 100)),
    (61, (100, 100, 100)),
];

#[test]
fn band_boundaries() {
    assert_eq!(map_speed_to_leds(0), (0, 0, 0));
    assert_eq!(map_speed_to_leds(1), (25, 0, 0));
    assert_eq!(map_speed_to_leds(5), (25, 0, 0));
    assert_eq!(map_speed_to_leds(6), (50, 0, 0));
    assert_eq!(map_speed_to_leds(10), (50, 0, 0));
    assert_eq!(map_speed_to_leds(11), (75, 0, 0));
    assert_eq!(map_speed_to_leds(15), (75, 0, 0));
    assert_eq!(map_speed_to_leds(16), (100, 0, 0));
    assert_eq!(map_speed_to_leds(20), (100, 0, 0));
    assert_eq!(map_speed_to_leds(21), (100, 25, 0));
    assert_eq!(map_speed_to_leds(25), (100, 25, 0));
    assert_eq!(map_speed_to_leds(26), (100, 50, 0));
    assert_eq!(map_speed_to_leds(30), (100, 50, 0));
    assert_eq!(map_speed_to_leds(31), (100, 75, 0));
    assert_eq!(map_speed_to_leds(35), (100, 75, 0));
    assert_eq!(map_speed_to_leds(36), (100, 100, 0));
    assert_eq!(map_speed_to_leds(40), (100, 100, 0));
    assert_eq!(map_speed_to_leds(41), (100, 100, 25));
    assert_eq!(map_speed_to_leds(45), (100, 100, 25));
    assert_eq!(map_speed_to_leds(46), (100, 100, 50));
    assert_eq!(map_speed_to_leds(50), (100, 100, 50));
    assert_eq!(map_speed_to_leds(51), (100, 100, 75));
    assert_eq!(map_speed_to_leds(55), (100, 100, 75));
    assert_eq!(map_speed_to_leds(56), (100, 100, 100));
    assert_eq!(map_speed_to_leds(60), (100, 100, 100));
    assert_eq!(map_speed_to_leds(61), (100, 100, 100));
    assert_eq!(map_speed_to_leds(1000), (100, 100, 100));
}

#[test]
fn bands_exhaustive_and_non_overlapping() {
    for s in 0u32..=1000 {
        let mut matches = 0;
        let mut output = None;
        for (i, &(lo, out)) in BANDS.iter().enumerate() {
            let hi_ok = match BANDS.get(i + 1) {
                Some(&(next_lo, _)) => s < next_lo,
                None => true,
            };
            if lo <= s && hi_ok {
                matches += 1;
                output = Some(out);
            }
        }
        assert_eq!(matches, 1, "speed {} must fall in exactly one band", s);
        assert_eq!(map_speed_to_leds(s), output.unwrap());
    }
}

#[test]
fn duties_are_monotonic() {
    let mut prev = map_speed_to_leds(0);
    for s in 1u32..=1000 {
        let cur = map_speed_to_leds(s);
        assert!(cur.0 >= prev.0, "channel 1 dropped at speed {}", s);
        assert!(cur.1 >= prev.1, "channel 2 dropped at speed {}", s);
        assert!(cur.2 >= prev.2, "channel 3 dropped at speed {}", s);
        assert!(
            cur.0 + cur.1 + cur.2 >= prev.0 + prev.1 + prev.2,
            "total capacity dropped at speed {}",
            s
        );
        prev = cur;
    }
}

#[test]
fn end_to_end_independent_variant() {
    assert_eq!(map_speed_to_leds(23), (100, 25, 0));
    assert_eq!(map_speed_to_leds(0), (0, 0, 0));
    assert_eq!(map_speed_to_leds(61), (100, 100, 100));
}

#[test]
fn saturates_at_top() {
    assert_eq!(map_speed_to_leds(u32::MAX), (100, 100, 100));
}
