//! Timing-model tests: exact window widths and visual timings per
//! difficulty, and the clamped composition.

use osru_core::timing::{AnimationTiming, OsruAR, OsruOD};

#[test]
fn test_od() {
    println!("Testing OD timing great");
    assert_eq!(19_500, OsruOD(1000).timing_great());
    assert_eq!(25_500, OsruOD(900).timing_great());
    assert_eq!(31_500, OsruOD(800).timing_great());
    assert_eq!(37_500, OsruOD(700).timing_great());
    assert_eq!(43_500, OsruOD(600).timing_great());
    assert_eq!(49_500, OsruOD(500).timing_great());
    assert_eq!(55_500, OsruOD(400).timing_great());
    assert_eq!(61_500, OsruOD(300).timing_great());
    assert_eq!(67_500, OsruOD(200).timing_great());
    assert_eq!(73_500, OsruOD(100).timing_great());
    assert_eq!(79_500, OsruOD(0).timing_great());

    println!("Testing OD timing good");
    assert_eq!(59_500, OsruOD(1000).timing_good());
    assert_eq!(67_500, OsruOD(900).timing_good());
    assert_eq!(75_500, OsruOD(800).timing_good());
    assert_eq!(83_500, OsruOD(700).timing_good());
    assert_eq!(91_500, OsruOD(600).timing_good());
    assert_eq!(99_500, OsruOD(500).timing_good());
    assert_eq!(107_500, OsruOD(400).timing_good());
    assert_eq!(115_500, OsruOD(300).timing_good());
    assert_eq!(123_500, OsruOD(200).timing_good());
    assert_eq!(131_500, OsruOD(100).timing_good());
    assert_eq!(139_500, OsruOD(0).timing_good());

    println!("Testing OD timing meh");
    assert_eq!(99_500, OsruOD(1000).timing_meh());
    assert_eq!(109_500, OsruOD(900).timing_meh());
    assert_eq!(119_500, OsruOD(800).timing_meh());
    assert_eq!(129_500, OsruOD(700).timing_meh());
    assert_eq!(139_500, OsruOD(600).timing_meh());
    assert_eq!(149_500, OsruOD(500).timing_meh());
    assert_eq!(159_500, OsruOD(400).timing_meh());
    assert_eq!(169_500, OsruOD(300).timing_meh());
    assert_eq!(179_500, OsruOD(200).timing_meh());
    assert_eq!(189_500, OsruOD(100).timing_meh());
    assert_eq!(199_500, OsruOD(0).timing_meh());

    println!("Testing od multiplication");
    let a = OsruOD(554);
    let b = OsruOD(200);
    assert_eq!(OsruOD(1000), a.compose(b));
    assert_eq!(OsruOD(1108), a.mul_unchecked(b));
}

#[test]
fn test_ar() {
    println!("Testing preempt");
    assert_eq!(1_800_000, OsruAR(0).preempt_time());
    assert_eq!(1_680_000, OsruAR(100).preempt_time());
    assert_eq!(1_560_000, OsruAR(200).preempt_time());
    assert_eq!(1_440_000, OsruAR(300).preempt_time());
    assert_eq!(1_320_000, OsruAR(400).preempt_time());
    assert_eq!(1_200_000, OsruAR(500).preempt_time());
    assert_eq!(1_050_000, OsruAR(600).preempt_time());
    assert_eq!(900_000, OsruAR(700).preempt_time());
    assert_eq!(750_000, OsruAR(800).preempt_time());
    assert_eq!(600_000, OsruAR(900).preempt_time());
    assert_eq!(450_000, OsruAR(1000).preempt_time());

    println!("Testing fadein");
    assert_eq!(1_200_000, OsruAR(0).fade_in_time());
    assert_eq!(800_000, OsruAR(500).fade_in_time());
    assert_eq!(300_000, OsruAR(1000).fade_in_time());

    println!("Testing multiplication");
    let a = OsruAR(500);
    assert_eq!(OsruAR(1000), a.compose(a));
    assert_eq!(OsruAR(2500), a.mul_unchecked(a));
}

#[test]
fn windows_nested_for_sample_difficulties() {
    for od in [0u32, 100, 500, 730, 1000] {
        let d = OsruOD(od);
        let great = d.timing_great();
        let good = d.timing_good();
        let meh = d.timing_meh();
        assert!(0 < great && great <= good && good <= meh);
    }
}

#[test]
fn window_membership_is_open_and_miss_boundary_closed() {
    let t = AnimationTiming::new_from(OsruOD(500), OsruAR(500));
    let hit = 2_000_000;
    // Great window is (hit - 49_500, hit + 49_500), open on both sides.
    assert!(t.is_timing_great(hit, hit));
    assert!(t.is_timing_great(hit, hit - 49_499));
    assert!(!t.is_timing_great(hit, hit - 49_500));
    assert!(t.is_timing_great(hit, hit + 49_499));
    assert!(!t.is_timing_great(hit, hit + 49_500));
    // Meh window is (hit - 149_500, hit + 149_500).
    assert!(!t.is_timing_meh(hit, hit - 149_500));
    assert!(t.is_timing_meh(hit, hit - 149_499));
    assert!(!t.is_timing_meh(hit, hit + 149_500));
    // The miss boundary itself counts as a miss, and never earlier.
    assert!(!t.is_timing_miss(hit, hit + 149_499));
    assert!(t.is_timing_miss(hit, hit + 149_500));
    assert!(t.is_timing_miss(hit, hit + 149_501));
}

#[test]
fn new_from_collects_both_difficulties() {
    let t = AnimationTiming::new_from(OsruOD(800), OsruAR(900));
    assert_eq!(600_000, t.preempt_duration());
    assert_eq!(400_000, t.fadein_duration());
    assert_eq!(31_500, t.timing_great_duration());
    assert_eq!(75_500, t.timing_good_duration());
    assert_eq!(119_500, t.timing_meh_duration());
    assert_eq!(1_400_000, t.fadein_start(2_000_000));
    assert_eq!(1_800_000, t.fadein_end(2_000_000));
    assert_eq!(1_880_500, t.timing_meh_start(2_000_000));
    assert_eq!(2_119_500, t.timing_meh_end(2_000_000));
    assert_eq!(1_968_500, t.timing_great_start(2_000_000));
    assert_eq!(2_031_500, t.timing_great_end(2_000_000));
    assert_eq!(1_924_500, t.timing_good_start(2_000_000));
    assert_eq!(2_075_500, t.timing_good_end(2_000_000));
}
