//! Tests for the supporting modules: pixel mapping and capture test, the
//! shared value types, and the reference-time conversions.

use std::time::Instant;

use osru_core::global::{mergestr, nstr, Bitflags, OsruHitSounds, Volume};
use osru_core::pixel::{cursor_in_range, osru_pos_to_screen_pos, Pix2D, PixRect};
use osru_core::time::{ReferenceTime, SdlTime};

#[test]
fn level_to_screen_is_identity_on_the_nominal_window() {
    let viewport = PixRect::new(0, 0, 640, 480);
    let p = osru_pos_to_screen_pos(&Pix2D::new(100, 200), &viewport);
    assert_eq!(Pix2D { x: 100, y: 200 }, p);
}

#[test]
fn level_to_screen_scales_uniformly() {
    // Double resolution, same aspect ratio: everything doubles, no offset.
    let viewport = PixRect::new(0, 0, 1280, 960);
    let p = osru_pos_to_screen_pos(&Pix2D::new(256, 128), &viewport);
    assert_eq!(Pix2D { x: 512, y: 256 }, p);
}

#[test]
fn level_to_screen_letterboxes_a_wide_viewport() {
    // A 1920x1080 viewport: the height ratio (2.25) wins, and the scaled
    // window is centred horizontally with a 240-pixel offset.
    let viewport = PixRect::new(0, 0, 1920, 1080);
    let p = osru_pos_to_screen_pos(&Pix2D::new(100, 100), &viewport);
    assert_eq!(Pix2D { x: 465, y: 225 }, p);
    // The window's corners map inside the viewport.
    let origin = osru_pos_to_screen_pos(&Pix2D::new(0, 0), &viewport);
    assert_eq!(Pix2D { x: 240, y: 0 }, origin);
    let corner = osru_pos_to_screen_pos(&Pix2D::new(640, 480), &viewport);
    assert_eq!(Pix2D { x: 1680, y: 1080 }, corner);
}

#[test]
fn capture_test_boundary_is_inclusive() {
    let c = Pix2D::new(0, 0);
    assert!(cursor_in_range(&c, &Pix2D::new(150, 0), 150));
    assert!(!cursor_in_range(&c, &Pix2D::new(151, 0), 150));
    assert!(cursor_in_range(&c, &Pix2D::new(106, 106), 150));
    assert!(!cursor_in_range(&c, &Pix2D::new(107, 107), 150));
    assert!(cursor_in_range(&c, &Pix2D::new(-90, -120), 150));
    assert!(cursor_in_range(&Pix2D::new(-100, 50), &Pix2D::new(-100, 50), 0));
}

#[test]
fn pixel_accessors() {
    let mut p = Pix2D::new(3, 4);
    assert_eq!(3, p.x());
    assert_eq!(4, p.y());
    p.set_pix(7, 8);
    assert_eq!(Pix2D { x: 7, y: 8 }, p);
    let r = PixRect::new(1, 2, 30, 40);
    assert_eq!((1, 2, 30, 40), (r.x(), r.y(), r.width(), r.height()));
}

#[test]
fn hitsound_flags_decode() {
    // No bit set: the normal sound alone.
    let s = OsruHitSounds::from_bitflags(Bitflags(0));
    assert!(s.normal && !s.whistle && !s.finish && !s.clap);
    // The normal bit.
    let s = OsruHitSounds::from_bitflags(Bitflags(0b1));
    assert!(s.normal && !s.whistle && !s.finish && !s.clap);
    // Whistle alone: normal is off.
    let s = OsruHitSounds::from_bitflags(Bitflags(0b10));
    assert!(!s.normal && s.whistle && !s.finish && !s.clap);
    let s = OsruHitSounds::from_bitflags(Bitflags(0b1111));
    assert!(s.normal && s.whistle && s.finish && s.clap);
    let s = OsruHitSounds::from_bitflags(Bitflags(0b1100));
    assert!(!s.normal && !s.whistle && s.finish && s.clap);
}

#[test]
fn string_helpers() {
    assert_eq!("", nstr(""));
    assert_eq!("circle", nstr("circle"));
    assert_eq!("assets/track.mp3", mergestr("assets/", "track.mp3"));
    assert_eq!("solo", mergestr("solo", ""));
    assert_eq!(50, Volume::default().0);
}

#[test]
fn device_timestamps_convert_to_session_time() {
    // Anchored at device time 5000 ms, session not yet started: a device
    // timestamp 2500 ms after the anchor is 2.5 s of session time.
    let rt = ReferenceTime::new(Instant::now(), SdlTime(5000));
    assert_eq!(2_500_000, rt.elapsed_sdl_time(SdlTime(7500)));
    // The anchor itself maps to zero.
    assert_eq!(0, rt.elapsed_sdl_time(SdlTime(5000)));
    assert_eq!(0, rt.start_time);
    assert_eq!(SdlTime(5000), rt.ref_sdl_time);
}

#[test]
fn device_timestamps_floor_at_the_session_start() {
    // With a session start offset of 2 s, a device timestamp from 1.5 s
    // after the anchor lies before the start and floors to zero; one from
    // 3 s after the anchor yields the 1 s past the start.
    let mut rt = ReferenceTime::new(Instant::now(), SdlTime(1000));
    rt.start_time = 2_000_000;
    assert_eq!(0, rt.elapsed_sdl_time(SdlTime(2500)));
    assert_eq!(1_000_000, rt.elapsed_sdl_time(SdlTime(4000)));
}

#[test]
fn session_clock_reads_are_monotone_from_start() {
    let rt = ReferenceTime::new(Instant::now(), SdlTime(0));
    let a = rt.elapsed_now();
    let b = rt.elapsed_now();
    assert!(b >= a);
    let c = rt.elapsed_sys_time(Instant::now());
    let d = rt.elapsed_sys_time(Instant::now());
    assert!(d >= c);
}
