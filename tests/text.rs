use progress_bar::eta::{format_remaining, push_eta, remaining_estimate};
use progress_bar::text::{decimal_string, push_track, set_good_size};

#[test]
fn label_shorter_is_padded_on_the_left() {
    assert_eq!(set_good_size("Loading"), "     Loading");
    assert_eq!(set_good_size("Failed"), "      Failed");
    assert_eq!(set_good_size("Success"), "     Success");
    assert_eq!(set_good_size(""), "            ");
}

#[test]
fn label_of_twelve_is_kept() {
    assert_eq!(set_good_size("abcdefghijkl"), "abcdefghijkl");
}

#[test]
fn label_longer_is_cut() {
    assert_eq!(set_good_size("abcdefghijklmnop"), "abcdefghijkl");
    assert_eq!(set_good_size("ééééééééééééé"), "éééééééééééé");
}

#[test]
fn label_normalizing_twice_changes_nothing() {
    for s in ["", "a", "Loading", "abcdefghijkl", "a much longer label"] {
        let once = set_good_size(s);
        assert_eq!(once.chars().count(), 12);
        assert_eq!(set_good_size(&once), once);
    }
}

#[test]
fn decimal_writing() {
    assert_eq!(decimal_string(0), "0");
    assert_eq!(decimal_string(7), "7");
    assert_eq!(decimal_string(10), "10");
    assert_eq!(decimal_string(12345), "12345");
    assert_eq!(decimal_string(u128::MAX), u128::MAX.to_string());
}

fn track(max: usize, width: usize, progress: usize) -> String {
    let mut s = String::new();
    push_track(&mut s, max, width, progress);
    s
}

#[test]
fn track_cells() {
    assert_eq!(track(10, 10, 0), "          ");
    assert_eq!(track(10, 10, 5), "====>     ");
    assert_eq!(track(10, 10, 10), "=========>");
    assert_eq!(track(100, 10, 15), "=>        ");
    assert_eq!(track(3, 6, 2), "===>  ");
    assert_eq!(track(10, 0, 5), "");
    assert_eq!(track(0, 5, 0), "     ");
    assert_eq!(track(10, 5, 20), "=====");
}

#[test]
fn track_lit_cells_match_cell_starts() {
    for max in 1usize..12 {
        for width in 1usize..12 {
            for progress in 0..=max {
                let t: Vec<char> = track(max, width, progress).chars().collect();
                let below = (0..width).filter(|i| i * max / width < progress).count();
                let lit = t.iter().filter(|c| **c != ' ').count();
                assert_eq!(lit, below);
                let edges = t.iter().filter(|c| **c == '>').count();
                assert_eq!(edges, if progress > 0 { 1 } else { 0 });
            }
        }
    }
}

fn eta(max: usize, progress: usize, elapsed: u64) -> String {
    let mut s = String::new();
    push_eta(&mut s, max, progress, elapsed);
    s
}

#[test]
fn no_eta_at_the_ends() {
    assert_eq!(eta(10, 0, 5000), "");
    assert_eq!(eta(10, 10, 5000), "");
    assert_eq!(eta(0, 0, 5000), "");
    assert_eq!(eta(0, 3, 5000), "");
    assert_eq!(eta(10, 5, 5000), " (ETA 5s)");
}

#[test]
fn remaining_is_extrapolated() {
    assert_eq!(remaining_estimate(100, 25, 1000), 3000);
    assert_eq!(remaining_estimate(3, 2, 1000), 500);
    assert_eq!(remaining_estimate(3, 1, 1), 2);
    assert_eq!(remaining_estimate(7, 3, 1), 2);
    assert_eq!(remaining_estimate(10, 12, 1000), 0);
    assert_eq!(remaining_estimate(10, 0, 1000), 0);
}

#[test]
fn eta_bucket_boundaries() {
    assert_eq!(format_remaining(0), "0ms");
    assert_eq!(format_remaining(3000), "3000ms");
    assert_eq!(format_remaining(3001), "4s");
    assert_eq!(format_remaining(110_000), "110s");
    assert_eq!(format_remaining(110_001), "2 minutes");
    assert_eq!(format_remaining(6_600_000), "110 minutes");
    assert_eq!(format_remaining(6_600_001), "2 hours");
    assert_eq!(format_remaining(165_600_000), "46 hours");
    assert_eq!(format_remaining(165_600_001), "2 days");
    assert_eq!(format_remaining(864_000_000), "10 days");
}

#[test]
fn eta_past_the_end_is_zero() {
    assert_eq!(eta(10, 12, 1000), " (ETA 0ms)");
}
