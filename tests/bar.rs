use progress_bar::pb::{info_line_string, ProgressBar};
use progress_bar::progress_bar::ProgressBar as PlainBar;
use progress_bar::{Color, Style};

const FRAME_END: &str = "\n\x1B[1A";

#[test]
fn fresh_bar() {
    let bar = ProgressBar::new(81);
    assert_eq!(bar.max(), 81);
    assert_eq!(bar.progression(), 0);
    assert_eq!(bar.width(), 50);
    assert_eq!(bar.action(), "");
    assert!(!bar.has_eta());
    assert!(ProgressBar::new_with_eta(81).has_eta());
}

#[test]
fn color_and_style_codes() {
    assert_eq!(Color::White.code(), "\x1B[97m");
    assert_eq!(Color::Black.code(), "\x1B[30m");
    assert_eq!(Color::Red.code(), "\x1B[31m");
    assert_eq!(Color::LightCyan.code(), "\x1B[96m");
    assert_eq!(Style::Normal.code(), "\x1B[0m");
    assert_eq!(Style::Bold.code(), "\x1B[1m");
    assert_eq!(Style::Reverse.code(), "\x1B[7m");
    assert_eq!(Style::StrikeThrough.code(), "\x1B[9m");
}

#[test]
fn frame_of_a_bar() {
    let mut bar = ProgressBar::new(10);
    bar.set_width(10);
    let out = bar.set_action("Loading", Color::Blue, Style::Bold);
    assert_eq!(
        out,
        format!("\x1B[1m\x1B[34m     Loading\x1B[0m\x1B[K [          ] 0/10{FRAME_END}")
    );
    let out = bar.set_progression(5);
    assert_eq!(
        out,
        format!("\x1B[1m\x1B[34m     Loading\x1B[0m\x1B[K [====>     ] 5/10{FRAME_END}")
    );
    assert_eq!(bar.display(), out);
    assert_eq!(bar.display(), out);
    let out = bar.inc();
    assert_eq!(bar.progression(), 6);
    assert_eq!(
        out,
        format!("\x1B[1m\x1B[34m     Loading\x1B[0m\x1B[K [=====>    ] 6/10{FRAME_END}")
    );
    let out = bar.set_max(20);
    assert_eq!(
        out,
        format!("\x1B[1m\x1B[34m     Loading\x1B[0m\x1B[K [==>       ] 6/20{FRAME_END}")
    );
}

#[test]
fn frame_with_zero_width_and_overshoot() {
    let mut bar = ProgressBar::new(0);
    let out = bar.set_width(0);
    assert_eq!(out, format!("\x1B[0m\x1B[30m\x1B[0m\x1B[K [] 0/0{FRAME_END}"));
    let mut bar = ProgressBar::new(4);
    bar.set_width(4);
    let out = bar.set_progression(9);
    assert_eq!(out, format!("\x1B[0m\x1B[30m\x1B[0m\x1B[K [====] 9/4{FRAME_END}"));
}

#[test]
fn frame_with_eta() {
    let mut bar = ProgressBar::new_with_eta(4);
    bar.set_width(4);
    bar.set_progression(1);
    assert_eq!(
        bar.render(1000),
        format!("\x1B[0m\x1B[30m\x1B[0m\x1B[K [>   ] 1/4 (ETA 3000ms){FRAME_END}")
    );
    bar.set_progression(4);
    assert_eq!(
        bar.render(1000),
        format!("\x1B[0m\x1B[30m\x1B[0m\x1B[K [===>] 4/4{FRAME_END}")
    );
    bar.disable_eta();
    bar.set_progression(1);
    assert_eq!(
        bar.render(1000),
        format!("\x1B[0m\x1B[30m\x1B[0m\x1B[K [>   ] 1/4{FRAME_END}")
    );
}

#[test]
fn enable_eta_resets_progress() {
    let mut bar = ProgressBar::new(10);
    bar.set_progression(7);
    bar.enable_eta();
    assert_eq!(bar.progression(), 0);
    assert!(bar.has_eta());
    bar.disable_eta();
    assert!(!bar.has_eta());
}

#[test]
fn info_line_then_frame() {
    let mut bar = ProgressBar::new(10);
    bar.set_width(2);
    bar.set_progression(3);
    let out = bar.print_info("Failed", "to load a page", Color::Red, Style::Blink);
    assert_eq!(
        out,
        format!(
            "\x1B[5m\x1B[31m      Failed\x1B[0m to load a page\x1B[K\n\x1B[0m\x1B[30m\x1B[0m\x1B[K [> ] 3/10{FRAME_END}"
        )
    );
    assert_eq!(bar.progression(), 3);
    assert_eq!(
        info_line_string("Warning", "empty page here", Color::Yellow, Style::Underlined),
        "\x1B[4m\x1B[33m     Warning\x1B[0m empty page here\x1B[K\n"
    );
}

#[test]
fn final_info_and_finalize_reset_progress() {
    let mut bar = ProgressBar::new(10);
    bar.set_progression(10);
    let out = bar.print_final_info("Loading", "Load complete", Color::LightGreen, Style::Bold);
    assert_eq!(out, "\x1B[1m\x1B[92m     Loading\x1B[0m Load complete\x1B[K\n");
    assert_eq!(bar.progression(), 0);
    bar.set_progression(4);
    assert_eq!(bar.finalize(), "\n");
    assert_eq!(bar.progression(), 0);
}

#[test]
fn test_test() {
    let mut test = ProgressBar::new_with_eta(100);
    test.set_action("Loading", Color::Blue, Style::Bold);
    for i in 0..100 {
        test.inc();
        if i == 14 {
            let out = test.print_info("Failed", "to load a page", Color::Red, Style::Blink);
            assert!(out.starts_with("\x1B[5m\x1B[31m      Failed\x1B[0m to load a page\x1B[K\n"));
        } else if i == 48 {
            test.print_info("Found", "something interessant", Color::LightGreen, Style::Normal);
        } else if i == 75 {
            test.print_info("Warning", "empty page here", Color::Yellow, Style::Underlined);
        }
    }
    assert_eq!(test.progression(), 100);
    test.finalize();
    assert_eq!(test.progression(), 0);

    let mut test = ProgressBar::new(100);
    test.set_action("Loading", Color::Blue, Style::Bold);
    for i in 0..100 {
        test.inc();
        if i == 14 {
            let out = test.print_info("Failed", "to load a page", Color::Red, Style::Blink);
            assert!(out.starts_with("\x1B[5m\x1B[31m      Failed\x1B[0m to load a page\x1B[K\n"));
            assert!(out.ends_with(" 15/100\n\x1B[1A"));
        } else if i == 48 {
            test.print_info("Found", "something interessant", Color::LightGreen, Style::Normal);
        } else if i == 75 {
            test.print_info("Warning", "empty page here", Color::Yellow, Style::Underlined);
        }
    }
    assert_eq!(test.progression(), 100);
    let out = test.print_final_info("Loading", "Load complete", Color::LightGreen, Style::Bold);
    assert_eq!(out, "\x1B[1m\x1B[92m     Loading\x1B[0m Load complete\x1B[K\n");
    assert_eq!(test.progression(), 0);
}

#[test]
fn plain_bar_frames() {
    let mut bar = PlainBar::new(10);
    bar.set_width(10);
    let out = bar.set_action("Loading", Color::Blue, Style::Bold);
    assert_eq!(out, format!("\x1B[1m\x1B[34m     Loading\x1B[0m [          ] 0/10{FRAME_END}"));
    let out = bar.set_progression(4);
    assert_eq!(out, format!("\x1B[1m\x1B[34m     Loading\x1B[0m [===>      ] 4/10{FRAME_END}"));
    let out = bar.inc();
    assert_eq!(bar.progression(), 5);
    assert_eq!(out, format!("\x1B[1m\x1B[34m     Loading\x1B[0m [====>     ] 5/10{FRAME_END}"));
    let out = bar.print_info("Found", "it", Color::Green, Style::Normal);
    assert_eq!(
        out,
        format!(
            "\x1B[0m\x1B[32m       Found\x1B[0m it\x1B[K\n\x1B[1m\x1B[34m     Loading\x1B[0m [====>     ] 5/10{FRAME_END}"
        )
    );
    assert_eq!(bar.display(), format!("\x1B[1m\x1B[34m     Loading\x1B[0m [====>     ] 5/10{FRAME_END}"));
}
