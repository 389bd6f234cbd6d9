use dupefindr::paint::Paint;
use dupefindr::progressbar::{spinner_glyph, ProgressBar, ProgressBarStyle, SPINNER_FRAMES};
use dupefindr::terminal::Screen;

fn tty(rows: u16, cursor_row: u16) -> Screen {
    let screen = Screen::detect(true, Some(rows), Some(cursor_row));
    assert!(screen.is_interactive());
    screen
}

fn bar_line(row: u16, position: u32, total: u32, message: &str) -> Vec<Paint> {
    vec![
        Paint::MoveTo(row),
        Paint::ClearLine,
        Paint::Bar { position, total, message: message.to_string() },
    ]
}

fn spinner_line(row: u16, frame: u32, message: &str) -> Vec<Paint> {
    vec![
        Paint::MoveTo(row),
        Paint::ClearLine,
        Paint::Spinner { glyph: spinner_glyph(frame), message: message.to_string() },
    ]
}

#[test]
fn test_progress_bar_new() {
    let progress_bar = ProgressBar::new(100, Screen::plain());
    assert_eq!(progress_bar.get_style(), ProgressBarStyle::Bar);
    assert_eq!(progress_bar.get_position(), 0);
}

#[test]
fn test_progress_bar_new_spinner() {
    let progress_bar = ProgressBar::new_spinner(Screen::plain());
    assert_eq!(progress_bar.get_style(), ProgressBarStyle::Spinner);
    assert_eq!(progress_bar.get_position(), 0);
    assert_eq!(progress_bar.is_spinning(), false);
}

#[test]
fn test_progress_bar_hidden() {
    let progress_bar = ProgressBar::hidden(Screen::plain());
    assert_eq!(progress_bar.get_style(), ProgressBarStyle::Hidden);
    assert_eq!(progress_bar.get_position(), 0);
}

#[test]
fn test_progress_bar_with_message_chain() {
    let progress_bar = ProgressBar::new(100, Screen::plain()).with_message("Loading...");
    assert_eq!(progress_bar.get_style(), ProgressBarStyle::Bar);
    assert_eq!(progress_bar.get_position(), 0);
    assert_eq!(progress_bar.get_message(), "Loading...");
}

#[test]
fn test_progress_bar_increment() {
    let mut progress_bar = ProgressBar::new(100, Screen::plain());
    progress_bar.increment(10);
    assert_eq!(progress_bar.get_position(), 10);
}

#[test]
fn test_progress_bar_increment_more_than_total() {
    let mut progress_bar = ProgressBar::new(100, Screen::plain());
    progress_bar.increment(200);
    assert_eq!(progress_bar.get_position(), 100);
}

#[test]
fn test_progress_bar_set_message() {
    let mut progress_bar = ProgressBar::new(100, Screen::plain());
    progress_bar.set_message("Loading...");
    assert_eq!(progress_bar.get_message(), "Loading...");
}

#[test]
fn test_progress_bar_println() {
    let mut progress_bar = ProgressBar::new(100, Screen::plain());
    let paint = progress_bar.println("Loading...");
    assert_eq!(paint, vec![Paint::Line("Loading...".to_string())]);
}

#[test]
fn test_progress_bar_with_start_spinner() {
    let progress_bar = ProgressBar::new_spinner(Screen::plain()).with_start_spinner();
    assert_eq!(progress_bar.get_style(), ProgressBarStyle::Spinner);
    assert_eq!(progress_bar.is_spinning(), true);
}

#[test]
fn test_progress_bar_start_spinner() {
    let mut progress_bar = ProgressBar::new_spinner(Screen::plain());
    progress_bar.start_spinner();
    assert_eq!(progress_bar.get_style(), ProgressBarStyle::Spinner);
    assert_eq!(progress_bar.is_spinning(), true);
}

#[test]
fn test_progress_bar_stop_spinner() {
    let mut progress_bar = ProgressBar::new_spinner(Screen::plain()).with_start_spinner();
    progress_bar.stop_spinner();
    assert_eq!(progress_bar.is_spinning(), false);
}

#[test]
fn test_progress_bar_draw_spinner() {
    let mut progress_bar = ProgressBar::new_spinner(Screen::plain());
    let paint = progress_bar.render_spinner(false, None);
    assert_eq!(paint, Vec::<Paint>::new());
}

#[test]
fn test_progress_bar_draw() {
    let progress_bar = ProgressBar::new(100, Screen::plain());
    let paint = progress_bar.draw();
    assert_eq!(paint, Vec::<Paint>::new());
}

#[test]
fn test_progress_bar_finish() {
    let mut progress_bar = ProgressBar::new_spinner(Screen::plain()).with_start_spinner();
    progress_bar.finish();
    assert_eq!(progress_bar.is_spinner_thread_running(), false);
}

#[test]
fn constructors_take_the_cursor_row_on_a_terminal() {
    let screen = tty(24, 7);
    assert_eq!(ProgressBar::new(10, screen).get_row(), 7);
    assert_eq!(ProgressBar::new_spinner(screen).get_row(), 7);
    assert_eq!(ProgressBar::hidden(screen).get_row(), 7);
    assert_eq!(ProgressBar::new(10, Screen::plain()).get_row(), 0);
}

#[test]
fn new_elements_are_empty_and_still() {
    let bar = ProgressBar::new_spinner(tty(24, 0));
    assert_eq!(bar.get_message(), "");
    assert!(!bar.is_spinning());
    assert!(!bar.is_spinner_thread_running());
}

#[test]
fn increments_clamp_at_the_total() {
    for total in [1u32, 7, 100, 1000] {
        for step in [1u32, 3, 10, 999] {
            let mut bar = ProgressBar::new(total, Screen::plain());
            let mut sum: u64 = 0;
            while sum < u64::from(total) + 25 {
                bar.increment(step);
                sum += u64::from(step);
                assert_eq!(u64::from(bar.get_position()), sum.min(u64::from(total)));
            }
            assert_eq!(bar.get_position(), total);
        }
    }
}

#[test]
fn increment_does_not_overflow_the_counter() {
    let mut bar = ProgressBar::new(u32::MAX, Screen::plain());
    bar.increment(u32::MAX - 1);
    assert_eq!(bar.get_position(), u32::MAX - 1);
    bar.increment(5);
    assert_eq!(bar.get_position(), u32::MAX);

    let mut hidden = ProgressBar::hidden(Screen::plain());
    hidden.increment(u32::MAX - 1);
    hidden.increment(5);
    assert_eq!(hidden.get_position(), u32::MAX);
}

#[test]
fn a_bar_with_total_zero_stays_at_zero() {
    let mut bar = ProgressBar::new(0, Screen::plain());
    bar.increment(3);
    assert_eq!(bar.get_position(), 0);
    bar.set_position(9);
    assert_eq!(bar.get_position(), 0);
}

#[test]
fn set_position_is_absolute_and_clamped() {
    let mut bar = ProgressBar::new(100, Screen::plain());
    bar.set_position(40);
    assert_eq!(bar.get_position(), 40);
    bar.set_position(10);
    assert_eq!(bar.get_position(), 10);
    bar.set_position(101);
    assert_eq!(bar.get_position(), 100);

    let mut hidden = ProgressBar::hidden(Screen::plain());
    hidden.set_position(77);
    assert_eq!(hidden.get_position(), 77);
}

#[test]
fn hidden_bar_counts_without_painting() {
    let mut hidden = ProgressBar::hidden(Screen::plain());
    let paint = hidden.increment(5);
    assert_eq!(hidden.get_position(), 5);
    assert_eq!(paint, Vec::<Paint>::new());

    let mut on_tty = ProgressBar::hidden(tty(24, 3));
    assert_eq!(on_tty.increment(5), Vec::<Paint>::new());
    assert_eq!(on_tty.set_message("quiet"), Vec::<Paint>::new());
    assert_eq!(on_tty.draw(), Vec::<Paint>::new());
    assert_eq!(on_tty.get_position(), 5);
}

#[test]
fn spinner_steps_through_its_frames_and_wraps() {
    let mut spinner = ProgressBar::new_spinner(Screen::plain());
    for turn in 1..=(2 * SPINNER_FRAMES) {
        spinner.increment(1000);
        assert_eq!(spinner.get_position(), turn % SPINNER_FRAMES);
    }
    spinner.set_position(SPINNER_FRAMES + 4);
    assert_eq!(spinner.get_position(), 4);
    spinner.set_position(28);
    spinner.increment(1);
    assert_eq!(spinner.get_position(), 0);
}

#[test]
fn spinner_glyphs_follow_the_frame_table() {
    assert_eq!(SPINNER_FRAMES, 29);
    assert_eq!(spinner_glyph(0), '⠁');
    assert_eq!(spinner_glyph(3), '⠙');
    assert_eq!(spinner_glyph(18), '⠦');
    assert_eq!(spinner_glyph(28), '⠈');
    assert_eq!(spinner_glyph(29), spinner_glyph(0));
    assert_eq!(spinner_glyph(29 + 9), '⠲');
}

#[test]
fn set_message_then_read_gives_the_last_message() {
    let mut bar = ProgressBar::new(100, Screen::plain());
    bar.set_message("one");
    bar.increment(3);
    bar.set_message("two");
    bar.increment(4);
    bar.set_position(50);
    assert_eq!(bar.get_message(), "two");
    assert_eq!(bar.get_position(), 50);
}

#[test]
fn updates_repaint_in_place_on_a_terminal() {
    let mut bar = ProgressBar::new(100, tty(24, 5)).with_message("copy");
    assert_eq!(bar.increment(10), bar_line(5, 10, 100, "copy"));
    assert_eq!(bar.set_position(60), bar_line(5, 60, 100, "copy"));
    assert_eq!(bar.set_message("move"), bar_line(5, 60, 100, "move"));
    assert_eq!(bar.draw(), bar_line(5, 60, 100, "move"));
    assert_eq!(bar.render_bar(), bar_line(5, 60, 100, "move"));
    assert_eq!(bar.get_row(), 5);
}

#[test]
fn spinner_repaints_its_current_frame() {
    let mut spinner = ProgressBar::new_spinner(tty(24, 2)).with_message("scan");
    assert_eq!(spinner.draw(), spinner_line(2, 0, "scan"));
    assert_eq!(spinner.increment(1), spinner_line(2, 1, "scan"));
    assert_eq!(spinner.increment(1), spinner_line(2, 2, "scan"));
}

#[test]
fn render_bar_ignores_the_style_and_is_empty_off_a_terminal() {
    let spinner = ProgressBar::new_spinner(tty(24, 2));
    assert_eq!(spinner.render_bar(), bar_line(2, 0, 1, ""));
    let plain = ProgressBar::new(10, Screen::plain());
    assert_eq!(plain.render_bar(), Vec::<Paint>::new());
}

#[test]
fn render_spinner_takes_the_row_it_is_given() {
    let mut spinner = ProgressBar::new_spinner(tty(24, 2)).with_message("scan");
    assert_eq!(spinner.render_spinner(false, Some(9)), spinner_line(9, 0, "scan"));
    assert_eq!(spinner.get_row(), 9);
    assert_eq!(spinner.get_position(), 0);
    assert_eq!(spinner.render_spinner(true, None), spinner_line(9, 0, "scan"));
    assert_eq!(spinner.get_position(), 1);

    let mut bar = ProgressBar::new(10, tty(24, 2));
    assert_eq!(bar.render_spinner(true, Some(9)), Vec::<Paint>::new());
    assert_eq!(bar.get_row(), 2);
    assert_eq!(bar.get_position(), 0);
}

#[test]
fn println_on_a_terminal_pushes_the_element_down() {
    let mut bar = ProgressBar::new(100, tty(24, 5)).with_message("copy");
    let mut expected = vec![Paint::MoveTo(5), Paint::ClearLine, Paint::Text("X".to_string())];
    expected.extend(bar_line(6, 0, 100, "copy"));
    assert_eq!(bar.println("X"), expected);
    assert_eq!(bar.get_row(), 6);
}

#[test]
fn println_at_the_bottom_scrolls_instead() {
    let mut bar = ProgressBar::new(100, tty(6, 5));
    let mut expected = vec![
        Paint::ScrollUp(1),
        Paint::MoveTo(4),
        Paint::ClearLine,
        Paint::Text("X".to_string()),
    ];
    expected.extend(bar_line(5, 0, 100, ""));
    assert_eq!(bar.println("X"), expected);
    assert_eq!(bar.get_row(), 5);
}

#[test]
fn println_on_a_screen_of_one_row() {
    let mut bar = ProgressBar::new(100, tty(1, 0));
    let mut expected = vec![
        Paint::ScrollUp(1),
        Paint::MoveTo(0),
        Paint::ClearLine,
        Paint::Text("X".to_string()),
    ];
    expected.extend(bar_line(0, 0, 100, ""));
    assert_eq!(bar.println("X"), expected);
    assert_eq!(bar.get_row(), 0);
}

#[test]
fn eprintln_colours_on_a_terminal_and_uses_stderr_off_it() {
    let mut plain = ProgressBar::new(100, Screen::plain());
    assert_eq!(plain.eprintln("bad"), vec![Paint::ErrorLine("bad".to_string())]);
    assert_eq!(plain.get_row(), 0);

    let mut spinner = ProgressBar::new_spinner(tty(24, 5));
    let mut expected =
        vec![Paint::MoveTo(5), Paint::ClearLine, Paint::ErrorText("bad".to_string())];
    expected.extend(spinner_line(6, 0, ""));
    assert_eq!(spinner.eprintln("bad"), expected);
}

#[test]
fn println_off_a_terminal_is_one_plain_line() {
    for text in ["X", "", "two words", "\u{1b}[2Knot an escape here"] {
        let mut bar = ProgressBar::new_spinner(Screen::plain());
        assert_eq!(bar.println(text), vec![Paint::Line(text.to_string())]);
    }
}

#[test]
fn start_spinner_is_a_no_op_for_other_styles() {
    let mut bar = ProgressBar::new(10, Screen::plain());
    assert!(!bar.start_spinner());
    assert!(!bar.is_spinning());
    assert!(!bar.is_spinner_thread_running());
    let hidden = ProgressBar::hidden(Screen::plain()).with_start_spinner();
    assert!(!hidden.is_spinning());
    assert!(!hidden.is_spinner_thread_running());
}

#[test]
fn start_spinner_asks_for_one_task_only() {
    let mut spinner = ProgressBar::new_spinner(Screen::plain());
    assert!(spinner.start_spinner());
    assert!(spinner.is_spinner_thread_running());
    assert!(!spinner.start_spinner());
    spinner.stop_spinner();
    assert!(!spinner.start_spinner());
    assert!(spinner.is_spinning());
    spinner.finish();
    assert!(spinner.start_spinner());
}

#[test]
fn stop_then_finish_leaves_no_animation() {
    let mut spinner = ProgressBar::new_spinner(tty(24, 0));
    assert!(!spinner.is_animating());
    spinner.start_spinner();
    assert!(spinner.is_animating());
    assert_eq!(spinner.tick(), (true, spinner_line(0, 0, "")));
    spinner.stop_spinner();
    assert!(!spinner.is_animating());
    assert_eq!(spinner.tick(), (true, vec![]));
    spinner.finish();
    assert!(!spinner.is_animating());
    assert!(!spinner.is_spinner_thread_running());
    assert_eq!(spinner.tick(), (false, vec![]));
    spinner.finish();
    assert!(!spinner.is_spinner_thread_running());
    assert_eq!(spinner.tick(), (false, vec![]));
}

#[test]
fn finish_leaves_bars_and_hidden_elements_alone() {
    let mut bar = ProgressBar::new(10, Screen::plain());
    bar.increment(4);
    bar.finish();
    bar.finish_and_clear();
    assert_eq!(bar.get_position(), 4);
    assert!(!bar.is_spinner_thread_running());
}

#[test]
fn tick_animates_frame_by_frame() {
    let mut spinner = ProgressBar::new_spinner(tty(24, 3)).with_message("scan").with_start_spinner();
    for frame in 0..(SPINNER_FRAMES + 3) {
        let (keep, paint) = spinner.tick();
        assert!(keep);
        assert_eq!(paint, spinner_line(3, frame % SPINNER_FRAMES, "scan"));
    }
}

#[test]
fn tick_off_a_terminal_paints_nothing_and_stands_still() {
    let mut spinner = ProgressBar::new_spinner(Screen::plain()).with_start_spinner();
    assert_eq!(spinner.tick(), (true, vec![]));
    assert_eq!(spinner.get_position(), 0);
}
