//! Wrapping, columns, clocks, figures and the geometry of panes and dialogs.

use chrono::{DateTime, Local, Timelike};
use clauth_tui::chrome;
use clauth_tui::chrome::Area;
use clauth_tui::clock;
use clauth_tui::clock::{ClockFormat, Day, ProfileActivity, ResetDisplay, ResetFmt, Stamp};
use clauth_tui::figures;
use clauth_tui::figures::{GaugeFit, WindowCells};
use clauth_tui::forms::{Banner, BannerSeverity, Toast, ToastKind};
use clauth_tui::host::Host;
use clauth_tui::input::InputState;
use clauth_tui::layout;
use clauth_tui::modal_box;
use clauth_tui::model::FetchStatus;
use clauth_tui::paint;
use clauth_tui::paint::{Fill, Line, Role, Span};
use clauth_tui::tabs::Tab;
use clauth_tui::wrapping;

fn words(l: &Line) -> String {
    l.spans.iter().map(|s| s.text.as_str()).collect()
}

fn joined(v: &Vec<Span>) -> String {
    v.iter().map(|s| s.text.as_str()).collect()
}

fn screen(width: u16, height: u16) -> Area {
    Area { x: 0, y: 0, width, height }
}

// ── wrapping ────────────────────────────────────────────────────────────────

#[test]
fn words_wrap_greedily_and_long_ones_are_cut() {
    assert_eq!(
        wrapping::wrap_words("one two three", 7),
        vec!["one two".to_string(), "three".to_string()],
    );
    assert_eq!(
        wrapping::wrap_words("abcdefgh ij", 3),
        vec!["abc".to_string(), "def".to_string(), "gh".to_string(), "ij".to_string()],
    );
    assert_eq!(wrapping::wrap_words("  ", 5), vec!["".to_string()]);
    assert_eq!(wrapping::wrap_words("keep", 0), vec!["keep".to_string()]);
}

#[test]
fn no_wrapped_line_is_too_wide_and_nothing_visible_is_lost() {
    let s = "the quick brown fox jumps over supercalifragilistic dogs";
    for width in 1..20 {
        for lines in [wrapping::wrap_words(s, width), wrapping::word_wrap(s, width)] {
            assert!(lines.iter().all(|l| l.chars().count() <= width));
            let kept: String = lines.concat().chars().filter(|c| !c.is_whitespace()).collect();
            let want: String = s.chars().filter(|c| !c.is_whitespace()).collect();
            assert_eq!(kept, want);
        }
        assert_eq!(wrapping::wrap_words(s, width), wrapping::word_wrap(s, width));
    }
}

#[test]
fn words_are_runs_without_white_space() {
    assert_eq!(
        wrapping::split_words(" a\tbc \u{a0}d "),
        vec!["a".to_string(), "bc".to_string(), "d".to_string()],
    );
    assert!(wrapping::split_words(" \n").is_empty());
}

// ── columns ─────────────────────────────────────────────────────────────────

#[test]
fn wide_characters_take_two_columns() {
    let v = vec![
        paint::span("ab", paint::ink(Role::Text)),
        paint::span("日本", paint::ink(Role::Text)),
    ];
    assert_eq!(paint::columns_of(&v), 6);
    assert_eq!(paint::chars_count(&v), 4);
}

#[test]
fn the_selection_bar_reaches_the_edge() {
    let l = layout::highlight_row(paint::single("日本", paint::ink(Role::Text)), 10);
    assert!(l.selected);
    assert_eq!(words(&l), "日本      ");
    let l = layout::select_line(paint::single("name", paint::ink(Role::Text)), true, false, 6);
    assert_eq!(words(&l), "name  ");
    assert_eq!(l.spans[1].style.fill, Fill::Hover);
    let l = layout::select_line(paint::single("name", paint::ink(Role::Text)), false, false, 6);
    assert!(!l.selected);
    assert_eq!(words(&l), "name");
}

#[test]
fn titles_are_in_capitals() {
    let c = layout::section_box("straße", false, true);
    assert_eq!(joined(&c.title), " STRASSE ");
    assert_eq!(c.title[0].style.role, Role::Accent2);
    assert!(c.title[0].style.italic);
    assert!(!c.title[0].style.bold);
    let c = layout::section_box_verbatim("Work", true, false);
    assert_eq!(joined(&c.title), " Work ");
    assert_eq!(c.border, Role::RuleStrong);
    let c = layout::section_box_loading("usage", false, false, "⠋");
    assert_eq!(joined(&c.title), " USAGE ⠋ ");
}

#[test]
fn key_cells_line_up() {
    assert_eq!(layout::key_cell("key", 6, 2), "key     ");
    assert_eq!(layout::key_cell("longer key", 6, 2), "longer key  ");
}

#[test]
fn the_picker_takes_three_tenths_of_the_body() {
    assert_eq!(layout::selector_width(10), 20);
    assert_eq!(layout::selector_width(100), 30);
    assert_eq!(layout::selector_width(500), 40);
    assert_eq!(layout::selector_width(65535), 40);
}

#[test]
fn the_caret_counts_characters() {
    let mut f = InputState::new("né");
    assert_eq!(layout::head_cols(&f), 2);
    f.left();
    assert_eq!(layout::head_cols(&f), 1);
}

#[test]
fn the_scrollbar_stays_on_its_track() {
    assert_eq!(layout::scroll_thumb(10, 0, 10, 5), None);
    assert_eq!(layout::scroll_thumb(100, 0, 10, 10), Some((0, 1)));
    assert_eq!(layout::scroll_thumb(100, 90, 10, 10), Some((9, 1)));
    assert_eq!(layout::scroll_thumb(20, 5, 10, 10), Some((2, 5)));
}

#[test]
fn the_focused_row_stays_on_screen() {
    assert_eq!(layout::scroll_offset(5, 10, (4, 5)), 0);
    assert_eq!(layout::scroll_offset(20, 10, (0, 1)), 0);
    assert_eq!(layout::scroll_offset(20, 10, (9, 10)), 3);
    assert_eq!(layout::scroll_offset(20, 10, (19, 20)), 10);
}

#[test]
fn notes_hang_under_their_row() {
    let lines = layout::help_tooltip_lines("one two three", 12);
    assert_eq!(words(&lines[0]), " └ one two");
    assert_eq!(words(&lines[1]), "   three");
    assert_eq!(lines[0].spans[1].style.role, Role::Faint);
    let lines = layout::invalid_tooltip_lines("no", 12);
    assert_eq!(lines[0].spans[1].style.role, Role::Danger);
    let lines = layout::rail_hint_lines("one two three", 12, true);
    assert_eq!(words(&lines[1]), "│ three");
}

// ── clocks ──────────────────────────────────────────────────────────────────

fn stamp(number: i32, day: u32, weekday: u32, hour: u32, minute: u32) -> Stamp {
    Stamp { number, year: 2026, month: 6, day, weekday, hour, minute }
}

#[test]
fn a_stamp_names_its_day_when_it_is_not_today() {
    let now = stamp(1000, 6, 5, 9, 0);
    let show = |t: Stamp| clock::clock_text(&t, &now, ClockFormat::H24, Day::Qualify);
    assert_eq!(show(stamp(1000, 6, 5, 17, 5)), "17:05");
    assert_eq!(show(stamp(1001, 7, 6, 0, 30)), "sun 00:30");
    assert_eq!(show(stamp(1007, 13, 5, 9, 0)), "jun 13, 09:00");
    assert_eq!(show(stamp(999, 5, 4, 9, 0)), "jun 5, 09:00");
    assert_eq!(
        clock::clock_text(&stamp(1007, 13, 5, 9, 0), &now, ClockFormat::H24, Day::TimeOnly),
        "09:00",
    );
}

#[test]
fn the_twelve_hour_clock_has_no_hour_zero() {
    let now = stamp(1000, 6, 5, 9, 0);
    let show = |hour: u32| {
        clock::clock_text(&stamp(1000, 6, 5, hour, 7), &now, ClockFormat::H12, Day::Qualify)
    };
    assert_eq!(show(0), "12:07am");
    assert_eq!(show(11), "11:07am");
    assert_eq!(show(12), "12:07pm");
    assert_eq!(show(23), "11:07pm");
}

#[test]
fn resets_are_shown_in_local_time() {
    let now: i64 = 1_750_000_000;
    let at = DateTime::from_timestamp(now + 3600, 0).unwrap().with_timezone(&Local);
    let time = format!("{:02}:{:02}", at.hour(), at.minute());
    let both = ResetFmt { display: ResetDisplay::Both, clock: ClockFormat::H24 };
    assert_eq!(clock::reset_column(3600, now, "1h", both), format!("1h · {time}"));
    assert_eq!(clock::reset_suffix(3600, now, "1h", both, 40), format!(" (1h · {time})"));
    assert_eq!(clock::reset_suffix(3600, now, "1h", both, 20), " (1h)");
    let clock_only = ResetFmt::from_state(ResetDisplay::Clock, ClockFormat::H24);
    assert!(clock_only.shows_clock());
    assert!(clock::reset_phrase(3600, now, "1h", clock_only).ends_with(&time));
    assert!(clock::reset_phrase(3600, now, "1h", clock_only).starts_with("resets at "));
    assert!(clock::reset_pill(3600, now, "1h", clock_only).starts_with("until "));
    assert!(clock::reset_resume(3600, now, "1h", clock_only).starts_with("at "));
}

#[test]
fn overdue_resets_show_no_clock() {
    let both = ResetFmt { display: ResetDisplay::Both, clock: ClockFormat::H24 };
    assert_eq!(clock::reset_phrase(0, 1_750_000_000, "now", both), "resets in now");
    assert_eq!(clock::reset_pill(-5, 1_750_000_000, "now", both), "now");
    let plain = ResetFmt { display: ResetDisplay::Relative, clock: ClockFormat::H12 };
    assert_eq!(clock::reset_resume(60, 1_750_000_000, "1m", plain), "in ~1m");
    assert_eq!(clock::reset_column(60, 1_750_000_000, "1m", plain), "1m");
}

#[test]
fn the_clock_is_left_out_where_the_calendar_ends() {
    let both = ResetFmt { display: ResetDisplay::Both, clock: ClockFormat::H24 };
    let plain = ResetFmt { display: ResetDisplay::Relative, clock: ClockFormat::H24 };
    let last: i64 = (clock::LAST_DAY - 719_163) * 86_400;
    assert!(clock::can_show(60, 1_750_000_000, both));
    assert!(clock::can_show(60, last - 61, both));
    assert!(!clock::can_show(60, last - 60, both));
    assert!(!clock::can_show(60, last, both));
    assert!(clock::can_show(60, last, plain));
    assert!(clock::can_show(60, last + 86_400, both));
    assert!(clock::can_show(i64::MAX, i64::MAX, both));
}

#[test]
fn countdowns_are_kept_beside_a_clock() {
    assert_eq!(
        clock::phrase_text("2h", Some("17:05"), ResetDisplay::Both),
        "resets in 2h (17:05)",
    );
    assert_eq!(clock::phrase_text("2h", Some("17:05"), ResetDisplay::Clock), "resets at 17:05");
    assert_eq!(clock::pill_text("2h", Some("17:05"), ResetDisplay::Both), "2h (17:05)");
    assert_eq!(clock::resume_text("2h", None, ResetDisplay::Clock), "in ~2h");
    assert_eq!(clock::reset_in_secs(Some(90), 60), Some(30));
    assert_eq!(clock::reset_in_secs(None, 60), None);
}

#[test]
fn ages_are_told_in_their_largest_unit() {
    let hour = 3_600_000;
    let age = |ms: u64| clock::relative_age(0, ms, "1970-01-01T00:00:00Z");
    assert_eq!(age(59_999), "just now");
    assert_eq!(age(60_000), "1m ago");
    assert_eq!(age(hour), "1h ago");
    assert_eq!(age(23 * hour), "23h ago");
    assert_eq!(age(24 * hour), "1d ago");
    assert_eq!(age(7 * 24 * hour), "1w ago");
    assert_eq!(age(30 * 24 * hour), "1970-01-01");
    assert_eq!(clock::relative_age(9, 3, "x"), "just now");
}

#[test]
fn moments_are_read_from_date_and_time() {
    assert_eq!(clock::clock_label("2026-06-06T10:14:00Z", true), "jun 6, 10:14 utc");
    assert_eq!(clock::clock_label("2026-12-24T00:01:00Z", false), "dec 24, 00:01");
    assert_eq!(clock::clock_label("soon", true), "soon");
}

#[test]
fn spinners_turn_and_verbs_tell_what_is_done() {
    let frames = vec!["a".to_string(), "b".to_string(), "c".to_string()];
    assert_eq!(clock::spinner_frame(0, &frames), "a");
    assert_eq!(clock::spinner_frame(5, &frames), "c");
    assert_eq!(clock::activity_verb(ProfileActivity::Fetching), "fetching");
}

// ── figures ─────────────────────────────────────────────────────────────────

fn host() -> Host {
    Host {
        product: "Agent Code".to_string(),
        command: "agent".to_string(),
        family: "agent".to_string(),
        brand: "Agent".to_string(),
        site: "agent.example".to_string(),
    }
}

#[test]
fn cells_are_cut_or_filled() {
    assert_eq!(figures::fixed("ab", 4), "ab  ");
    assert_eq!(figures::fixed("abcdef", 4), "abc…");
    assert_eq!(figures::fixed("abc", 0), "");
}

#[test]
fn plans_are_named_without_their_brand() {
    assert_eq!(figures::account_type_label(&host(), false, true, "Agent Max 20x"), "Max 20x");
    assert_eq!(figures::account_type_label(&host(), false, true, "Team"), "Team");
    assert_eq!(figures::account_type_label(&host(), false, false, "Agent Max"), "API");
    assert_eq!(figures::account_type_label(&host(), true, true, "Agent Max"), "Codex");
}

#[test]
fn stale_readings_have_a_cue() {
    assert_eq!(figures::fetch_cue_color(true, Some(FetchStatus::Cached)), Some(Role::Warning));
    assert_eq!(figures::fetch_cue_color(true, Some(FetchStatus::Failed)), Some(Role::Danger));
    assert_eq!(figures::fetch_cue_color(true, Some(FetchStatus::Fresh)), None);
    assert_eq!(figures::fetch_cue_color(false, Some(FetchStatus::Failed)), None);
}

#[test]
fn bars_have_their_length() {
    assert_eq!(figures::bar_string_with_cells(2, 5), "██░░░");
    assert_eq!(figures::bar_string_with_cells(9, 3), "███");
    assert_eq!(figures::summary_cells(26, true), 10);
    assert_eq!(figures::summary_cells(13, true), 6);
    assert_eq!(figures::summary_cells(11, true), 0);
    assert_eq!(figures::summary_cells(26, false), 0);
}

#[test]
fn a_window_is_summed_up_as_far_as_there_is_room() {
    let w = WindowCells {
        filled: 3,
        percent: " 31".to_string(),
        heat: Role::Success,
        suffix: Some(" (2h)".to_string()),
    };
    let show = |width: usize| {
        joined(&figures::window_summary_spans_bracketed(Some(&w), width, true, None))
    };
    assert_eq!(show(30), "[███░░░░░░░]  31% (2h)");
    assert_eq!(show(17), "[███░░░░░░░]  31%");
    assert_eq!(show(8), " 31%");
    assert_eq!(joined(&figures::window_summary_spans_bracketed(None, 30, true, None)), "—");
}

#[test]
fn the_header_gauge_shrinks_before_it_hides() {
    assert_eq!(
        figures::gauge_fit(40, 4, true),
        GaugeFit { name_w: 4, bar_cells: 10, visible: true },
    );
    assert_eq!(
        figures::gauge_fit(17, 4, true),
        GaugeFit { name_w: 4, bar_cells: 4, visible: true },
    );
    assert_eq!(
        figures::gauge_fit(12, 4, true),
        GaugeFit { name_w: 4, bar_cells: 0, visible: true },
    );
    assert_eq!(
        figures::gauge_fit(9, 4, true),
        GaugeFit { name_w: 3, bar_cells: 0, visible: true },
    );
    assert_eq!(
        figures::gauge_fit(4, 4, true),
        GaugeFit { name_w: 0, bar_cells: 0, visible: true },
    );
    assert!(!figures::gauge_fit(3, 4, true).visible);
    for avail in 0..40 {
        for name in 0..20 {
            let f = figures::gauge_fit(avail, name, true);
            assert!(!f.visible || figures::gauge_total_w(f.name_w, f.bar_cells, true) <= avail);
        }
    }
}

// ── the frame of the screen ─────────────────────────────────────────────────

#[test]
fn the_strip_names_every_tab() {
    assert_eq!(chrome::strip_label(Tab::Fallback), "fallback");
    assert_eq!(chrome::full_strip_width(), 71);
    assert!(chrome::fits_normal(71));
    assert!(!chrome::fits_normal(70));
}

#[test]
fn toasts_keep_to_their_column() {
    let toasts = vec![
        Toast { kind: ToastKind::Info, body: "short".to_string(), born: 0 },
        Toast {
            kind: ToastKind::Warning,
            body: "first line\na second line that is longer than the first".to_string(),
            born: 0,
        },
    ];
    assert_eq!(chrome::toast_width(&toasts, 200), 36);
    assert_eq!(chrome::toast_width(&toasts, 20), 15);
    assert_eq!(chrome::toast_width(&Vec::new(), 20), 0);
    let long = vec![Toast { kind: ToastKind::Info, body: "x".repeat(65_536), born: 0 }];
    assert_eq!(chrome::toast_width(&long, 200), 36);
    let lines = chrome::toast_lines(&toasts[0], 36);
    assert_eq!(words(&lines[0]), "┃ short");
    assert_eq!(lines[0].spans[0].style.role, Role::Info);
    assert!(lines[0].spans[1].style.bold);
}

#[test]
fn bodies_split_into_lines() {
    assert_eq!(
        chrome::split_lines("a\r\nb\n"),
        vec!["a".to_string(), "b".to_string()],
    );
    assert!(chrome::split_lines("").is_empty());
}

#[test]
fn banners_wear_the_colour_of_their_severity() {
    let l = chrome::banner_line(
        &Banner { severity: BannerSeverity::Danger, message: "stop".to_string() },
    );
    assert!(words(&l).contains("stop"));
    assert!(l.spans.iter().any(|s| s.style.fill == Fill::DangerTint));
}

// ── dialogs ─────────────────────────────────────────────────────────────────

#[test]
fn dialogs_stand_in_the_middle() {
    assert_eq!(
        modal_box::centered(screen(80, 24), 40, 10),
        Area { x: 20, y: 7, width: 40, height: 10 },
    );
    assert_eq!(
        modal_box::centered(screen(30, 10), 40, 20),
        Area { x: 2, y: 2, width: 26, height: 6 },
    );
    assert_eq!(
        modal_box::centered(screen(3, 3), 40, 20),
        Area { x: 1, y: 1, width: 0, height: 0 },
    );
}

#[test]
fn lines_fold_by_character_and_lose_nothing() {
    let mut v = paint::no_spans();
    paint::put(&mut v, "abcde", paint::ink(Role::Text));
    paint::put(&mut v, "fg", paint::ink(Role::Accent));
    let l = paint::line(v);
    let rows = modal_box::chunk_line(&l, 3);
    let shown: Vec<String> = rows.iter().map(words).collect();
    assert_eq!(shown, vec!["abc".to_string(), "def".to_string(), "g".to_string()]);
    assert_eq!(rows[1].spans[0].text, "de");
    assert_eq!(rows[1].spans[0].style.role, Role::Text);
    assert_eq!(rows[1].spans[1].style.role, Role::Accent);
    assert_eq!(modal_box::chunk_line(&l, 7).len(), 1);
    assert_eq!(modal_box::chunk_line(&l, 0).len(), 1);
}

#[test]
fn a_dialog_is_as_large_as_its_content() {
    let lines = vec![
        paint::single("twelve chars", paint::ink(Role::Text)),
        paint::blank(),
        paint::single("x", paint::ink(Role::Text)),
    ];
    let d = modal_box::lay_out(screen(80, 24), "TITLE", &lines, 9, Some((2, 1)));
    assert_eq!(d.area, Area { x: 31, y: 8, width: 18, height: 7 });
    assert_eq!(d.rows.len(), 3);
    assert_eq!(d.scroll, 0);
    assert_eq!(d.max_scroll, 0);
    assert_eq!(d.caret, Some((1, 2)));
}

#[test]
fn a_dialog_scrolls_on_a_short_screen_and_hides_a_caret_that_left() {
    let lines: Vec<Line> = (0..10).map(|_| paint::single("row", paint::ink(Role::Text))).collect();
    let d = modal_box::lay_out(screen(80, 12), "T", &lines, 99, Some((0, 0)));
    assert_eq!(d.area.height, 8);
    assert_eq!(d.max_scroll, 6);
    assert_eq!(d.scroll, 6);
    assert_eq!(d.caret, None);
}

#[test]
fn a_caret_at_the_end_of_a_full_row_stays_on_it() {
    let lines = vec![paint::single("abcdefghij", paint::ink(Role::Text))];
    let d = modal_box::lay_out(screen(15, 24), "T", &lines, 0, Some((0, 10)));
    assert_eq!(d.area.width, 11);
    assert_eq!(d.rows.len(), 2);
    assert_eq!(d.caret, Some((5, 1)));
}
