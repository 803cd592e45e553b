use mylog::events::{InputEvent, KeyCode, KeyModifiers, ViewEvent};
use mylog::pager::Pager;
use mylog::paging_all_pager::PagingAllPager;
use mylog::screen::{date_row, message_row, Screen};
use mylog::search::Search;
use mylog::single_date_pager::{PagerAction, SingleDatePager};
use mylog::style::Palette;
use mylog::time::Date;
use mylog::viewer::PagerMode;

const THREE: &str = "[2024-05-12 09:00] Morning\n[2024-05-12 18:30] Evening run\n[2024-05-12 21:00] Night\n";

fn key(c: char) -> InputEvent {
    InputEvent::Key(KeyCode::Char(c), KeyModifiers::none())
}

fn special(code: KeyCode) -> InputEvent {
    InputEvent::Key(code, KeyModifiers::none())
}

fn control(c: char) -> InputEvent {
    InputEvent::Key(
        KeyCode::Char(c),
        KeyModifiers { shift: false, control: true, alt: false, other: false },
    )
}

fn marks() -> Palette {
    Palette {
        date_open: "".to_owned(),
        date_close: "".to_owned(),
        match_open: "<".to_owned(),
        match_close: ">".to_owned(),
        marker: ">".to_owned(),
    }
}

fn day(year: i32, month: u32, d: u32) -> Date {
    Date::new(year, month, d).unwrap()
}

fn pager(rows: u16) -> SingleDatePager {
    let mut p = SingleDatePager::new(day(2024, 5, 12), marks(), 80, rows);
    p.update_log_items("/logs/2024-05-12.log", Some(THREE));
    p
}

fn type_text(p: &mut SingleDatePager, text: &str, today: &Date) {
    for c in text.chars() {
        assert_eq!(p.handle_event(key(c), today), PagerAction::Redraw);
    }
}

fn top(p: &SingleDatePager) -> usize {
    p.page_range().begin
}

#[test]
fn test_begin_line_index() {
    let mut screen = Screen::new(80, 24);
    screen.set_lines(
        ["qwq", "abc", "eee", "661", "sld", "934", "f8s"].iter().map(|x| x.to_string()).collect(),
    );
    screen.set_begin_line_index(5);
    assert_eq!(screen.begin_line_index(), 5);
    screen.set_begin_line_index(2);
    assert_eq!(screen.begin_line_index(), 2);
}

#[test]
fn the_top_line_of_a_pager_can_be_set() {
    let text = "[2024-05-12 09:00] qwq\nabc\neee\n661\nsld\n934\nf8s\n";
    let mut p = SingleDatePager::new(day(2024, 5, 12), Palette::plain(), 80, 24);
    p.update_log_items("x", Some(text));
    assert_eq!(p.colored_lines().len(), 7);
    p.set_begin_line_index(5);
    assert_eq!(p.begin_line_index(), 5);
    p.set_begin_line_index(2);
    assert_eq!(p.begin_line_index(), 2);
    let mut all = PagingAllPager::new(Palette::plain(), 80, 24);
    all.update_log_items(text);
    all.set_begin_line_index(6);
    assert_eq!(all.begin_line_index(), 6);
    assert_eq!(all.colored_lines()[6], "f8s");
}

#[test]
fn a_new_pager_is_empty_and_in_the_view() {
    let p = SingleDatePager::new(day(2024, 5, 12), Palette::plain(), 80, 24);
    assert_eq!(p.total_content_lines(), 0);
    assert_eq!(p.viewer().mode(), PagerMode::View);
    assert!(!p.viewer().is_exit());
    assert_eq!(p.bottom_message(), "");
    assert_eq!(p.command_buffer(), "");
    assert_eq!(*p.date(), day(2024, 5, 12));
    let r = p.page_range();
    assert_eq!((r.begin, r.end), (0, 0));
}

#[test]
fn the_page_holds_the_rows_but_two() {
    let p = pager(24);
    assert_eq!(p.total_content_lines(), 3);
    let r = p.page_range();
    assert_eq!((r.begin, r.end), (0, 3));
    let r = pager(4).page_range();
    assert_eq!((r.begin, r.end), (0, 2));
    for rows in [0, 1, 2, 3] {
        let r = pager(rows).page_range();
        assert_eq!((r.begin, r.end), (0, 1), "rows = {}", rows);
    }
    assert_eq!(date_row(0), None);
    assert_eq!(date_row(1), None);
    assert_eq!(date_row(2), Some(1));
    assert_eq!(date_row(24), Some(22));
    assert_eq!(message_row(0), None);
    assert_eq!(message_row(1), Some(0));
    assert_eq!(message_row(24), Some(23));
}

#[test]
fn scrolling_is_clamped_at_both_ends() {
    let today = day(2024, 5, 12);
    let mut p = pager(3);
    assert_eq!(top(&p), 0);
    assert_eq!(p.handle_event(key('k'), &today), PagerAction::Redraw);
    assert_eq!(top(&p), 0);
    assert_eq!(p.handle_event(key('j'), &today), PagerAction::Redraw);
    assert_eq!(top(&p), 1);
    p.handle_event(special(KeyCode::Down), &today);
    assert_eq!(top(&p), 2);
    p.handle_event(key('j'), &today);
    assert_eq!(top(&p), 2);
    let r = p.page_range();
    assert_eq!((r.begin, r.end), (2, 3));
    p.handle_event(special(KeyCode::Up), &today);
    assert_eq!(top(&p), 1);
    p.handle_event(key('g'), &today);
    assert_eq!(top(&p), 0);
    assert_eq!(p.viewer().screen().begin_char_index(), 0);
    p.handle_event(key('G'), &today);
    assert_eq!(top(&p), 2);
    let mut tall = pager(24);
    tall.handle_event(key('j'), &today);
    assert_eq!(top(&tall), 0);
    tall.handle_event(key('G'), &today);
    assert_eq!(top(&tall), 0);
    let mut direct = pager(3);
    direct.next_line();
    direct.next_line();
    direct.next_line();
    assert_eq!(top(&direct), 2);
    direct.prev_line();
    direct.prev_line();
    direct.prev_line();
    assert_eq!(top(&direct), 0);
}

#[test]
fn the_anchor_counts_visible_characters() {
    let today = day(2024, 5, 12);
    let mut p = pager(3);
    p.handle_event(key('j'), &today);
    assert_eq!(p.viewer().screen().begin_char_index(), "[2024-05-1209:00]Morning".len());
}

#[test]
fn resizing_and_back_restores_the_top_line() {
    let today = day(2024, 5, 12);
    let text = "[2024-05-12 09:00] The quick brown fox jumps over the lazy dog near the river bank\n[2024-05-12 10:00] Pack my box with five dozen liquor jugs and then some more of them\n";
    let mut p = SingleDatePager::new(today, Palette::plain(), 8, 8);
    p.update_log_items("x", Some(text));
    let total = p.total_content_lines();
    assert!(total > 10);
    for line_index in 0..total {
        p.set_begin_line_index(line_index);
        let lines_before = p.colored_lines().clone();
        let top_before = top(&p);
        assert_eq!(top_before, line_index);
        let first_char = lines_before[top_before].chars().find(|c| !c.is_whitespace()).unwrap();
        assert_eq!(p.handle_event(InputEvent::Resize(13, 14), &today), PagerAction::Redraw);
        assert!(p.colored_lines()[top(&p)].contains(first_char));
        p.handle_event(InputEvent::Resize(8, 8), &today);
        assert_eq!(p.colored_lines(), &lines_before);
        assert_eq!(top(&p), top_before);
    }
}

#[test]
fn the_next_day_is_refused_on_todays_log() {
    let today = day(2024, 5, 12);
    let mut p = pager(24);
    assert_eq!(p.handle_event(key('l'), &today), PagerAction::Redraw);
    assert_eq!(*p.date(), today);
    assert_eq!(p.bottom_message(), "This is already today's log");
    assert!(p.bottom_message_is_error());
    assert_eq!(p.total_content_lines(), 3);
    assert_eq!(p.handle_event(key('x'), &today), PagerAction::Redraw);
    assert_eq!(p.bottom_message(), "");
    assert!(!p.bottom_message_is_error());
    assert_eq!(p.next_day_on(&today), PagerAction::Redraw);
    assert_eq!(*p.date(), today);
}

#[test]
fn days_are_turned_and_ask_for_a_reload() {
    let today = day(2024, 5, 14);
    let mut p = pager(3);
    p.handle_event(key('j'), &today);
    assert_eq!(p.handle_event(key('l'), &today), PagerAction::Reload);
    assert_eq!(*p.date(), day(2024, 5, 13));
    assert_eq!(p.total_content_lines(), 0);
    assert_eq!(p.viewer().screen().begin_char_index(), 0);
    assert_eq!(p.bottom_message(), "");
    p.update_log_items("/logs/2024-05-13.log", Some("[2024-05-13 08:00] Up\n"));
    assert_eq!(p.total_content_lines(), 1);
    assert_eq!(p.handle_event(special(KeyCode::Right), &today), PagerAction::Reload);
    assert_eq!(*p.date(), today);
    assert_eq!(p.handle_event(key('l'), &today), PagerAction::Redraw);
    assert_eq!(*p.date(), today);
    assert_eq!(p.handle_event(key('h'), &today), PagerAction::Reload);
    assert_eq!(p.handle_event(special(KeyCode::Left), &today), PagerAction::Reload);
    assert_eq!(*p.date(), day(2024, 5, 12));
    let mut march = SingleDatePager::new(day(2024, 3, 1), Palette::plain(), 80, 24);
    assert_eq!(march.prev_day(), PagerAction::Reload);
    assert_eq!(*march.date(), day(2024, 2, 29));
    assert_eq!(march.next_day_on(&today), PagerAction::Reload);
    assert_eq!(*march.date(), day(2024, 3, 1));
    let mut eve = SingleDatePager::new(day(2023, 12, 31), Palette::plain(), 80, 24);
    assert_eq!(eve.next_day_on(&today), PagerAction::Reload);
    assert_eq!(*eve.date(), day(2024, 1, 1));
    assert_eq!(eve.next_day(), PagerAction::Reload);
    assert_eq!(*eve.date(), day(2024, 1, 2));
}

#[test]
fn no_day_past_today_is_shown() {
    let today = day(2024, 5, 12);
    for later in [day(2024, 5, 13), day(2024, 6, 1), day(2025, 1, 1), day(262142, 12, 31)] {
        let mut p = SingleDatePager::new(later, Palette::plain(), 80, 24);
        p.update_log_items("x", Some(THREE));
        assert_eq!(p.handle_event(key('l'), &today), PagerAction::Redraw);
        assert_eq!(*p.date(), later);
        assert_eq!(p.bottom_message(), "This is already today's log");
        assert!(p.bottom_message_is_error());
        assert_eq!(p.total_content_lines(), 3);
        assert_eq!(p.next_day_on(&today), PagerAction::Redraw);
        assert_eq!(*p.date(), later);
    }
    let mut p = pager(24);
    p.handle_event(key(':'), &today);
    type_text(&mut p, "date 2030-1-1", &today);
    assert_eq!(p.handle_event(special(KeyCode::Enter), &today), PagerAction::Reload);
    assert_eq!(*p.date(), day(2030, 1, 1));
    assert_eq!(p.handle_event(key('l'), &today), PagerAction::Redraw);
    assert_eq!(*p.date(), day(2030, 1, 1));
    assert_eq!(p.bottom_message(), "This is already today's log");
    assert_eq!(p.handle_event(key('h'), &today), PagerAction::Reload);
    assert_eq!(*p.date(), day(2029, 12, 31));
    let mut far = SingleDatePager::new(day(2999, 1, 1), Palette::plain(), 80, 24);
    assert_eq!(far.next_day(), PagerAction::Redraw);
    assert_eq!(*far.date(), day(2999, 1, 1));
    assert_eq!(far.bottom_message(), "This is already today's log");
}

#[test]
fn the_calendar_ends_with_a_message() {
    let mut first = SingleDatePager::new(day(-262143, 1, 1), Palette::plain(), 80, 24);
    assert_eq!(first.prev_day(), PagerAction::Redraw);
    assert_eq!(*first.date(), day(-262143, 1, 1));
    assert_eq!(first.bottom_message(), "Date out of range");
    assert!(first.bottom_message_is_error());
    let mut second = SingleDatePager::new(day(-262143, 1, 2), Palette::plain(), 80, 24);
    assert_eq!(second.prev_day(), PagerAction::Reload);
    assert_eq!(*second.date(), day(-262143, 1, 1));
}

#[test]
fn the_date_bar_shows_the_day_of_the_week() {
    assert_eq!(pager(24).date_label(), "2024-05-12 Sun");
    let p = SingleDatePager::new(day(2024, 2, 29), Palette::plain(), 80, 24);
    assert_eq!(p.date_label(), "2024-02-29 Thu");
}

#[test]
fn a_missing_file_is_reported_in_verbose_mode_only() {
    let mut p = pager(24);
    p.update_log_items("/logs/2024-05-12.log", None);
    assert_eq!(p.total_content_lines(), 0);
    assert_eq!(p.bottom_message(), "");
    p.set_verbose(true);
    p.update_log_items("/logs/2024-05-12.log", None);
    assert_eq!(p.bottom_message(), "'/logs/2024-05-12.log' doesn't exist");
    assert!(p.bottom_message_is_error());
    p.clear_error_message();
    assert_eq!(p.bottom_message(), "");
    p.show_error_message("oops");
    assert_eq!(p.bottom_message(), "oops");
}

#[test]
fn the_command_line_sets_the_date() {
    let today = day(2024, 5, 12);
    let mut p = pager(24);
    assert_eq!(p.handle_event(key(':'), &today), PagerAction::Redraw);
    assert_eq!(p.viewer().mode(), PagerMode::Command);
    type_text(&mut p, "date 2025-2-15", &today);
    assert_eq!(p.command_buffer(), "date 2025-2-15");
    assert_eq!(p.handle_event(special(KeyCode::Enter), &today), PagerAction::Reload);
    assert_eq!(*p.date(), day(2025, 2, 15));
    assert_eq!(p.viewer().mode(), PagerMode::View);
    assert_eq!(p.command_buffer(), "");
    assert_eq!(p.total_content_lines(), 0);
}

#[test]
fn the_command_line_shows_the_date_or_does_nothing() {
    let today = day(2024, 5, 12);
    let mut p = pager(24);
    p.handle_event(key(':'), &today);
    type_text(&mut p, "date", &today);
    assert_eq!(p.handle_event(special(KeyCode::Enter), &today), PagerAction::Redraw);
    assert_eq!(p.bottom_message(), "2024-05-12");
    assert!(!p.bottom_message_is_error());
    assert_eq!(p.viewer().mode(), PagerMode::View);
    for line in ["date tomorrow", "date 2024-02-30", "quit", "", "date 2025-2-15 x"] {
        p.handle_event(key(':'), &today);
        type_text(&mut p, line, &today);
        assert_eq!(p.handle_event(special(KeyCode::Enter), &today), PagerAction::Redraw, "{}", line);
        assert_eq!(*p.date(), today);
        assert_eq!(p.total_content_lines(), 3);
        assert_eq!(p.viewer().mode(), PagerMode::View);
        assert_eq!(p.bottom_message(), "");
    }
}

#[test]
fn the_command_line_is_edited_and_left() {
    let today = day(2024, 5, 12);
    let mut p = pager(24);
    p.handle_event(key(':'), &today);
    type_text(&mut p, "dq", &today);
    p.handle_event(special(KeyCode::Backspace), &today);
    assert_eq!(p.command_buffer(), "d");
    p.handle_event(special(KeyCode::Backspace), &today);
    assert_eq!(p.command_buffer(), "");
    assert_eq!(p.viewer().mode(), PagerMode::Command);
    p.handle_event(special(KeyCode::Backspace), &today);
    assert_eq!(p.viewer().mode(), PagerMode::View);
    p.handle_event(key(':'), &today);
    type_text(&mut p, "date 2025-2-15", &today);
    p.handle_event(control('u'), &today);
    assert_eq!(p.command_buffer(), "");
    assert_eq!(p.viewer().mode(), PagerMode::Command);
    type_text(&mut p, "date 2025-2-15", &today);
    assert_eq!(p.handle_event(special(KeyCode::Esc), &today), PagerAction::Redraw);
    assert_eq!(p.viewer().mode(), PagerMode::View);
    assert_eq!(p.command_buffer(), "");
    assert_eq!(*p.date(), today);
    p.handle_event(key(':'), &today);
    assert_eq!(p.command_buffer(), "");
    assert_eq!(p.handle_event(key('q'), &today), PagerAction::Redraw);
    assert!(!p.viewer().is_exit());
    assert_eq!(p.command_buffer(), "q");
}

#[test]
fn a_search_marks_matches_and_jumps_to_them() {
    let today = day(2024, 5, 12);
    let mut p = pager(3);
    assert_eq!(p.handle_event(key('/'), &today), PagerAction::Redraw);
    assert_eq!(p.viewer().mode(), PagerMode::Search);
    type_text(&mut p, "run|ight", &today);
    assert_eq!(p.viewer().search_pattern_input(), "run|ight");
    assert!(!p.viewer().has_search_pattern());
    assert_eq!(p.handle_event(special(KeyCode::Enter), &today), PagerAction::Redraw);
    assert_eq!(p.viewer().mode(), PagerMode::View);
    assert_eq!(p.viewer().search_pattern_input(), "");
    assert!(p.viewer().has_search_pattern());
    assert_eq!(
        p.colored_lines(),
        &vec![
            "[2024-05-12 09:00] Morning".to_owned(),
            "[2024-05-12 18:30] Evening <run>".to_owned(),
            "[2024-05-12 21:00] N<ight>".to_owned(),
        ]
    );
    assert_eq!(top(&p), 1);
    p.handle_event(key('n'), &today);
    assert_eq!(top(&p), 2);
    p.handle_event(key('n'), &today);
    assert_eq!(top(&p), 2);
    p.handle_event(key('N'), &today);
    assert_eq!(top(&p), 1);
    p.handle_event(key('N'), &today);
    assert_eq!(top(&p), 1);
}

#[test]
fn a_pattern_that_does_not_compile_keeps_the_search_that_was() {
    let today = day(2024, 5, 12);
    let mut p = pager(3);
    p.handle_event(key('/'), &today);
    type_text(&mut p, "run", &today);
    p.handle_event(special(KeyCode::Enter), &today);
    let marked = p.colored_lines().clone();
    p.handle_event(key('g'), &today);
    p.handle_event(key('/'), &today);
    type_text(&mut p, "(", &today);
    assert_eq!(p.handle_event(special(KeyCode::Enter), &today), PagerAction::Redraw);
    assert_eq!(p.viewer().mode(), PagerMode::View);
    assert_eq!(p.bottom_message(), "Invalid search pattern");
    assert!(p.bottom_message_is_error());
    assert_eq!(p.colored_lines(), &marked);
    assert_eq!(top(&p), 0);
    assert_eq!(p.viewer().search_pattern_input(), "");
    assert!(p.viewer().has_search_pattern());
}

#[test]
fn the_search_line_is_edited_and_left() {
    let today = day(2024, 5, 12);
    let mut p = pager(3);
    p.handle_event(key('/'), &today);
    type_text(&mut p, "ab", &today);
    p.handle_event(special(KeyCode::Backspace), &today);
    assert_eq!(p.viewer().search_pattern_input(), "a");
    p.handle_event(control('u'), &today);
    assert_eq!(p.viewer().search_pattern_input(), "");
    p.handle_event(special(KeyCode::Backspace), &today);
    assert_eq!(p.viewer().mode(), PagerMode::View);
    p.handle_event(key('/'), &today);
    type_text(&mut p, "run", &today);
    p.handle_event(special(KeyCode::Esc), &today);
    assert_eq!(p.viewer().mode(), PagerMode::View);
    assert!(!p.viewer().has_search_pattern());
    p.handle_event(key('/'), &today);
    assert_eq!(p.viewer().search_pattern_input(), "");
}

#[test]
fn quit_and_edit_are_handed_out() {
    let today = day(2024, 5, 12);
    let mut p = pager(24);
    assert_eq!(p.handle_event(key('e'), &today), PagerAction::Edit);
    assert!(!p.viewer().is_exit());
    assert_eq!(p.handle_event(InputEvent::Other, &today), PagerAction::Redraw);
    assert_eq!(p.handle_event(key('q'), &today), PagerAction::Quit);
    assert!(p.viewer().is_exit());
    assert_eq!(p.handle_view_event(ViewEvent::Quit, &today), PagerAction::Quit);
}

#[test]
fn the_pager_of_all_days_scrolls_and_searches() {
    let text = "[2024-05-11 09:00] One\n[2024-05-12 18:30] Evening run\n[2024-05-13 21:00] Three\n";
    let mut p = PagingAllPager::new(marks(), 80, 3);
    assert_eq!(p.total_content_lines(), 0);
    p.update_log_items(text);
    assert_eq!(p.total_content_lines(), 3);
    assert_eq!(p.handle_event(key('j')), PagerAction::Redraw);
    assert_eq!(p.page_range().begin, 1);
    p.handle_event(key('G'));
    assert_eq!(p.page_range().begin, 2);
    p.handle_event(key('g'));
    assert_eq!(p.page_range().begin, 0);
    for ignored in ['h', 'l', 'e', ':'] {
        assert_eq!(p.handle_event(key(ignored)), PagerAction::Redraw);
        assert_eq!(p.viewer().mode(), PagerMode::View);
        assert_eq!(p.page_range().begin, 0);
    }
    p.handle_event(key('/'));
    assert_eq!(p.viewer().mode(), PagerMode::Search);
    for c in "run".chars() {
        p.handle_event(key(c));
    }
    p.handle_event(special(KeyCode::Enter));
    assert_eq!(p.viewer().mode(), PagerMode::View);
    assert_eq!(p.colored_lines()[1], "[2024-05-12 18:30] Evening <run>");
    assert_eq!(p.page_range().begin, 1);
    p.handle_event(key('/'));
    p.handle_event(key('('));
    p.handle_event(special(KeyCode::Enter));
    assert_eq!(p.colored_lines()[1], "[2024-05-12 18:30] Evening <run>");
    p.handle_event(InputEvent::Resize(10, 5));
    assert!(p.total_content_lines() > 3);
    p.next_line();
    p.prev_line();
    assert_eq!(p.handle_event(key('q')), PagerAction::Quit);
    assert!(p.viewer().is_exit());
}

#[test]
fn search_over_any_pager_uses_the_marker_of_the_process() {
    let text = "[2024-05-11 09:00] One\n[2024-05-12 18:30] Evening run\n[2024-05-13 21:00] Three run\n";
    let today = day(2024, 5, 12);
    let mut p = SingleDatePager::new(today, Palette::detect(), 80, 3);
    p.update_log_items("x", Some(text));
    p.handle_event(key('/'), &today);
    type_text(&mut p, "run", &today);
    p.handle_event(special(KeyCode::Enter), &today);
    assert_eq!(p.begin_line_index(), 1);
    p.search_next(true);
    assert_eq!(p.begin_line_index(), 2);
    p.search_next(true);
    assert_eq!(p.begin_line_index(), 2);
    p.search_prev();
    assert_eq!(p.begin_line_index(), 1);
    p.search_next(false);
    assert_eq!(p.begin_line_index(), 1);
}
