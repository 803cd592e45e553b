use crossterm::style::Stylize;
use mylog::log_item::LogItemList;
use mylog::render::{fits, highlight_log_item, render, wrap_log_item};
use mylog::search::{
    compile, mark_search_result, match_marker, search_next_line, search_prev_line, weave,
    PatternError,
};
use mylog::style::{split_probe, Palette};

fn test_palette() -> Palette {
    Palette {
        date_open: "{".to_owned(),
        date_close: "}".to_owned(),
        match_open: "<".to_owned(),
        match_close: ">".to_owned(),
        marker: ">".to_owned(),
    }
}

fn strings(lines: &[&str]) -> Vec<String> {
    lines.iter().map(|x| x.to_string()).collect()
}

#[test]
fn patterns_compile_or_are_rejected() {
    assert!(compile("run").is_ok());
    assert!(compile(r"\d+").is_ok());
    assert!(compile("").is_ok());
    assert_eq!(compile("(").err(), Some(PatternError::Invalid));
    assert_eq!(compile("[a-").err(), Some(PatternError::Invalid));
}

#[test]
fn matches_are_marked() {
    let p = test_palette();
    assert_eq!(mark_search_result(&compile("o").ok().unwrap(), "foo boo", &p), "f<o><o> b<o><o>");
    assert_eq!(mark_search_result(&compile("run").ok().unwrap(), "Evening run", &p), "Evening <run>");
    assert_eq!(mark_search_result(&compile("zzz").ok().unwrap(), "Evening run", &p), "Evening run");
    assert_eq!(mark_search_result(&compile(r"\d+").ok().unwrap(), "a1b22c333", &p), "a<1>b<22>c<333>");
    assert_eq!(mark_search_result(&compile("run").ok().unwrap(), "", &p), "");
}

#[test]
fn empty_matches_are_not_marked() {
    let p = test_palette();
    assert_eq!(mark_search_result(&compile("").ok().unwrap(), "abc", &p), "abc");
    assert_eq!(mark_search_result(&compile("x*").ok().unwrap(), "ab", &p), "ab");
    assert_eq!(mark_search_result(&compile("a*").ok().unwrap(), "baaac", &p), "b<aaa>c");
}

#[test]
fn weaving_puts_matches_between_the_parts() {
    assert_eq!(weave(&strings(&["all"]), &strings(&[]), "<", ">"), "all");
    assert_eq!(weave(&strings(&["a", "b", "c"]), &strings(&["1", "2"]), "<", ">"), "a<1>b<2>c");
    assert_eq!(weave(&strings(&["", "", ""]), &strings(&["x", ""]), "(", ")"), "(x)");
    assert_eq!(weave(&strings(&["a", "b"]), &strings(&["-"]), "", ""), "a-b");
}

#[test]
fn marked_lines_are_found_forward_and_backward() {
    let lines = strings(&["a", "b>", "c", "d>", "e"]);
    assert_eq!(search_next_line(&lines, 0, false, ">"), Some(1));
    assert_eq!(search_next_line(&lines, 1, false, ">"), Some(1));
    assert_eq!(search_next_line(&lines, 1, true, ">"), Some(3));
    assert_eq!(search_next_line(&lines, 3, true, ">"), None);
    assert_eq!(search_next_line(&lines, 4, false, ">"), None);
    assert_eq!(search_next_line(&lines, 5, false, ">"), None);
    assert_eq!(search_next_line(&lines, usize::MAX, true, ">"), None);
    assert_eq!(search_next_line(&[], 0, false, ">"), None);
    assert_eq!(search_prev_line(&lines, 4, ">"), Some(3));
    assert_eq!(search_prev_line(&lines, 3, ">"), Some(1));
    assert_eq!(search_prev_line(&lines, 1, ">"), None);
    assert_eq!(search_prev_line(&lines, 0, ">"), None);
    assert_eq!(search_prev_line(&lines, 99, ">"), Some(3));
    assert_eq!(search_next_line(&lines, 2, false, ""), Some(2));
}

#[test]
fn the_palette_of_the_process_holds_escape_sequences() {
    let p = Palette::detect();
    assert!(p.date_open.starts_with('\u{1b}'));
    assert!(p.date_close.starts_with('\u{1b}'));
    assert!(p.match_open.starts_with('\u{1b}'));
    assert!(p.match_close.starts_with('\u{1b}'));
    assert!(p.match_close.contains(&p.marker));
    assert!(!p.marker.is_empty());
    assert_eq!(match_marker(), p.marker);
    for part in [&p.date_open, &p.date_close, &p.match_open, &p.match_close, &p.marker] {
        assert!(!part.contains('\0'));
    }
    assert_eq!(Palette::plain().marker, "");
}

#[test]
fn a_probe_is_split_at_its_first_nul() {
    assert_eq!(split_probe("ab\0cd"), ("ab".to_owned(), "cd".to_owned()));
    assert_eq!(split_probe("\0"), ("".to_owned(), "".to_owned()));
    assert_eq!(split_probe("a\0b\0c"), ("a".to_owned(), "b\0c".to_owned()));
    assert_eq!(split_probe("\0tail"), ("".to_owned(), "tail".to_owned()));
    assert_eq!(split_probe("head\0"), ("head".to_owned(), "".to_owned()));
}

#[test]
fn a_probe_without_a_nul_gives_no_sequence() {
    assert_eq!(split_probe(""), ("".to_owned(), "".to_owned()));
    assert_eq!(split_probe("abc"), ("".to_owned(), "".to_owned()));
    assert_eq!(Palette::from_probes("", "", ""), Palette::plain());
    assert_eq!(Palette::from_probes("abc", "def", "ghi"), Palette::plain());
}

#[test]
fn a_palette_is_made_of_what_stands_around_the_probes() {
    let p = Palette::from_probes("<g>\0</g>", "<w><b>\0</w></b>", "<w>\0</w>");
    assert_eq!(
        p,
        Palette {
            date_open: "<g>".to_owned(),
            date_close: "</g>".to_owned(),
            match_open: "<w><b>".to_owned(),
            match_close: "</w></b>".to_owned(),
            marker: "</w>".to_owned(),
        }
    );
    let odd = Palette::from_probes("\0", "x\0y\0z", "only\0");
    assert_eq!(
        odd,
        Palette {
            date_open: "".to_owned(),
            date_close: "".to_owned(),
            match_open: "x".to_owned(),
            match_close: "y\0z".to_owned(),
            marker: "".to_owned(),
        }
    );
}

#[test]
fn the_palette_of_the_process_is_what_crossterm_writes() {
    let expected = Palette::from_probes(
        &"\0".green().to_string(),
        &"\0".black().on_white().to_string(),
        &"\0".on_white().to_string(),
    );
    assert_eq!(Palette::detect(), expected);
    assert_eq!(match_marker(), expected.marker);
    let styled = "run".black().on_white().to_string();
    assert_eq!(styled, format!("{}run{}", expected.match_open, expected.match_close));
    let dated = "[2024-05-12 09:00]".green().to_string();
    assert_eq!(dated, format!("{}[2024-05-12 09:00]{}", expected.date_open, expected.date_close));
}

#[test]
fn two_entries_give_two_styled_lines_at_width_80() {
    let list =
        LogItemList::from_str("[2024-05-12 09:00] Morning\n[2024-05-12 18:30] Evening run\n").unwrap();
    let p = Palette::detect();
    let lines = render(&list, None, &p, 80);
    assert_eq!(lines.len(), 2);
    assert_eq!(lines[0], format!("{}[2024-05-12 09:00]{} Morning", p.date_open, p.date_close));
    assert_eq!(lines[1], format!("{}[2024-05-12 18:30]{} Evening run", p.date_open, p.date_close));
    let plain = render(&list, None, &Palette::plain(), 80);
    assert_eq!(plain, strings(&["[2024-05-12 09:00] Morning", "[2024-05-12 18:30] Evening run"]));
}

#[test]
fn entries_are_styled_before_wrapping() {
    let list = LogItemList::from_str("[2024-05-12 18:30] Evening run\nand a walk\n").unwrap();
    let p = test_palette();
    let item = &list.items()[0];
    assert_eq!(highlight_log_item(item, None, &p), "{[2024-05-12 18:30]} Evening run\nand a walk");
    let pattern = compile("[nw]").ok().unwrap();
    assert_eq!(
        highlight_log_item(item, Some(&pattern), &p),
        "{[2024-05-12 18:30]} Eve<n>i<n>g ru<n>\na<n>d a <w>alk"
    );
    assert_eq!(
        wrap_log_item(item, Some(&pattern), &p, 80),
        strings(&["{[2024-05-12 18:30]} Eve<n>i<n>g ru<n>", "a<n>d a <w>alk"])
    );
}

#[test]
fn long_lines_are_wrapped_to_the_width() {
    let text = "[2024-05-12 09:00] The quick brown fox jumps over the lazy dog near the river bank";
    let list = LogItemList::from_str(text).unwrap();
    let lines = render(&list, None, &Palette::plain(), 20);
    assert!(lines.len() >= 5);
    for line in &lines {
        assert!(line.chars().count() <= 20, "{:?}", line);
    }
    assert_eq!(lines.join(" "), text);
    let wide = render(&list, None, &Palette::plain(), 200);
    assert_eq!(wide, strings(&[text]));
    assert!(fits(&lines));
}

#[test]
fn escape_sequences_take_no_width() {
    let list = LogItemList::from_str("[2024-05-12 09:00] abcdefgh").unwrap();
    let p = Palette::detect();
    let lines = render(&list, None, &p, 30);
    assert_eq!(lines.len(), 1);
    let plain = render(&list, None, &Palette::plain(), 30);
    assert_eq!(plain.len(), 1);
}

#[test]
fn entries_keep_their_order_and_blank_lines() {
    let list = LogItemList::from_str("[2024-05-12 09:00] a\n\nb\n[2024-05-12 10:00] c\n").unwrap();
    let lines = render(&list, None, &Palette::plain(), 80);
    assert_eq!(lines, strings(&["[2024-05-12 09:00] a", "", "b", "[2024-05-12 10:00] c"]));
    assert_eq!(render(&LogItemList::new(), None, &Palette::plain(), 80), Vec::<String>::new());
}
