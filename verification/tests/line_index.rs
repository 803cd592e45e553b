use mylog::utils::{get_char_index_by_line_index, get_line_index_by_char_index};

fn test_lines() -> Vec<String> {
    [
        "The darkest valley",
        "The highest mountain",
        "We walk in the name of our brave",
        "The rushing river",
        "The blooming flower",
        "Descended from heaven we embrace",
    ]
    .map(|x| x.to_string())
    .into()
}

#[test]
fn utils_test_get_line_index_by_char_index() {
    let lines: &Vec<String> = &test_lines();
    let mut current_char_index = 0;
    for (expected_line_index, line) in lines.iter().enumerate() {
        for _ in line.chars().filter(|x| !x.is_whitespace()) {
            assert_eq!(
                get_line_index_by_char_index(lines, current_char_index),
                Some(expected_line_index)
            );
            current_char_index += 1;
        }
    }
}

#[test]
fn utils_test_get_char_index_by_line_index() {
    let lines: &Vec<String> = &test_lines();
    for (line_index, _) in lines.iter().enumerate() {
        assert_eq!(
            get_line_index_by_char_index(lines, get_char_index_by_line_index(lines, line_index)),
            Some(line_index)
        );
    }
}

#[test]
fn mod_test_get_line_index_by_char_index() {
    let lines: &Vec<String> = &test_lines();
    let mut current_char_index = 0;
    for (expected_line_index, line) in lines.iter().enumerate() {
        for _ in line.chars().filter(|x| !x.is_whitespace()) {
            assert_eq!(
                get_line_index_by_char_index(lines, current_char_index),
                Some(expected_line_index)
            );
            current_char_index += 1;
        }
    }
}

#[test]
fn mod_test_get_char_index_by_line_index() {
    let lines: &Vec<String> = &test_lines();
    for (line_index, _) in lines.iter().enumerate() {
        assert_eq!(
            get_line_index_by_char_index(lines, get_char_index_by_line_index(lines, line_index)),
            Some(line_index)
        );
    }
}

#[test]
fn char_index_counts_visible_characters_only() {
    let lines: Vec<String> =
        vec!["qwq".to_owned(), "This game".to_owned(), "Hello World".to_owned()];
    assert_eq!(get_char_index_by_line_index(&lines, 0), 0);
    assert_eq!(get_char_index_by_line_index(&lines, 1), 3);
    assert_eq!(get_char_index_by_line_index(&lines, 2), 11);
    assert_eq!(get_char_index_by_line_index(&lines, 3), 21);
    assert_eq!(get_char_index_by_line_index(&lines, 99), 21);
}

#[test]
fn line_index_is_none_at_and_behind_the_total() {
    let lines: Vec<String> = vec!["ab".to_owned(), " c ".to_owned()];
    assert_eq!(get_line_index_by_char_index(&lines, 2), Some(1));
    assert_eq!(get_line_index_by_char_index(&lines, 3), None);
    assert_eq!(get_line_index_by_char_index(&lines, usize::MAX), None);
    assert_eq!(get_line_index_by_char_index(&[], 0), None);
}

#[test]
fn blank_line_maps_to_the_next_line_with_text() {
    let lines: Vec<String> = vec!["a".to_owned(), "  ".to_owned(), "b".to_owned(), "".to_owned()];
    assert_eq!(
        get_line_index_by_char_index(&lines, get_char_index_by_line_index(&lines, 1)),
        Some(2)
    );
    assert_eq!(
        get_line_index_by_char_index(&lines, get_char_index_by_line_index(&lines, 3)),
        None
    );
}
