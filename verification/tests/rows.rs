use models::resources::utils::{dumb_row_parser, row_parser};
use models::utils;

fn texts(v: &[models::common::varriable_char_array::VarriableCharArray]) -> Vec<Vec<u8>> {
    v.iter().map(|w| w.0.clone()).collect()
}

#[test]
fn row_parser_splits_words_and_skips_line_breaks() {
    let buffer = b"2DA V1.0\r\nNAME  VALUE\n";
    let (words, next) = row_parser(buffer, 0);
    assert_eq!(texts(&words), vec![b"2DA".to_vec(), b"V1.0".to_vec()]);
    assert_eq!(next, 10);
    let (words, next) = row_parser(buffer, next);
    assert_eq!(texts(&words), vec![b"NAME".to_vec(), b"VALUE".to_vec()]);
    assert_eq!(next, buffer.len());
}

#[test]
fn row_parser_without_line_break_reads_nothing() {
    let buffer = b"NAME VALUE";
    let (words, next) = row_parser(buffer, 0);
    assert!(words.is_empty());
    assert_eq!(next, 0);
    let (words, next) = row_parser(buffer, 100);
    assert!(words.is_empty());
    assert_eq!(next, 100);
}

#[test]
fn row_parser_tabs_and_form_feeds_separate_words() {
    let buffer = b"\tA\x0cB  C\r\r\n";
    let (words, next) = utils::row_parser(buffer, 0);
    assert_eq!(texts(&words), vec![b"A".to_vec(), b"B".to_vec(), b"C".to_vec()]);
    assert_eq!(next, buffer.len());
}

#[test]
fn dumb_row_parser_turns_line_breaks_into_spaces() {
    let rows = dumb_row_parser(b"AB\r\nC");
    assert_eq!(texts(&rows), vec![b"AB".to_vec(), b" ".to_vec(), b" C".to_vec()]);
    assert!(dumb_row_parser(b"").is_empty());
}

#[test]
fn copy_helpers_read_values_inside_the_buffer() {
    let buffer = [1u8, 0, 2, 0, 3, 0];
    let v: u16 = utils::copy_buff_to_struct(&buffer, 2);
    assert_eq!(v, 2);
    let all: Vec<u16> = utils::copy_transmute_buff(&buffer, 0, 3);
    assert_eq!(all, vec![1, 2, 3]);
    let none: Vec<u16> = utils::copy_transmute_buff(&buffer, 2, 3);
    assert!(none.is_empty());
}

#[test]
fn row_parser_counts_every_line_break_after_a_row() {
    let buffer = b"A\r\n\r\nx";
    let (words, next) = row_parser(buffer, 0);
    assert_eq!(texts(&words), vec![b"A".to_vec()]);
    assert_eq!(next, 5);
    let (other_words, other_next) = utils::row_parser(buffer, 0);
    assert_eq!(texts(&other_words), texts(&words));
    assert_eq!(other_next, next);
}
