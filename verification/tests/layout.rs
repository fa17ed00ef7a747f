use oeis::layout::{join_ints, join_strings, truncate_with_ellipsis};
use oeis::{search_url, sequence_url, Sequence};

fn record(id: u64, name: &str, values: Vec<i64>) -> Sequence {
    Sequence { id, name: name.to_string(), values }
}

#[test]
fn truncate_keeps_short_text() {
    assert_eq!(truncate_with_ellipsis("abc", 5), "abc");
}

#[test]
fn truncate_keeps_exact_fit() {
    assert_eq!(truncate_with_ellipsis("abcde", 5), "abcde");
}

#[test]
fn truncate_cuts_and_marks() {
    assert_eq!(truncate_with_ellipsis("abcdefgh", 5), "abcde...");
}

#[test]
fn truncate_empty_text() {
    assert_eq!(truncate_with_ellipsis("", 0), "");
}

#[test]
fn truncate_zero_width_marks_everything() {
    assert_eq!(truncate_with_ellipsis("xy", 0), "...");
}

#[test]
fn oeis_id_pads_to_six_digits() {
    assert_eq!(record(40, "The prime numbers.", vec![]).oeis_id(), "A000040");
}

#[test]
fn oeis_id_of_zero() {
    assert_eq!(record(0, "", vec![]).oeis_id(), "A000000");
}

#[test]
fn oeis_id_keeps_long_identifiers() {
    assert_eq!(record(1234567, "", vec![]).oeis_id(), "A1234567");
}

#[test]
fn display_string_joins_id_and_name() {
    assert_eq!(
        record(40, "The prime numbers.", vec![]).display_string(),
        "A000040: The prime numbers."
    );
}

#[test]
fn sequence_url_points_at_record_page() {
    assert_eq!(sequence_url(40), "https://oeis.org/A000040");
}

#[test]
fn search_url_joins_query_terms() {
    assert_eq!(
        search_url(&vec![2, 3, 5]),
        "https://oeis.org/search?q=2,3,5&fmt=json"
    );
}

#[test]
fn search_url_keeps_negative_terms() {
    assert_eq!(
        search_url(&vec![-1, 2]),
        "https://oeis.org/search?q=-1,2&fmt=json"
    );
}

#[test]
fn join_strings_with_separator() {
    let items = vec!["a".to_string(), "bb".to_string(), "c".to_string()];
    assert_eq!(join_strings(&items, ", "), "a, bb, c");
}

#[test]
fn join_strings_of_one_item() {
    assert_eq!(join_strings(&vec!["solo".to_string()], "\r\n"), "solo");
}

#[test]
fn join_strings_of_nothing() {
    assert_eq!(join_strings(&vec![], ", "), "");
}

#[test]
fn join_ints_formats_decimals() {
    assert_eq!(join_ints(&vec![2, 3, 5, 7], ", ", 3), "2, 3, 5");
}

#[test]
fn join_ints_keeps_signs() {
    assert_eq!(join_ints(&vec![-1, 0, 1], ", ", 3), "-1, 0, 1");
}
