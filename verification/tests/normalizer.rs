use surveyor::normalize::{remove_refresh_message, split_plan_output, DELIM_LEN};

fn delim() -> String {
    "-".repeat(DELIM_LEN)
}

#[test]
fn two_delimiters_returns_middle() {
    let d = delim();
    let s = format!("refreshing state...{}\nplan body\n{}trailer", d, d);
    assert_eq!(remove_refresh_message(&s), Some(String::from("\nplan body\n")));
}

#[test]
fn one_delimiter_is_rejected() {
    let d = delim();
    let s = format!("refreshing state...{}\nplan body\n", d);
    assert_eq!(remove_refresh_message(&s), None);
}

#[test]
fn no_delimiter_is_rejected() {
    assert_eq!(remove_refresh_message("just some text"), None);
    assert_eq!(remove_refresh_message(""), None);
}

#[test]
fn seventy_one_dashes_are_no_delimiter() {
    let short = "-".repeat(DELIM_LEN - 1);
    let s = format!("a{}b{}c", short, short);
    assert_eq!(remove_refresh_message(&s), None);
}

#[test]
fn three_delimiters_second_to_last_segment() {
    let d = delim();
    let s = format!("a{}b{}c{}e", d, d, d);
    assert_eq!(remove_refresh_message(&s), Some(String::from("c")));
}

#[test]
fn adjacent_delimiters_give_empty_middle() {
    let d = delim();
    let s = format!("{}{}", d, d);
    assert_eq!(remove_refresh_message(&s), Some(String::from("")));
}

#[test]
fn split_drops_delimiters_in_order() {
    let d = delim();
    let s = format!("x{}y", d);
    let parts = split_plan_output(&s);
    assert_eq!(parts, vec![String::from("x"), String::from("y")]);
}

#[test]
fn split_without_delimiter_is_whole_text() {
    let parts = split_plan_output("abc");
    assert_eq!(parts, vec![String::from("abc")]);
}
