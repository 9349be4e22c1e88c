use movie_rental::text::{normalize_line, str_eq};

#[test]
fn normalize_trims_whitespace() {
    assert_eq!(normalize_line("  5 \n"), Some(String::from("5")));
    assert_eq!(normalize_line("\tMatrix\r\n"), Some(String::from("Matrix")));
    assert_eq!(normalize_line("Drama"), Some(String::from("Drama")));
}

#[test]
fn normalize_blank_line_is_no_input() {
    assert_eq!(normalize_line(""), None);
    assert_eq!(normalize_line("   "), None);
    assert_eq!(normalize_line("\r\n"), None);
}

#[test]
fn normalize_keeps_inner_whitespace() {
    assert_eq!(normalize_line(" The Matrix "), Some(String::from("The Matrix")));
}

#[test]
fn str_eq_compares_exactly() {
    assert!(str_eq("Action", "Action"));
    assert!(!str_eq("Action", "action"));
    assert!(!str_eq("Action", "Action "));
    assert!(str_eq("", ""));
}
