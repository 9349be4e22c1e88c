use movie_rental::genre::{Genre, InvalidGenre};

#[test]
fn genre_parse_action() {
    assert_eq!(Genre::from_str("Action"), Ok(Genre::Action));
}

#[test]
fn genre_parse_comedy() {
    assert_eq!(Genre::from_str("Comedy"), Ok(Genre::Comedy));
}

#[test]
fn genre_parse_romance() {
    assert_eq!(Genre::from_str("Romance"), Ok(Genre::Romance));
}

#[test]
fn genre_parse_horror() {
    assert_eq!(Genre::from_str("Horror"), Ok(Genre::Horror));
}

#[test]
fn genre_parse_drama() {
    assert_eq!(Genre::from_str("Drama"), Ok(Genre::Drama));
}

#[test]
fn genre_parse_rejects_unknown() {
    assert_eq!(Genre::from_str("Sci-Fi"), Err(InvalidGenre));
    assert_eq!(Genre::from_str("Musical"), Err(InvalidGenre));
    assert_eq!(Genre::from_str(""), Err(InvalidGenre));
}

#[test]
fn genre_parse_is_case_sensitive() {
    assert_eq!(Genre::from_str("action"), Err(InvalidGenre));
    assert_eq!(Genre::from_str("ACTION"), Err(InvalidGenre));
    assert_eq!(Genre::from_str("Horror "), Err(InvalidGenre));
}
