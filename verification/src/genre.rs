//! The closed set of movie categories and its parser.

use vstd::prelude::*;
use crate::text::str_eq;

verus! {

/// One of the five categories a rental record can carry.
#[derive(Clone, Copy, Debug, PartialEq, Eq, Structural)]
pub enum Genre {
    Action,
    Comedy,
    Romance,
    Horror,
    Drama,
}

/// The error produced when a string names none of the five genres.
#[derive(Clone, Copy, Debug, PartialEq, Eq, Structural)]
pub struct InvalidGenre;

/// Which genre, if any, a character sequence names. The match is exact and
/// case-sensitive: only the five capitalized words are recognized.
pub open spec fn genre_of(s: Seq<char>) -> Option<Genre> {
    if s == "Action"@ {
        Some(Genre::Action)
    } else if s == "Comedy"@ {
        Some(Genre::Comedy)
    } else if s == "Romance"@ {
        Some(Genre::Romance)
    } else if s == "Horror"@ {
        Some(Genre::Horror)
    } else if s == "Drama"@ {
        Some(Genre::Drama)
    } else {
        None
    }
}

impl Genre {
    /// Parses a genre name; succeeds exactly on the five recognized words and
    /// fails with `InvalidGenre` on every other string.
    pub fn from_str(s: &str) -> (r: Result<Genre, InvalidGenre>)
        ensures
            r == (match genre_of(s@) {
                Some(g) => Ok::<Genre, InvalidGenre>(g),
                None => Err::<Genre, InvalidGenre>(InvalidGenre),
            }),
    {
        if str_eq(s, "Action") {
            Ok(Genre::Action)
        } else if str_eq(s, "Comedy") {
            Ok(Genre::Comedy)
        } else if str_eq(s, "Romance") {
            Ok(Genre::Romance)
        } else if str_eq(s, "Horror") {
            Ok(Genre::Horror)
        } else if str_eq(s, "Drama") {
            Ok(Genre::Drama)
        } else {
            Err(InvalidGenre)
        }
    }
}

} // verus!
