//! The interaction loop as a state machine. Each step consumes one line of
//! input (already trimmed, `None` for an empty line) and yields an effect for
//! the caller to act on; all decisions of the menu, of the rent, remove and
//! update flows, and of the field validation loops are taken here.

use vstd::prelude::*;
use crate::genre::{Genre, genre_of};
use crate::numparse::{parse_i32, parsed_i32};
use crate::registry::{Movie, MovieModel, Movies, now_millis};
use crate::text::str_eq;

verus! {

/// Where the interaction stands: which prompt the next line of input answers.
pub enum Mode {
    /// At the top-level menu.
    AtMenu,
    /// Renting: waiting for the movie name.
    AwaitingRentName,
    /// Renting: waiting for the genre of the named movie.
    AwaitingRentGenre { name: String },
    /// Renting: waiting for the duration of the named movie.
    AwaitingRentDuration { name: String, genre: Genre },
    /// Removing: waiting for the name to delete.
    AwaitingRemoveName,
    /// Updating: waiting for the name to update.
    AwaitingUpdateName,
    /// Updating: waiting for the new duration of the named movie.
    AwaitingUpdateDuration { name: String },
    /// The loop has ended; no further input is consumed.
    Finished,
}

/// The mathematical image of a `Mode`.
pub ghost enum ModeModel {
    AtMenu,
    AwaitingRentName,
    AwaitingRentGenre { name: Seq<char> },
    AwaitingRentDuration { name: Seq<char>, genre: Genre },
    AwaitingRemoveName,
    AwaitingUpdateName,
    AwaitingUpdateDuration { name: Seq<char> },
    Finished,
}

impl View for Mode {
    type V = ModeModel;

    open spec fn view(&self) -> ModeModel {
        match self {
            Mode::AtMenu => ModeModel::AtMenu,
            Mode::AwaitingRentName => ModeModel::AwaitingRentName,
            Mode::AwaitingRentGenre { name } => ModeModel::AwaitingRentGenre { name: name@ },
            Mode::AwaitingRentDuration { name, genre } => ModeModel::AwaitingRentDuration {
                name: name@,
                genre: *genre,
            },
            Mode::AwaitingRemoveName => ModeModel::AwaitingRemoveName,
            Mode::AwaitingUpdateName => ModeModel::AwaitingUpdateName,
            Mode::AwaitingUpdateDuration { name } => ModeModel::AwaitingUpdateDuration {
                name: name@,
            },
            Mode::Finished => ModeModel::Finished,
        }
    }
}

/// What the caller should do after a step: print one of the fixed feedback
/// messages, list the stored records, or nothing.
#[derive(Clone, Copy, Debug, PartialEq, Eq, Structural)]
pub enum Effect {
    /// Nothing to report; the next prompt follows from the mode.
    Quiet,
    /// The menu selection was not one of the five options.
    MenuRangeError,
    /// The duration did not parse as an integer; the prompt repeats.
    NumberError,
    /// The genre was not one of the five recognized words; the prompt repeats.
    GenreError,
    /// A record was stored.
    Rented,
    /// A record was deleted.
    Removed,
    /// The named record does not exist.
    NotFound,
    /// A record's duration was updated.
    Updated,
    /// All stored records should be listed.
    ShowMovies,
}

/// The view of the input line handed to a step.
pub open spec fn line_view(input: Option<String>) -> Option<Seq<char>> {
    match input {
        Some(s) => Some(s@),
        None => None,
    }
}

/// The transition function of the interaction loop: from a mode, a registry,
/// one line of input and the current time to the next mode, the next registry
/// and the effect to show. An empty line ends the loop at the menu and aborts
/// the flow anywhere else; unrecognized menu selections, genres and durations
/// repeat their prompt.
pub open spec fn step_spec(
    m: ModeModel,
    reg: Map<Seq<char>, MovieModel>,
    input: Option<Seq<char>>,
    now: int,
) -> (ModeModel, Map<Seq<char>, MovieModel>, Effect) {
    match input {
        None => match m {
            ModeModel::AtMenu => (ModeModel::Finished, reg, Effect::Quiet),
            ModeModel::Finished => (ModeModel::Finished, reg, Effect::Quiet),
            _ => (ModeModel::AtMenu, reg, Effect::Quiet),
        },
        Some(s) => match m {
            ModeModel::AtMenu => {
                if s == "1"@ {
                    (ModeModel::AwaitingRentName, reg, Effect::Quiet)
                } else if s == "2"@ {
                    (ModeModel::AtMenu, reg, Effect::ShowMovies)
                } else if s == "3"@ {
                    (ModeModel::AwaitingRemoveName, reg, Effect::Quiet)
                } else if s == "4"@ {
                    (ModeModel::AwaitingUpdateName, reg, Effect::Quiet)
                } else if s == "5"@ {
                    (ModeModel::Finished, reg, Effect::Quiet)
                } else {
                    (ModeModel::AtMenu, reg, Effect::MenuRangeError)
                }
            },
            ModeModel::AwaitingRentName => (
                ModeModel::AwaitingRentGenre { name: s },
                reg,
                Effect::Quiet,
            ),
            ModeModel::AwaitingRentGenre { name } => match genre_of(s) {
                Some(g) => (
                    ModeModel::AwaitingRentDuration { name, genre: g },
                    reg,
                    Effect::Quiet,
                ),
                None => (ModeModel::AwaitingRentGenre { name }, reg, Effect::GenreError),
            },
            ModeModel::AwaitingRentDuration { name, genre } => match parsed_i32(s) {
                Some(d) => (
                    ModeModel::AtMenu,
                    reg.insert(
                        name,
                        (MovieModel { name, genre, duration: d, rented_at: now }),
                    ),
                    Effect::Rented,
                ),
                None => (
                    ModeModel::AwaitingRentDuration { name, genre },
                    reg,
                    Effect::NumberError,
                ),
            },
            ModeModel::AwaitingRemoveName => (
                ModeModel::AtMenu,
                reg.remove(s),
                if reg.contains_key(s) {
                    Effect::Removed
                } else {
                    Effect::NotFound
                },
            ),
            ModeModel::AwaitingUpdateName => (
                ModeModel::AwaitingUpdateDuration { name: s },
                reg,
                Effect::Quiet,
            ),
            ModeModel::AwaitingUpdateDuration { name } => match parsed_i32(s) {
                Some(d) => {
                    if reg.contains_key(name) {
                        (
                            ModeModel::AtMenu,
                            reg.insert(
                                name,
                                (MovieModel {
                                    name,
                                    genre: reg[name].genre,
                                    duration: d,
                                    rented_at: now,
                                }),
                            ),
                            Effect::Updated,
                        )
                    } else {
                        (ModeModel::AtMenu, reg, Effect::NotFound)
                    }
                },
                None => (
                    ModeModel::AwaitingUpdateDuration { name },
                    reg,
                    Effect::NumberError,
                ),
            },
            ModeModel::Finished => (ModeModel::Finished, reg, Effect::Quiet),
        },
    }
}

/// One interaction: the current mode and the registry it drives.
pub struct Session {
    pub mode: Mode,
    pub movies: Movies,
}

impl Session {
    /// The session's invariant: the registry holds one record per name.
    pub open spec fn wf(&self) -> bool {
        self.movies.wf()
    }

    /// A fresh session: at the menu, with an empty registry.
    pub fn new() -> (s: Session)
        ensures
            s.wf(),
            s.mode@ == ModeModel::AtMenu,
            s.movies@ == Map::<Seq<char>, MovieModel>::empty(),
    {
        Session { mode: Mode::AtMenu, movies: Movies::new() }
    }

    /// Performs one step of the interaction loop on a trimmed line of input
    /// (`None` for an empty line), stamping new rentals and updates with the
    /// given time.
    pub fn step_at(&mut self, input: Option<String>, now: i64) -> (e: Effect)
        requires
            old(self).wf(),
            input matches Some(s) ==> s@.len() > 0,
        ensures
            final(self).wf(),
            (final(self).mode@, final(self).movies@, e) == step_spec(
                old(self).mode@,
                old(self).movies@,
                line_view(input),
                now as int,
            ),
    {
        let mut taken = Mode::AtMenu;
        core::mem::swap(&mut taken, &mut self.mode);
        match input {
            None => {
                match taken {
                    Mode::AtMenu => {
                        self.mode = Mode::Finished;
                    },
                    Mode::Finished => {
                        self.mode = Mode::Finished;
                    },
                    _ => {
                        self.mode = Mode::AtMenu;
                    },
                }
                Effect::Quiet
            },
            Some(s) => match taken {
                Mode::AtMenu => {
                    if str_eq(s.as_str(), "1") {
                        self.mode = Mode::AwaitingRentName;
                        Effect::Quiet
                    } else if str_eq(s.as_str(), "2") {
                        self.mode = Mode::AtMenu;
                        Effect::ShowMovies
                    } else if str_eq(s.as_str(), "3") {
                        self.mode = Mode::AwaitingRemoveName;
                        Effect::Quiet
                    } else if str_eq(s.as_str(), "4") {
                        self.mode = Mode::AwaitingUpdateName;
                        Effect::Quiet
                    } else if str_eq(s.as_str(), "5") {
                        self.mode = Mode::Finished;
                        Effect::Quiet
                    } else {
                        self.mode = Mode::AtMenu;
                        Effect::MenuRangeError
                    }
                },
                Mode::AwaitingRentName => {
                    self.mode = Mode::AwaitingRentGenre { name: s };
                    Effect::Quiet
                },
                Mode::AwaitingRentGenre { name } => match Genre::from_str(s.as_str()) {
                    Ok(g) => {
                        self.mode = Mode::AwaitingRentDuration { name, genre: g };
                        Effect::Quiet
                    },
                    Err(_) => {
                        self.mode = Mode::AwaitingRentGenre { name };
                        Effect::GenreError
                    },
                },
                Mode::AwaitingRentDuration { name, genre } => match parse_i32(s.as_str()) {
                    Ok(d) => {
                        let movie = Movie { name, genre, duration: d, rented_at: now };
                        self.movies.add(movie);
                        self.mode = Mode::AtMenu;
                        Effect::Rented
                    },
                    Err(_) => {
                        self.mode = Mode::AwaitingRentDuration { name, genre };
                        Effect::NumberError
                    },
                },
                Mode::AwaitingRemoveName => {
                    let found = self.movies.remove(s.as_str());
                    self.mode = Mode::AtMenu;
                    if found {
                        Effect::Removed
                    } else {
                        Effect::NotFound
                    }
                },
                Mode::AwaitingUpdateName => {
                    self.mode = Mode::AwaitingUpdateDuration { name: s };
                    Effect::Quiet
                },
                Mode::AwaitingUpdateDuration { name } => match parse_i32(s.as_str()) {
                    Ok(d) => {
                        let found = self.movies.update_at(name.as_str(), d, now);
                        self.mode = Mode::AtMenu;
                        if found {
                            Effect::Updated
                        } else {
                            Effect::NotFound
                        }
                    },
                    Err(_) => {
                        self.mode = Mode::AwaitingUpdateDuration { name };
                        Effect::NumberError
                    },
                },
                Mode::Finished => {
                    self.mode = Mode::Finished;
                    Effect::Quiet
                },
            },
        }
    }

    /// Performs one step of the interaction loop, stamping new rentals and
    /// updates with the current local time.
    pub fn step(&mut self, input: Option<String>) -> (e: Effect)
        requires
            old(self).wf(),
            input matches Some(s) ==> s@.len() > 0,
        ensures
            final(self).wf(),
            exists|t: int|
                (final(self).mode@, final(self).movies@, e) == step_spec(
                    old(self).mode@,
                    old(self).movies@,
                    line_view(input),
                    t,
                ),
    {
        let now = now_millis();
        self.step_at(input, now)
    }
}

} // verus!
