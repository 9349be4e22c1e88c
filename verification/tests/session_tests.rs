use movie_rental::session::{Effect, Mode, Session};
use movie_rental::genre::Genre;

fn line(s: &str) -> Option<String> {
    Some(String::from(s))
}

#[test]
fn session_menu_five_terminates() {
    let mut s = Session::new();
    let e = s.step_at(line("5"), 0);
    assert_eq!(e, Effect::Quiet);
    assert!(matches!(s.mode, Mode::Finished));
    assert_eq!(s.movies.get_all().len(), 0);
}

#[test]
fn session_menu_empty_line_terminates() {
    let mut s = Session::new();
    let e = s.step_at(None, 0);
    assert_eq!(e, Effect::Quiet);
    assert!(matches!(s.mode, Mode::Finished));
}

#[test]
fn session_menu_out_of_range() {
    let mut s = Session::new();
    assert_eq!(s.step_at(line("9"), 0), Effect::MenuRangeError);
    assert!(matches!(s.mode, Mode::AtMenu));
    assert_eq!(s.step_at(line("rent"), 0), Effect::MenuRangeError);
    assert!(matches!(s.mode, Mode::AtMenu));
}

#[test]
fn session_view_lists_records() {
    let mut s = Session::new();
    let e = s.step_at(line("2"), 0);
    assert_eq!(e, Effect::ShowMovies);
    assert!(matches!(s.mode, Mode::AtMenu));
}

#[test]
fn session_rent_full_flow() {
    let mut s = Session::new();
    assert_eq!(s.step_at(line("1"), 0), Effect::Quiet);
    assert!(matches!(s.mode, Mode::AwaitingRentName));
    assert_eq!(s.step_at(line("Inception"), 0), Effect::Quiet);
    assert!(matches!(s.mode, Mode::AwaitingRentGenre { .. }));
    assert_eq!(s.step_at(line("Drama"), 0), Effect::Quiet);
    assert!(matches!(s.mode, Mode::AwaitingRentDuration { .. }));
    assert_eq!(s.step_at(line("12"), 777), Effect::Rented);
    assert!(matches!(s.mode, Mode::AtMenu));
    let all = s.movies.get_all();
    assert_eq!(all.len(), 1);
    assert_eq!(all[0].name, "Inception");
    assert_eq!(all[0].genre, Genre::Drama);
    assert_eq!(all[0].duration, 12);
    assert_eq!(all[0].rented_at, 777);
}

#[test]
fn session_rent_abort_on_empty_genre() {
    let mut s = Session::new();
    s.step_at(line("1"), 0);
    s.step_at(line("Matrix"), 0);
    let e = s.step_at(None, 0);
    assert_eq!(e, Effect::Quiet);
    assert!(matches!(s.mode, Mode::AtMenu));
    assert_eq!(s.movies.get_all().len(), 0);
}

#[test]
fn session_rent_abort_on_empty_name() {
    let mut s = Session::new();
    s.step_at(line("1"), 0);
    let e = s.step_at(None, 0);
    assert_eq!(e, Effect::Quiet);
    assert!(matches!(s.mode, Mode::AtMenu));
    assert_eq!(s.movies.get_all().len(), 0);
}

#[test]
fn session_rent_bad_genre_reprompts() {
    let mut s = Session::new();
    s.step_at(line("1"), 0);
    s.step_at(line("Matrix"), 0);
    assert_eq!(s.step_at(line("SciFi"), 0), Effect::GenreError);
    assert!(matches!(s.mode, Mode::AwaitingRentGenre { .. }));
    assert_eq!(s.step_at(line("Horror"), 0), Effect::Quiet);
    assert!(matches!(s.mode, Mode::AwaitingRentDuration { .. }));
}

#[test]
fn session_rent_bad_duration_reprompts() {
    let mut s = Session::new();
    s.step_at(line("1"), 0);
    s.step_at(line("Matrix"), 0);
    s.step_at(line("Action"), 0);
    assert_eq!(s.step_at(line("soon"), 0), Effect::NumberError);
    assert!(matches!(s.mode, Mode::AwaitingRentDuration { .. }));
    assert_eq!(s.step_at(line("4"), 5), Effect::Rented);
    assert_eq!(s.movies.get_all().len(), 1);
}

#[test]
fn session_remove_flow() {
    let mut s = Session::new();
    s.step_at(line("1"), 0);
    s.step_at(line("Matrix"), 0);
    s.step_at(line("Action"), 0);
    s.step_at(line("3"), 0);
    assert_eq!(s.step_at(line("3"), 0), Effect::Quiet);
    assert!(matches!(s.mode, Mode::AwaitingRemoveName));
    assert_eq!(s.step_at(line("Matrix"), 0), Effect::Removed);
    assert!(matches!(s.mode, Mode::AtMenu));
    assert_eq!(s.movies.get_all().len(), 0);
}

#[test]
fn session_remove_missing_reports_not_found() {
    let mut s = Session::new();
    s.step_at(line("3"), 0);
    assert_eq!(s.step_at(line("Ghost"), 0), Effect::NotFound);
    assert!(matches!(s.mode, Mode::AtMenu));
}

#[test]
fn session_update_flow() {
    let mut s = Session::new();
    s.step_at(line("1"), 0);
    s.step_at(line("Matrix"), 0);
    s.step_at(line("Action"), 0);
    s.step_at(line("3"), 100);
    assert_eq!(s.step_at(line("4"), 0), Effect::Quiet);
    assert!(matches!(s.mode, Mode::AwaitingUpdateName));
    assert_eq!(s.step_at(line("Matrix"), 0), Effect::Quiet);
    assert!(matches!(s.mode, Mode::AwaitingUpdateDuration { .. }));
    assert_eq!(s.step_at(line("7"), 200), Effect::Updated);
    assert!(matches!(s.mode, Mode::AtMenu));
    let all = s.movies.get_all();
    assert_eq!(all.len(), 1);
    assert_eq!(all[0].duration, 7);
    assert_eq!(all[0].rented_at, 200);
    assert_eq!(all[0].genre, Genre::Action);
}

#[test]
fn session_update_missing_reports_not_found() {
    let mut s = Session::new();
    s.step_at(line("4"), 0);
    s.step_at(line("Ghost"), 0);
    assert_eq!(s.step_at(line("5"), 0), Effect::NotFound);
    assert!(matches!(s.mode, Mode::AtMenu));
    assert_eq!(s.movies.get_all().len(), 0);
}

#[test]
fn session_update_bad_duration_reprompts() {
    let mut s = Session::new();
    s.step_at(line("4"), 0);
    s.step_at(line("Matrix"), 0);
    assert_eq!(s.step_at(line("x"), 0), Effect::NumberError);
    assert!(matches!(s.mode, Mode::AwaitingUpdateDuration { .. }));
}

#[test]
fn session_step_with_clock_stamps_rental() {
    let mut s = Session::new();
    s.step(line("1"));
    s.step(line("Matrix"));
    s.step(line("Action"));
    assert_eq!(s.step(line("3")), Effect::Rented);
    let all = s.movies.get_all();
    assert_eq!(all.len(), 1);
    // The wall clock is well past the epoch.
    assert!(all[0].rented_at > 0);
}
