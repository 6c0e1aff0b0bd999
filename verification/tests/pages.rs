use schnick::error::Error;
use schnick::interaction::{Outcome, Weapon};
use schnick::session::SessionUpdate;
use schnick::username::{compose_username, digit, generate_username};
use schnick::users::{checked_dect, valid_dect, Stats};

const ERRORS: [Error; 11] = [
    Error::NoLogin,
    Error::InvalidLogin,
    Error::InvalidInvite,
    Error::InternalServerError,
    Error::CannotSchnickOneself,
    Error::CannotSchnickTwice,
    Error::AlreadySchnicking,
    Error::NotFound,
    Error::NotInSchnick,
    Error::AlreadySubmitted,
    Error::InvalidSettings,
];

fn stats(num_rock: i32, num_paper: i32, num_scissors: i32) -> Stats {
    Stats {
        id: 1,
        num_schnicks: 0,
        num_won: 0,
        longest_winning_streak: 0,
        current_winning_streak: 0,
        longest_losing_streak: 0,
        current_losing_streak: 0,
        num_children: 0,
        num_rock,
        num_paper,
        num_scissors,
    }
}

#[test]
fn error_statuses() {
    let expected = [403, 403, 403, 500, 409, 409, 409, 404, 404, 409, 400];
    for (error, status) in ERRORS.iter().zip(expected) {
        assert_eq!(error.status(), status);
    }
}

#[test]
fn error_redirects() {
    for error in ERRORS {
        let expected = match error {
            Error::AlreadySchnicking | Error::AlreadySubmitted => "/schnick",
            Error::InvalidSettings => "/settings",
            _ => "/",
        };
        assert_eq!(error.redirect(), expected);
    }
}

#[test]
fn error_messages() {
    assert_eq!(
        Error::CannotSchnickOneself.message(),
        "You cannot start a schnick with yourself. Try inviting another person."
    );
    assert_eq!(Error::NotFound.message(), "The page you tried to open does not exist.");
    assert_eq!(
        Error::InternalServerError.message(),
        "An internal error occured while loading this page. Try again later."
    );
    for (i, first) in ERRORS.iter().enumerate() {
        assert!(first.message().ends_with('.'));
        for second in &ERRORS[i + 1..] {
            assert_ne!(first.message(), second.message());
        }
    }
}

#[test]
fn only_internal_errors_are_retryable() {
    for error in ERRORS {
        assert_eq!(error.is_retryable(), error == Error::InternalServerError);
    }
}

#[test]
fn digits_are_the_last_decimal_digit() {
    assert_eq!(digit(0), "0");
    assert_eq!(digit(7), "7");
    assert_eq!(digit(9), "9");
    assert_eq!(digit(10), "0");
    assert_eq!(digit(123), "3");
    assert_eq!(digit(u32::MAX), "5");
}

#[test]
fn composed_usernames() {
    assert_eq!(compose_username("Rock", &vec![4, 0, 7]), "Rock fan #407");
    assert_eq!(compose_username("Paper", &vec![0, 3, 1, 3, 3, 7]), "Paper fan #031337");
    assert_eq!(compose_username("Scissors", &vec![]), "Scissors fan #");
    assert_eq!(compose_username("", &vec![12, 25]), " fan #25");
}

#[test]
fn generated_usernames_have_a_weapon_and_six_digits() {
    let mut numbers = Vec::new();
    let mut weapons = Vec::new();
    for _ in 0..40 {
        let name = generate_username();
        let (weapon, number) = name.split_once(" fan #").unwrap();
        assert!(matches!(weapon, "Rock" | "Paper" | "Scissors"));
        assert_eq!(number.len(), 6);
        assert!(number.chars().all(|c| c.is_ascii_digit()));
        numbers.push(number.to_string());
        weapons.push(weapon.to_string());
    }
    assert!(numbers.iter().any(|number| number != "000000"));
    assert!(numbers.iter().any(|number| number != &numbers[0]));
    assert!(weapons.iter().any(|weapon| weapon != &weapons[0]));
}

#[test]
fn single_favorites() {
    assert_eq!(stats(3, 1, 2).favorites(), vec![Weapon::Rock]);
    assert_eq!(stats(1, 3, 2).favorites(), vec![Weapon::Paper]);
    assert_eq!(stats(1, 2, 3).favorites(), vec![Weapon::Scissors]);
    assert_eq!(stats(2, 2, 3).favorites(), vec![Weapon::Scissors]);
    assert_eq!(stats(2, 1, 3).favorites(), vec![Weapon::Scissors]);
    assert_eq!(stats(-1, -2, -3).favorites(), vec![Weapon::Rock]);
}

#[test]
fn tied_favorites() {
    assert_eq!(stats(0, 0, 0).favorites(), vec![Weapon::Rock, Weapon::Paper, Weapon::Scissors]);
    assert_eq!(stats(2, 2, 1).favorites(), vec![Weapon::Rock, Weapon::Paper]);
    assert_eq!(stats(2, 1, 2).favorites(), vec![Weapon::Rock, Weapon::Scissors]);
    assert_eq!(stats(1, 2, 2).favorites(), vec![Weapon::Scissors, Weapon::Paper]);
    assert_eq!(
        stats(i32::MAX, i32::MAX, i32::MAX).favorites(),
        vec![Weapon::Rock, Weapon::Paper, Weapon::Scissors]
    );
}

#[test]
fn session_updates_after_a_report() {
    assert_eq!(SessionUpdate::after_interaction(None), SessionUpdate::SchnickUpdated);
    assert_eq!(SessionUpdate::after_interaction(Some(Outcome::Retry)), SessionUpdate::SchnickRetried);
    assert_eq!(SessionUpdate::after_interaction(Some(Outcome::Concluded)), SessionUpdate::SchnickEnded);
    assert_eq!(SessionUpdate::after_interaction(Some(Outcome::Aborted)), SessionUpdate::SchnickEnded);
}

#[test]
fn pending_reports_concern_only_their_author() {
    assert!(!SessionUpdate::SchnickUpdated.concerns_opponent());
    assert!(SessionUpdate::SchnickStarted.concerns_opponent());
    assert!(SessionUpdate::SchnickRetried.concerns_opponent());
    assert!(SessionUpdate::SchnickEnded.concerns_opponent());
}

#[test]
fn waiting_players_go_home_unless_they_retry() {
    assert_eq!(Outcome::Concluded.destination(), "home");
    assert_eq!(Outcome::Aborted.destination(), "home");
    assert_eq!(Outcome::Retry.destination(), "schnick");
}

#[test]
fn telephone_extensions_are_four_digits() {
    assert!(valid_dect("0000"));
    assert!(valid_dect("1234"));
    assert!(valid_dect("9999"));
    assert!(!valid_dect(""));
    assert!(!valid_dect("123"));
    assert!(!valid_dect("12345"));
    assert!(!valid_dect("12a4"));
    assert!(!valid_dect("12 4"));
    assert!(!valid_dect("/123"));
    assert!(!valid_dect("123:"));
    assert!(!valid_dect("١٢٣٤"));
    assert!(!valid_dect("1é3"));
}

#[test]
fn submitted_telephone_extensions() {
    assert_eq!(checked_dect(None), Ok(None));
    assert_eq!(checked_dect(Some(String::new())), Ok(None));
    assert_eq!(checked_dect(Some("4711".to_string())), Ok(Some("4711".to_string())));
    assert_eq!(checked_dect(Some("471".to_string())), Err(Error::InvalidSettings));
    assert_eq!(checked_dect(Some("47 1".to_string())), Err(Error::InvalidSettings));
    assert_eq!(checked_dect(Some(" ".to_string())), Err(Error::InvalidSettings));
}
