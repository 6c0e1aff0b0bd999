use futures::FutureExt;
use schnick::error::Error;
use schnick::interaction::{Interaction, Outcome, SavedSchnick, Weapon};
use schnick::graphs::GraphUpdate;
use schnick::schnicks::{SchnickRequest, SchnickResponse, Schnicker};

const WEAPONS: [Weapon; 3] = [Weapon::Rock, Weapon::Scissors, Weapon::Paper];

fn won(weapon: Weapon) -> Interaction {
    Interaction { won: true, weapon }
}

fn lost(weapon: Weapon) -> Interaction {
    Interaction { won: false, weapon }
}

fn record(engine: &Schnicker, id: i32, interaction: &Interaction) -> Option<SavedSchnick> {
    engine.conclusion(id, interaction).map(|conclusion| conclusion.saved)
}

fn started(a: i32, b: i32) -> Schnicker {
    let mut engine = Schnicker::new();
    assert_eq!(engine.start_schnick(a, b, Some(false)), Ok(()));
    engine
}

#[test]
fn weapon_codes_are_rock_scissors_paper() {
    assert_eq!(Weapon::Rock.code(), 0);
    assert_eq!(Weapon::Scissors.code(), 1);
    assert_eq!(Weapon::Paper.code(), 2);
}

#[test]
fn prey_and_bane_follow_the_cycle() {
    assert_eq!(Weapon::Rock.prey(), Weapon::Scissors);
    assert_eq!(Weapon::Scissors.prey(), Weapon::Paper);
    assert_eq!(Weapon::Paper.prey(), Weapon::Rock);
    assert_eq!(Weapon::Rock.bane(), Weapon::Paper);
    assert_eq!(Weapon::Scissors.bane(), Weapon::Rock);
    assert_eq!(Weapon::Paper.bane(), Weapon::Scissors);
}

#[test]
fn complementary_reports() {
    assert_eq!(won(Weapon::Rock).complementary(), lost(Weapon::Scissors));
    assert_eq!(won(Weapon::Paper).complementary(), lost(Weapon::Rock));
    assert_eq!(won(Weapon::Scissors).complementary(), lost(Weapon::Paper));
    assert_eq!(lost(Weapon::Rock).complementary(), won(Weapon::Paper));
    assert_eq!(lost(Weapon::Paper).complementary(), won(Weapon::Scissors));
    assert_eq!(lost(Weapon::Scissors).complementary(), won(Weapon::Rock));
}

#[test]
fn compatibility_is_exactly_the_cycle() {
    for first_won in [true, false] {
        for first_weapon in WEAPONS {
            for second_won in [true, false] {
                for second_weapon in WEAPONS {
                    let first = Interaction { won: first_won, weapon: first_weapon };
                    let second = Interaction { won: second_won, weapon: second_weapon };
                    let (winner, loser) = if first_won { (first, second) } else { (second, first) };
                    let expected = first_won != second_won
                        && matches!(
                            (winner.weapon, loser.weapon),
                            (Weapon::Rock, Weapon::Scissors)
                                | (Weapon::Scissors, Weapon::Paper)
                                | (Weapon::Paper, Weapon::Rock)
                        );
                    assert_eq!(first.compatible(&second), expected);
                    assert_eq!(second.compatible(&first), expected);
                }
            }
        }
    }
}

#[test]
fn a_win_with_rock_agrees_only_with_a_loss_with_scissors() {
    let report = won(Weapon::Rock);
    assert!(report.compatible(&lost(Weapon::Scissors)));
    assert!(!report.compatible(&lost(Weapon::Rock)));
    assert!(!report.compatible(&lost(Weapon::Paper)));
    assert!(!report.compatible(&won(Weapon::Scissors)));
    assert!(!report.compatible(&won(Weapon::Rock)));
    assert!(!report.compatible(&won(Weapon::Paper)));
}

#[test]
fn saved_schnick_names_the_claimed_winner() {
    assert_eq!(
        Schnicker::saved_schnick(7, &won(Weapon::Paper), 9, &lost(Weapon::Rock)),
        Some(SavedSchnick { winner: 7, loser: 9, weapon: 2 })
    );
    assert_eq!(
        Schnicker::saved_schnick(7, &lost(Weapon::Paper), 9, &won(Weapon::Scissors)),
        Some(SavedSchnick { winner: 9, loser: 7, weapon: 1 })
    );
    assert_eq!(Schnicker::saved_schnick(7, &won(Weapon::Paper), 9, &won(Weapon::Rock)), None);
    assert_eq!(Schnicker::saved_schnick(7, &lost(Weapon::Paper), 9, &lost(Weapon::Rock)), None);
    assert_eq!(Schnicker::saved_schnick(7, &won(Weapon::Paper), 9, &lost(Weapon::Scissors)), None);
}

#[test]
fn new_engine_has_no_match() {
    let mut engine = Schnicker::new();
    assert_eq!(engine.in_schnick(1), Err(Error::NotInSchnick));
    assert_eq!(engine.opponent(1), None);
    assert_eq!(engine.abort_schnick(1), Err(Error::NotInSchnick));
    assert_eq!(engine.handle_interaction(1, &won(Weapon::Rock), true), Err(Error::NotInSchnick));
    assert!(matches!(engine.get_outcome_receiver(1), Err(Error::NotFound)));
    assert_eq!(record(&engine, 1, &won(Weapon::Rock)), None);
}

#[test]
fn started_match_holds_both_players() {
    let engine = started(1, 2);
    assert_eq!(engine.in_schnick(1), Ok(true));
    assert_eq!(engine.in_schnick(2), Ok(true));
    assert_eq!(engine.opponent(1), Some(2));
    assert_eq!(engine.opponent(2), Some(1));
    assert_eq!(engine.in_schnick(3), Err(Error::NotInSchnick));
}

#[test]
fn players_of_a_match_are_busy() {
    let mut engine = started(1, 2);
    assert_eq!(engine.start_schnick(1, 3, Some(false)), Err(Error::AlreadySchnicking));
    assert_eq!(engine.start_schnick(3, 1, Some(false)), Err(Error::AlreadySchnicking));
    assert_eq!(engine.start_schnick(2, 3, Some(false)), Err(Error::AlreadySchnicking));
    assert_eq!(engine.start_schnick(3, 2, Some(false)), Err(Error::AlreadySchnicking));
    assert_eq!(engine.start_schnick(1, 2, Some(false)), Err(Error::AlreadySchnicking));
    assert_eq!(engine.start_schnick(2, 1, Some(false)), Err(Error::AlreadySchnicking));
    assert_eq!(engine.in_schnick(3), Err(Error::NotInSchnick));
    assert_eq!(engine.start_schnick(3, 4, Some(false)), Ok(()));
    assert_eq!(engine.opponent(1), Some(2));
    assert_eq!(engine.opponent(3), Some(4));
}

#[test]
fn players_stay_busy_until_the_match_is_over() {
    let mut engine = started(1, 2);
    assert_eq!(engine.handle_interaction(1, &won(Weapon::Rock), true), Ok(None));
    assert_eq!(engine.start_schnick(1, 3, Some(false)), Err(Error::AlreadySchnicking));
    assert_eq!(engine.handle_interaction(2, &won(Weapon::Rock), true), Ok(Some(Outcome::Retry)));
    assert_eq!(engine.start_schnick(3, 2, Some(false)), Err(Error::AlreadySchnicking));
    assert_eq!(engine.abort_schnick(2), Ok(()));
    assert_eq!(engine.start_schnick(1, 3, Some(false)), Ok(()));
    assert_eq!(engine.start_schnick(2, 4, Some(false)), Ok(()));
}

#[test]
fn nobody_plays_themselves() {
    let mut engine = Schnicker::new();
    assert_eq!(engine.start_schnick(5, 5, Some(false)), Err(Error::CannotSchnickOneself));
    assert_eq!(engine.start_schnick(5, 5, Some(true)), Err(Error::CannotSchnickOneself));
    assert_eq!(engine.start_schnick(5, 5, None), Err(Error::CannotSchnickOneself));
    let mut busy = started(5, 6);
    assert_eq!(busy.start_schnick(5, 5, Some(false)), Err(Error::CannotSchnickOneself));
    assert_eq!(busy.start_schnick(6, 6, Some(true)), Err(Error::CannotSchnickOneself));
    assert_eq!(busy.opponent(5), Some(6));
}

#[test]
fn recorded_pairs_never_play_again() {
    let mut engine = Schnicker::new();
    assert_eq!(engine.start_schnick(1, 2, Some(true)), Err(Error::CannotSchnickTwice));
    assert_eq!(engine.start_schnick(2, 1, Some(true)), Err(Error::CannotSchnickTwice));
    assert_eq!(engine.in_schnick(1), Err(Error::NotInSchnick));
    let mut busy = started(1, 3);
    assert_eq!(busy.start_schnick(1, 2, Some(true)), Err(Error::CannotSchnickTwice));
    assert_eq!(busy.start_schnick(1, 3, Some(true)), Err(Error::CannotSchnickTwice));
}

#[test]
fn start_fails_when_persistence_does() {
    let mut engine = Schnicker::new();
    assert_eq!(engine.start_schnick(1, 2, None), Err(Error::InternalServerError));
    assert_eq!(engine.in_schnick(1), Err(Error::NotInSchnick));
    assert_eq!(engine.in_schnick(2), Err(Error::NotInSchnick));
}

#[test]
fn concluded_scenario() {
    let mut engine = started(1, 2);
    let first = won(Weapon::Rock);
    let second = lost(Weapon::Scissors);
    assert_eq!(record(&engine, 1, &first), None);
    assert_eq!(engine.handle_interaction(1, &first, true), Ok(None));
    assert_eq!(
        record(&engine, 2, &second),
        Some(SavedSchnick { winner: 1, loser: 2, weapon: 0 })
    );
    assert_eq!(engine.handle_interaction(2, &second, true), Ok(Some(Outcome::Concluded)));
    assert_eq!(engine.in_schnick(1), Err(Error::NotInSchnick));
    assert_eq!(engine.in_schnick(2), Err(Error::NotInSchnick));
}

#[test]
fn retry_scenario() {
    let mut engine = started(1, 2);
    assert_eq!(engine.handle_interaction(1, &won(Weapon::Rock), true), Ok(None));
    assert_eq!(record(&engine, 2, &won(Weapon::Paper)), None);
    assert_eq!(engine.handle_interaction(2, &won(Weapon::Paper), true), Ok(Some(Outcome::Retry)));
    assert_eq!(engine.in_schnick(1), Ok(true));
    assert_eq!(engine.in_schnick(2), Ok(true));
    assert_eq!(engine.opponent(1), Some(2));
}

#[test]
fn concluded_match_is_gone_for_good() {
    let mut engine = started(1, 2);
    assert_eq!(engine.handle_interaction(2, &lost(Weapon::Paper), true), Ok(None));
    assert_eq!(
        record(&engine, 1, &won(Weapon::Scissors)),
        Some(SavedSchnick { winner: 1, loser: 2, weapon: 1 })
    );
    assert_eq!(
        engine.handle_interaction(1, &won(Weapon::Scissors), true),
        Ok(Some(Outcome::Concluded))
    );
    assert_eq!(record(&engine, 1, &won(Weapon::Scissors)), None);
    assert_eq!(record(&engine, 2, &lost(Weapon::Paper)), None);
    assert_eq!(
        engine.handle_interaction(1, &won(Weapon::Scissors), true),
        Err(Error::NotInSchnick)
    );
    assert_eq!(engine.handle_interaction(2, &lost(Weapon::Paper), true), Err(Error::NotInSchnick));
    assert_eq!(engine.abort_schnick(1), Err(Error::NotInSchnick));
    assert_eq!(engine.opponent(2), None);
    assert!(matches!(engine.get_outcome_receiver(2), Err(Error::NotFound)));
    assert_eq!(engine.start_schnick(1, 2, Some(true)), Err(Error::CannotSchnickTwice));
    assert_eq!(engine.start_schnick(1, 3, Some(false)), Ok(()));
}

#[test]
fn failed_persistence_leaves_the_round_open() {
    let mut engine = started(1, 2);
    assert_eq!(engine.handle_interaction(1, &won(Weapon::Rock), true), Ok(None));
    assert_eq!(
        engine.handle_interaction(2, &lost(Weapon::Scissors), false),
        Err(Error::InternalServerError)
    );
    assert_eq!(engine.in_schnick(1), Ok(false));
    assert_eq!(engine.in_schnick(2), Ok(true));
    assert_eq!(
        record(&engine, 2, &lost(Weapon::Scissors)),
        Some(SavedSchnick { winner: 1, loser: 2, weapon: 0 })
    );
    assert_eq!(
        engine.handle_interaction(2, &lost(Weapon::Scissors), true),
        Ok(Some(Outcome::Concluded))
    );
}

#[test]
fn persistence_is_not_consulted_without_a_conclusion() {
    let mut engine = started(1, 2);
    assert_eq!(engine.handle_interaction(1, &won(Weapon::Rock), false), Ok(None));
    assert_eq!(engine.handle_interaction(2, &won(Weapon::Rock), false), Ok(Some(Outcome::Retry)));
}

#[test]
fn pending_player_may_change_their_mind() {
    let mut engine = started(1, 2);
    assert_eq!(engine.handle_interaction(1, &won(Weapon::Rock), true), Ok(None));
    assert_eq!(engine.in_schnick(1), Ok(false));
    assert_eq!(engine.in_schnick(2), Ok(true));
    assert_eq!(engine.handle_interaction(1, &lost(Weapon::Rock), true), Ok(None));
    assert_eq!(engine.in_schnick(1), Ok(false));
    assert_eq!(record(&engine, 2, &lost(Weapon::Scissors)), None);
    assert_eq!(
        record(&engine, 2, &won(Weapon::Paper)),
        Some(SavedSchnick { winner: 2, loser: 1, weapon: 2 })
    );
    assert_eq!(engine.handle_interaction(2, &won(Weapon::Paper), true), Ok(Some(Outcome::Concluded)));
}

#[test]
fn after_a_retry_either_player_may_report_first() {
    let mut engine = started(1, 2);
    assert_eq!(engine.handle_interaction(1, &won(Weapon::Rock), true), Ok(None));
    assert_eq!(engine.handle_interaction(2, &lost(Weapon::Rock), true), Ok(Some(Outcome::Retry)));
    assert_eq!(engine.handle_interaction(2, &lost(Weapon::Rock), true), Ok(None));
    assert_eq!(engine.in_schnick(2), Ok(false));
    assert_eq!(engine.in_schnick(1), Ok(true));
    assert_eq!(engine.handle_interaction(1, &won(Weapon::Paper), true), Ok(Some(Outcome::Concluded)));
}

#[test]
fn abort_ends_the_match_for_both() {
    let mut engine = started(1, 2);
    assert_eq!(engine.handle_interaction(1, &won(Weapon::Rock), true), Ok(None));
    assert_eq!(engine.abort_schnick(2), Ok(()));
    assert_eq!(engine.in_schnick(1), Err(Error::NotInSchnick));
    assert_eq!(engine.in_schnick(2), Err(Error::NotInSchnick));
    assert_eq!(engine.abort_schnick(1), Err(Error::NotInSchnick));
    assert_eq!(engine.start_schnick(1, 2, Some(false)), Ok(()));
    assert_eq!(engine.in_schnick(1), Ok(true));
    assert_eq!(record(&engine, 2, &lost(Weapon::Scissors)), None);
}

#[test]
fn abort_of_one_match_leaves_the_others() {
    let mut engine = started(1, 2);
    assert_eq!(engine.start_schnick(3, 4, Some(false)), Ok(()));
    assert_eq!(engine.handle_interaction(3, &won(Weapon::Rock), true), Ok(None));
    assert_eq!(engine.abort_schnick(1), Ok(()));
    assert_eq!(engine.opponent(3), Some(4));
    assert_eq!(engine.in_schnick(3), Ok(false));
    assert_eq!(engine.in_schnick(4), Ok(true));
}

#[test]
fn only_the_pending_player_may_subscribe() {
    let mut engine = started(1, 2);
    assert!(matches!(engine.get_outcome_receiver(1), Err(Error::NotFound)));
    assert!(matches!(engine.get_outcome_receiver(2), Err(Error::NotFound)));
    assert!(matches!(engine.get_outcome_receiver(3), Err(Error::NotFound)));
    assert_eq!(engine.handle_interaction(1, &won(Weapon::Rock), true), Ok(None));
    assert!(engine.get_outcome_receiver(1).is_ok());
    assert!(matches!(engine.get_outcome_receiver(2), Err(Error::NotFound)));
}

#[test]
fn subscriber_hears_of_the_conclusion() {
    let mut engine = started(1, 2);
    assert_eq!(engine.handle_interaction(1, &won(Weapon::Rock), true), Ok(None));
    let mut receiver = engine.get_outcome_receiver(1).unwrap();
    assert!(receiver.changed().now_or_never().is_none());
    assert_eq!(
        engine.handle_interaction(2, &lost(Weapon::Scissors), true),
        Ok(Some(Outcome::Concluded))
    );
    assert!(matches!(receiver.changed().now_or_never(), Some(Ok(()))));
    assert_eq!(*receiver.borrow(), Outcome::Concluded);
}

#[test]
fn subscriber_hears_of_the_retry() {
    let mut engine = started(1, 2);
    assert_eq!(engine.handle_interaction(1, &won(Weapon::Rock), true), Ok(None));
    let mut receiver = engine.get_outcome_receiver(1).unwrap();
    assert_eq!(engine.handle_interaction(2, &won(Weapon::Paper), true), Ok(Some(Outcome::Retry)));
    assert!(matches!(receiver.changed().now_or_never(), Some(Ok(()))));
    assert_eq!(*receiver.borrow(), Outcome::Retry);
}

#[test]
fn subscriber_hears_of_the_abort() {
    let mut engine = started(1, 2);
    assert_eq!(engine.handle_interaction(1, &won(Weapon::Rock), true), Ok(None));
    let mut receiver = engine.get_outcome_receiver(1).unwrap();
    assert_eq!(engine.abort_schnick(1), Ok(()));
    assert!(matches!(receiver.changed().now_or_never(), Some(Ok(()))));
    assert_eq!(*receiver.borrow(), Outcome::Aborted);
}

#[test]
fn subscriber_keeps_waiting_through_a_second_thought() {
    let mut engine = started(1, 2);
    assert_eq!(engine.handle_interaction(1, &won(Weapon::Rock), true), Ok(None));
    let mut receiver = engine.get_outcome_receiver(1).unwrap();
    assert_eq!(engine.handle_interaction(1, &won(Weapon::Paper), true), Ok(None));
    assert!(receiver.changed().now_or_never().is_none());
    assert_eq!(engine.abort_schnick(2), Ok(()));
    assert!(matches!(receiver.changed().now_or_never(), Some(Ok(()))));
    assert_eq!(*receiver.borrow(), Outcome::Aborted);
}

#[test]
fn serve_answers_in_kind() {
    let mut engine = Schnicker::new();
    let report = won(Weapon::Rock);
    assert!(matches!(
        engine.serve(SchnickRequest::InSchnick { id: 1 }),
        SchnickResponse::InSchnick(Err(Error::NotInSchnick))
    ));
    assert!(matches!(
        engine.serve(SchnickRequest::StartSchnick { id: 1, opponent: 2, already_schnicked: Some(false) }),
        SchnickResponse::StartSchnick(Ok(()))
    ));
    assert!(matches!(
        engine.serve(SchnickRequest::GetOutcomeReceiver { id: 1 }),
        SchnickResponse::GetOutcomeReceiver(Err(Error::NotFound))
    ));
    assert!(matches!(
        engine.serve(SchnickRequest::HandleInteraction { id: 1, interaction: report, persisted: true }),
        SchnickResponse::HandleInteraction(Ok(None))
    ));
    assert!(matches!(
        engine.serve(SchnickRequest::GetOutcomeReceiver { id: 1 }),
        SchnickResponse::GetOutcomeReceiver(Ok(_))
    ));
    assert!(matches!(
        engine.serve(SchnickRequest::InSchnick { id: 1 }),
        SchnickResponse::InSchnick(Ok(false))
    ));
    assert!(matches!(
        engine.serve(SchnickRequest::AbortSchnick { id: 2 }),
        SchnickResponse::AbortSchnick(Ok(()))
    ));
    assert!(matches!(
        engine.serve(SchnickRequest::AbortSchnick { id: 2 }),
        SchnickResponse::AbortSchnick(Err(Error::NotInSchnick))
    ));
}

#[test]
fn conclusion_says_what_is_to_be_done() {
    let mut engine = started(8, 5);
    assert_eq!(engine.handle_interaction(8, &lost(Weapon::Rock), true), Ok(None));
    let conclusion = engine.conclusion(5, &won(Weapon::Paper)).unwrap();
    assert_eq!(conclusion.saved, SavedSchnick { winner: 5, loser: 8, weapon: 2 });
    assert!(matches!(conclusion.played, GraphUpdate::Schnick { a: 8, b: 5 }));
    assert_eq!(conclusion.invitees, (5, 8));
    assert!(engine.conclusion(5, &won(Weapon::Rock)).is_none());
    assert!(engine.conclusion(8, &won(Weapon::Paper)).is_none());
    assert!(engine.conclusion(7, &won(Weapon::Paper)).is_none());
}
