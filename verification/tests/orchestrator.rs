use mancala_frontend::orchestrator::change_difficulty;
use mancala_frontend::orchestrator::restart;
use mancala_frontend::orchestrator::ClickData;
use mancala_frontend::orchestrator::InvalidLocalAction;
use mancala_frontend::orchestrator::Phase;
use mancala_frontend::orchestrator::ResetPlan;
use mancala_frontend::orchestrator::Schedule;
use mancala_frontend::orchestrator::TurnOrchestrator;
use mancala_frontend::orchestrator::OPPONENT_DELAY_SECS;
use mancala_frontend::orchestrator::OPPONENT_TIMEOUT_SECS;
use mancala_frontend::orchestrator::PLACEHOLDER_PIT;
use mancala_frontend::session::Reply;
use mancala_frontend::session::Request;
use mancala_frontend::session::SessionError;
use mancala_frontend::store::StateStore;
use mancala_frontend::types::Difficulty;
use mancala_frontend::types::GameData;
use mancala_frontend::types::Player;
use mancala_frontend::types::PlayerType;
use mancala_frontend::types::SessionId;
use std::collections::HashMap;

const SESSION: SessionId = SessionId(0x11112222333344445555666677778888);

fn game(turn: PlayerType, winner: Option<PlayerType>) -> GameData {
    let mut players = HashMap::new();
    players.insert(0, Player { big_pit: 0, pits: vec![4, 4, 4, 0, 4, 4] });
    players.insert(1, Player { big_pit: 0, pits: vec![4, 4, 4, 4, 4, 4] });
    GameData { session_id: SESSION, difficulty: Difficulty::Easy, turn, winner, players }
}

fn store_with(data: GameData) -> StateStore {
    let mut store = StateStore::new();
    store.replace(data);
    store
}

fn opponent_request() -> Request {
    Request::SubmitMove { session_id: SESSION, player: PlayerType::Player2, pit: PLACEHOLDER_PIT }
}

#[test]
fn constants_of_the_opponent_move() {
    assert_eq!(OPPONENT_DELAY_SECS, 1);
    assert_eq!(OPPONENT_TIMEOUT_SECS, 10);
    assert_eq!(PLACEHOLDER_PIT, 0);
}

#[test]
fn new_orchestrator_is_idle() {
    let orchestrator = TurnOrchestrator::new(PlayerType::Player1);
    assert_eq!(orchestrator.phase(), Phase::Idle);
    assert_eq!(orchestrator.local_player(), PlayerType::Player1);
    assert!(!orchestrator.holds_guard());
}

#[test]
fn first_rendering_fetches_once() {
    let mut orchestrator = TurnOrchestrator::new(PlayerType::Player1);
    assert_eq!(
        orchestrator.page_rendered(false),
        Some(Request::FetchSnapshot { session_id: None })
    );
    assert_eq!(orchestrator.page_rendered(false), None);
    assert_eq!(orchestrator.page_rendered(true), None);
}

#[test]
fn rendering_that_keeps_the_session_fetches_nothing() {
    let mut orchestrator = TurnOrchestrator::new(PlayerType::Player1);
    assert_eq!(orchestrator.page_rendered(true), None);
    assert_eq!(orchestrator.page_rendered(true), None);
    assert_eq!(
        orchestrator.page_rendered(false),
        Some(Request::FetchSnapshot { session_id: None })
    );
    assert_eq!(orchestrator.page_rendered(false), None);
}

#[test]
fn page_put_up_anew_fetches_again_and_keeps_the_phase() {
    let mut orchestrator = TurnOrchestrator::new(PlayerType::Player1);
    let store = store_with(game(PlayerType::Player2, None));
    assert!(orchestrator.page_rendered(false).is_some());
    let schedule = orchestrator.evaluate(&store).unwrap();
    orchestrator.timer_fired(schedule);
    orchestrator.page_mounted();
    assert_eq!(orchestrator.phase(), Phase::AwaitingOpponentMove);
    assert_eq!(
        orchestrator.page_rendered(false),
        Some(Request::FetchSnapshot { session_id: None })
    );
    assert_eq!(orchestrator.page_rendered(false), None);
    orchestrator.page_mounted();
    assert_eq!(orchestrator.page_rendered(true), None);
}

#[test]
fn empty_store_keeps_the_orchestrator_idle() {
    let mut orchestrator = TurnOrchestrator::new(PlayerType::Player1);
    let store = StateStore::new();
    assert_eq!(orchestrator.evaluate(&store), None);
    assert_eq!(orchestrator.phase(), Phase::Idle);
}

#[test]
fn local_turn_awaits_the_human() {
    let mut orchestrator = TurnOrchestrator::new(PlayerType::Player1);
    let store = store_with(game(PlayerType::Player1, None));
    assert_eq!(orchestrator.evaluate(&store), None);
    assert_eq!(orchestrator.phase(), Phase::AwaitingHumanInput);
}

#[test]
fn opponent_turn_issues_exactly_one_request() {
    let mut orchestrator = TurnOrchestrator::new(PlayerType::Player1);
    let store = store_with(game(PlayerType::Player2, None));

    let schedule = orchestrator.evaluate(&store);
    assert_eq!(schedule, Some(Schedule { session_id: SESSION, delay_secs: 1 }));
    assert_eq!(orchestrator.phase(), Phase::SchedulingOpponentMove);
    assert!(orchestrator.holds_guard());

    for _ in 0..5 {
        assert_eq!(orchestrator.evaluate(&store), None);
        assert_eq!(orchestrator.phase(), Phase::SchedulingOpponentMove);
    }

    let request = orchestrator.timer_fired(schedule.unwrap());
    assert_eq!(request, Some(opponent_request()));
    assert_eq!(orchestrator.phase(), Phase::AwaitingOpponentMove);

    for _ in 0..5 {
        assert_eq!(orchestrator.evaluate(&store), None);
        assert_eq!(
            orchestrator.timer_fired(Schedule { session_id: SESSION, delay_secs: 1 }),
            None
        );
        assert_eq!(orchestrator.phase(), Phase::AwaitingOpponentMove);
    }
}

#[test]
fn opponent_from_the_human_phase_is_scheduled_too() {
    let mut orchestrator = TurnOrchestrator::new(PlayerType::Player1);
    let mut store = store_with(game(PlayerType::Player1, None));
    assert_eq!(orchestrator.evaluate(&store), None);
    store.replace(game(PlayerType::Player2, None));
    assert_eq!(
        orchestrator.evaluate(&store),
        Some(Schedule { session_id: SESSION, delay_secs: OPPONENT_DELAY_SECS })
    );
}

#[test]
fn local_seat_can_be_the_second_one() {
    let mut orchestrator = TurnOrchestrator::new(PlayerType::Player2);
    let store = store_with(game(PlayerType::Player1, None));
    let schedule = orchestrator.evaluate(&store).unwrap();
    assert_eq!(
        orchestrator.timer_fired(schedule),
        Some(Request::SubmitMove { session_id: SESSION, player: PlayerType::Player1, pit: 0 })
    );
}

#[test]
fn trigger_without_a_running_delay_sends_nothing() {
    let mut orchestrator = TurnOrchestrator::new(PlayerType::Player1);
    assert_eq!(orchestrator.timer_fired(Schedule { session_id: SESSION, delay_secs: 1 }), None);
    assert_eq!(orchestrator.phase(), Phase::Idle);
}

#[test]
fn opponent_move_resolves_into_the_human_turn() {
    let mut orchestrator = TurnOrchestrator::new(PlayerType::Player1);
    let mut store = store_with(game(PlayerType::Player2, None));
    let schedule = orchestrator.evaluate(&store).unwrap();
    orchestrator.timer_fired(schedule);

    let next = orchestrator.opponent_move_resolved(&mut store, Ok(game(PlayerType::Player1, None)));
    assert_eq!(next, Ok(None));
    assert_eq!(orchestrator.phase(), Phase::AwaitingHumanInput);
    assert_eq!(store.game_data(), &Some(game(PlayerType::Player1, None)));
    assert_eq!(store.revision(), 2);
}

#[test]
fn opponent_move_that_keeps_the_turn_is_scheduled_again() {
    let mut orchestrator = TurnOrchestrator::new(PlayerType::Player1);
    let mut store = store_with(game(PlayerType::Player2, None));
    let schedule = orchestrator.evaluate(&store).unwrap();
    orchestrator.timer_fired(schedule);

    let next = orchestrator.opponent_move_resolved(&mut store, Ok(game(PlayerType::Player2, None)));
    assert_eq!(next, Ok(Some(Schedule { session_id: SESSION, delay_secs: 1 })));
    assert_eq!(orchestrator.phase(), Phase::SchedulingOpponentMove);
    assert_eq!(store.revision(), 2);
}

#[test]
fn opponent_move_that_wins_is_terminal() {
    let mut orchestrator = TurnOrchestrator::new(PlayerType::Player1);
    let mut store = store_with(game(PlayerType::Player2, None));
    let schedule = orchestrator.evaluate(&store).unwrap();
    orchestrator.timer_fired(schedule);

    let won = game(PlayerType::Player2, Some(PlayerType::Player2));
    assert_eq!(orchestrator.opponent_move_resolved(&mut store, Ok(won)), Ok(None));
    assert_eq!(orchestrator.phase(), Phase::Terminal);
    assert_eq!(orchestrator.evaluate(&store), None);
    assert_eq!(orchestrator.timer_fired(Schedule { session_id: SESSION, delay_secs: 1 }), None);
    assert_eq!(orchestrator.phase(), Phase::Terminal);
}

#[test]
fn failed_opponent_move_releases_the_guard_and_keeps_the_store() {
    let mut orchestrator = TurnOrchestrator::new(PlayerType::Player1);
    let mut store = store_with(game(PlayerType::Player2, None));
    let schedule = orchestrator.evaluate(&store).unwrap();
    orchestrator.timer_fired(schedule);

    let next = orchestrator.opponent_move_resolved(&mut store, Err(SessionError::NetworkError));
    assert_eq!(next, Err(SessionError::NetworkError));
    assert_eq!(orchestrator.phase(), Phase::Idle);
    assert_eq!(store.game_data(), &Some(game(PlayerType::Player2, None)));
    assert_eq!(store.revision(), 1);

    assert_eq!(
        orchestrator.evaluate(&store),
        Some(Schedule { session_id: SESSION, delay_secs: 1 })
    );
}

#[test]
fn winner_ends_the_game_outside_the_guard() {
    let won = store_with(game(PlayerType::Player1, Some(PlayerType::Player1)));

    let mut idle = TurnOrchestrator::new(PlayerType::Player1);
    assert_eq!(idle.evaluate(&won), None);
    assert_eq!(idle.phase(), Phase::Terminal);
    assert_eq!(idle.evaluate(&won), None);
    assert_eq!(idle.timer_fired(Schedule { session_id: SESSION, delay_secs: 1 }), None);
    assert_eq!(idle.phase(), Phase::Terminal);

    let mut human = TurnOrchestrator::new(PlayerType::Player1);
    human.evaluate(&store_with(game(PlayerType::Player1, None)));
    assert_eq!(human.phase(), Phase::AwaitingHumanInput);
    assert_eq!(human.evaluate(&won), None);
    assert_eq!(human.phase(), Phase::Terminal);
}

#[test]
fn evaluation_under_the_guard_changes_nothing_whatever_the_store_shows() {
    let won = store_with(game(PlayerType::Player1, Some(PlayerType::Player1)));
    let human = store_with(game(PlayerType::Player1, None));
    let empty = StateStore::new();

    let mut scheduling = TurnOrchestrator::new(PlayerType::Player1);
    scheduling.evaluate(&store_with(game(PlayerType::Player2, None)));
    for store in [&won, &human, &empty] {
        assert_eq!(scheduling.evaluate(store), None);
        assert_eq!(scheduling.phase(), Phase::SchedulingOpponentMove);
    }

    let mut awaiting = TurnOrchestrator::new(PlayerType::Player1);
    let schedule = awaiting.evaluate(&store_with(game(PlayerType::Player2, None))).unwrap();
    awaiting.timer_fired(schedule);
    for store in [&won, &human, &empty] {
        assert_eq!(awaiting.evaluate(store), None);
        assert_eq!(awaiting.phase(), Phase::AwaitingOpponentMove);
    }
}

#[test]
fn winner_under_the_guard_ends_the_game_when_the_request_resolves() {
    let mut orchestrator = TurnOrchestrator::new(PlayerType::Player1);
    let mut store = store_with(game(PlayerType::Player2, None));
    let schedule = orchestrator.evaluate(&store).unwrap();
    store.replace(game(PlayerType::Player2, Some(PlayerType::Player1)));
    assert_eq!(orchestrator.evaluate(&store), None);
    assert_eq!(orchestrator.phase(), Phase::SchedulingOpponentMove);
    assert_eq!(orchestrator.timer_fired(schedule), Some(opponent_request()));
    let won = game(PlayerType::Player2, Some(PlayerType::Player1));
    assert_eq!(orchestrator.opponent_move_resolved(&mut store, Ok(won)), Ok(None));
    assert_eq!(orchestrator.phase(), Phase::Terminal);
}

#[test]
fn new_game_leaves_the_terminal_phase() {
    let mut orchestrator = TurnOrchestrator::new(PlayerType::Player1);
    let mut store = store_with(game(PlayerType::Player1, Some(PlayerType::Player2)));
    orchestrator.evaluate(&store);
    assert_eq!(orchestrator.phase(), Phase::Terminal);
    store.replace(game(PlayerType::Player1, None));
    assert_eq!(orchestrator.evaluate(&store), None);
    assert_eq!(orchestrator.phase(), Phase::AwaitingHumanInput);
}

#[test]
fn human_move_in_turn_builds_the_request() {
    let orchestrator = TurnOrchestrator::new(PlayerType::Player1);
    let store = store_with(game(PlayerType::Player1, None));
    assert_eq!(
        orchestrator.submit_human_move(&store, 2),
        Ok(Request::SubmitMove { session_id: SESSION, player: PlayerType::Player1, pit: 2 })
    );
}

#[test]
fn human_move_out_of_turn_sends_nothing_and_keeps_the_store() {
    let orchestrator = TurnOrchestrator::new(PlayerType::Player1);
    let store = store_with(game(PlayerType::Player2, None));
    let before = store.clone();
    assert_eq!(orchestrator.submit_human_move(&store, 3), Err(InvalidLocalAction::OutOfTurn));
    assert_eq!(store.game_data(), before.game_data());
    assert_eq!(store.revision(), 1);
}

#[test]
fn human_move_after_the_end_is_turned_down() {
    let orchestrator = TurnOrchestrator::new(PlayerType::Player1);
    let store = store_with(game(PlayerType::Player1, Some(PlayerType::Player2)));
    assert_eq!(orchestrator.submit_human_move(&store, 0), Err(InvalidLocalAction::GameOver));
}

#[test]
fn human_move_on_an_empty_pit_is_turned_down() {
    let orchestrator = TurnOrchestrator::new(PlayerType::Player1);
    let store = store_with(game(PlayerType::Player1, None));
    assert_eq!(orchestrator.submit_human_move(&store, 3), Err(InvalidLocalAction::EmptyPit));
    assert_eq!(orchestrator.submit_human_move(&store, 6), Err(InvalidLocalAction::EmptyPit));
    assert_eq!(orchestrator.submit_human_move(&store, u32::MAX), Err(InvalidLocalAction::EmptyPit));
}

#[test]
fn human_move_without_a_session_is_turned_down() {
    let orchestrator = TurnOrchestrator::new(PlayerType::Player1);
    let store = StateStore::new();
    assert_eq!(orchestrator.submit_human_move(&store, 0), Err(InvalidLocalAction::NoSession));
}

#[test]
fn click_on_the_local_row_is_a_human_move() {
    let orchestrator = TurnOrchestrator::new(PlayerType::Player1);
    let store = store_with(game(PlayerType::Player1, None));
    let click = ClickData { player_type: PlayerType::Player1, id: 4 };
    assert_eq!(
        orchestrator.submit_click(&store, click),
        Ok(Request::SubmitMove { session_id: SESSION, player: PlayerType::Player1, pit: 4 })
    );
}

#[test]
fn click_on_the_other_row_is_out_of_turn() {
    let orchestrator = TurnOrchestrator::new(PlayerType::Player1);
    let click = ClickData { player_type: PlayerType::Player2, id: 4 };
    let store = store_with(game(PlayerType::Player2, None));
    assert_eq!(orchestrator.submit_click(&store, click.clone()), Err(InvalidLocalAction::OutOfTurn));
    let store = store_with(game(PlayerType::Player1, None));
    assert_eq!(orchestrator.submit_click(&store, click), Err(InvalidLocalAction::OutOfTurn));
}

#[test]
fn successful_move_replaces_the_store_once_and_keeps_the_session() {
    let mut orchestrator = TurnOrchestrator::new(PlayerType::Player1);
    let mut store = store_with(game(PlayerType::Player1, None));
    orchestrator.evaluate(&store);
    let request = orchestrator.submit_human_move(&store, 0).unwrap();
    assert_eq!(
        request,
        Request::SubmitMove { session_id: SESSION, player: PlayerType::Player1, pit: 0 }
    );

    let reply = Reply::Response { status: 200, snapshot: Some(game(PlayerType::Player2, None)) };
    let next = orchestrator.human_move_resolved(&mut store, reply.into_snapshot());
    assert_eq!(next, Ok(Some(Schedule { session_id: SESSION, delay_secs: 1 })));
    assert_eq!(store.revision(), 2);
    assert_eq!(store.game_data().as_ref().unwrap().session_id, SESSION);
    assert_eq!(store.game_data(), &Some(game(PlayerType::Player2, None)));
    assert_eq!(orchestrator.phase(), Phase::SchedulingOpponentMove);
}

#[test]
fn failed_move_leaves_store_and_phase() {
    let mut orchestrator = TurnOrchestrator::new(PlayerType::Player1);
    let mut store = store_with(game(PlayerType::Player1, None));
    orchestrator.evaluate(&store);
    let next = orchestrator.human_move_resolved(&mut store, Err(SessionError::ProtocolError));
    assert_eq!(next, Err(SessionError::ProtocolError));
    assert_eq!(store.revision(), 1);
    assert_eq!(store.game_data(), &Some(game(PlayerType::Player1, None)));
    assert_eq!(orchestrator.phase(), Phase::AwaitingHumanInput);
}

#[test]
fn failed_fetch_leaves_the_empty_store_empty() {
    let mut orchestrator = TurnOrchestrator::new(PlayerType::Player1);
    let mut store = StateStore::new();
    let reply = Reply::Response { status: 500, snapshot: None };
    let outcome = reply.into_snapshot();
    assert_eq!(outcome, Err(SessionError::ProtocolError));
    let next = orchestrator.first_fetch_resolved(&mut store, outcome);
    assert_eq!(next, Err(SessionError::ProtocolError));
    assert_eq!(store.game_data(), &None);
    assert_eq!(store.revision(), 0);
    assert_eq!(orchestrator.phase(), Phase::Idle);
}

#[test]
fn failed_fetch_leaves_the_prior_snapshot() {
    let mut orchestrator = TurnOrchestrator::new(PlayerType::Player1);
    let mut store = store_with(game(PlayerType::Player1, None));
    orchestrator.evaluate(&store);
    let reply = Reply::Response { status: 500, snapshot: Some(game(PlayerType::Player2, None)) };
    let next = orchestrator.first_fetch_resolved(&mut store, reply.into_snapshot());
    assert_eq!(next, Err(SessionError::ProtocolError));
    assert_eq!(store.game_data(), &Some(game(PlayerType::Player1, None)));
    assert_eq!(store.revision(), 1);
    assert_eq!(orchestrator.phase(), Phase::AwaitingHumanInput);
    let next = orchestrator.first_fetch_resolved(&mut store, Reply::NoResponse.into_snapshot());
    assert_eq!(next, Err(SessionError::NetworkError));
    assert_eq!(store.revision(), 1);
    let reply = Reply::Response { status: 500, snapshot: None };
    let next = orchestrator.reset_resolved(&mut store, reply.into_snapshot());
    assert_eq!(next, Err(SessionError::ProtocolError));
    assert_eq!(store.game_data(), &Some(game(PlayerType::Player1, None)));
    assert_eq!(store.revision(), 1);
    assert_eq!(orchestrator.phase(), Phase::AwaitingHumanInput);
}

#[test]
fn loaded_snapshot_fills_the_store_and_is_evaluated() {
    let mut orchestrator = TurnOrchestrator::new(PlayerType::Player1);
    let mut store = StateStore::new();
    let next = orchestrator.first_fetch_resolved(&mut store, Ok(game(PlayerType::Player1, None)));
    assert_eq!(next, Ok(None));
    assert_eq!(orchestrator.phase(), Phase::AwaitingHumanInput);
    assert_eq!(store.revision(), 1);

    let mut orchestrator = TurnOrchestrator::new(PlayerType::Player1);
    let mut store = StateStore::new();
    let next = orchestrator.first_fetch_resolved(&mut store, Ok(game(PlayerType::Player2, None)));
    assert_eq!(next, Ok(Some(Schedule { session_id: SESSION, delay_secs: 1 })));
    assert_eq!(orchestrator.phase(), Phase::SchedulingOpponentMove);
}

#[test]
fn loaded_snapshot_starts_over_after_the_end() {
    let mut orchestrator = TurnOrchestrator::new(PlayerType::Player1);
    let mut store = store_with(game(PlayerType::Player1, Some(PlayerType::Player2)));
    orchestrator.evaluate(&store);
    assert_eq!(orchestrator.phase(), Phase::Terminal);
    let next = orchestrator.reset_resolved(&mut store, Ok(game(PlayerType::Player1, None)));
    assert_eq!(next, Ok(None));
    assert_eq!(orchestrator.phase(), Phase::AwaitingHumanInput);
}

#[test]
fn change_of_difficulty_resets_and_fetches_the_same_session() {
    let mut orchestrator = TurnOrchestrator::new(PlayerType::Player1);
    let mut store = store_with(game(PlayerType::Player1, None));
    let plan = change_difficulty(&store, Difficulty::Hard).unwrap();
    assert_eq!(
        plan,
        ResetPlan {
            reset: Request::ResetSession { session_id: SESSION, difficulty: Difficulty::Hard },
            refetch: Request::FetchSnapshot { session_id: Some(SESSION) },
        }
    );
    let ack = Reply::Response { status: 200, snapshot: None }.into_acknowledgement();
    let refetch = plan.acknowledged(ack);
    assert_eq!(refetch, Ok(Request::FetchSnapshot { session_id: Some(SESSION) }));

    let mut fresh = game(PlayerType::Player2, None);
    fresh.difficulty = Difficulty::Hard;
    let reply = Reply::Response { status: 200, snapshot: Some(fresh) };
    let next = orchestrator.reset_resolved(&mut store, reply.into_snapshot());
    assert_eq!(next, Ok(Some(Schedule { session_id: SESSION, delay_secs: 1 })));
    let stored = store.game_data().as_ref().unwrap();
    assert_eq!(stored.difficulty, Difficulty::Hard);
    assert_eq!(stored.session_id, SESSION);
    assert_eq!(store.revision(), 2);
}

#[test]
fn reset_that_is_not_acknowledged_sends_nothing_more() {
    let store = store_with(game(PlayerType::Player1, None));
    let plan = change_difficulty(&store, Difficulty::Hard).unwrap();
    assert_eq!(
        plan.acknowledged(Err(SessionError::NetworkError)),
        Err(SessionError::NetworkError)
    );
    let plan = change_difficulty(&store, Difficulty::Hard).unwrap();
    let ack = Reply::Response { status: 503, snapshot: None }.into_acknowledgement();
    assert_eq!(plan.acknowledged(ack), Err(SessionError::ProtocolError));
}

#[test]
fn change_of_difficulty_without_a_session_is_turned_down() {
    let store = StateStore::new();
    assert_eq!(change_difficulty(&store, Difficulty::Hard), Err(InvalidLocalAction::NoSession));
    assert_eq!(restart(&store), Err(InvalidLocalAction::NoSession));
}

#[test]
fn restart_keeps_the_difficulty() {
    let mut data = game(PlayerType::Player1, None);
    data.difficulty = Difficulty::Hard;
    let store = store_with(data);
    assert_eq!(
        restart(&store),
        Ok(ResetPlan {
            reset: Request::ResetSession { session_id: SESSION, difficulty: Difficulty::Hard },
            refetch: Request::FetchSnapshot { session_id: Some(SESSION) },
        })
    );
}

#[test]
fn first_fetch_for_the_same_session_keeps_the_guard() {
    let mut orchestrator = TurnOrchestrator::new(PlayerType::Player1);
    let mut store = store_with(game(PlayerType::Player2, None));
    let schedule = orchestrator.evaluate(&store).unwrap();
    assert_eq!(orchestrator.timer_fired(schedule), Some(opponent_request()));

    let next = orchestrator.first_fetch_resolved(&mut store, Ok(game(PlayerType::Player2, None)));
    assert_eq!(next, Ok(None));
    assert_eq!(orchestrator.phase(), Phase::AwaitingOpponentMove);
    assert_eq!(store.revision(), 2);
    assert_eq!(orchestrator.timer_fired(Schedule { session_id: SESSION, delay_secs: 1 }), None);

    let next = orchestrator.opponent_move_resolved(&mut store, Ok(game(PlayerType::Player1, None)));
    assert_eq!(next, Ok(None));
    assert_eq!(orchestrator.phase(), Phase::AwaitingHumanInput);
}

#[test]
fn first_fetch_for_another_session_starts_over() {
    let mut orchestrator = TurnOrchestrator::new(PlayerType::Player1);
    let mut store = store_with(game(PlayerType::Player2, None));
    let schedule = orchestrator.evaluate(&store).unwrap();
    orchestrator.timer_fired(schedule);

    let mut other = game(PlayerType::Player2, None);
    other.session_id = SessionId(42);
    let next = orchestrator.first_fetch_resolved(&mut store, Ok(other));
    assert_eq!(next, Ok(Some(Schedule { session_id: SessionId(42), delay_secs: 1 })));
    assert_eq!(orchestrator.phase(), Phase::SchedulingOpponentMove);
    assert_eq!(store.game_data().as_ref().unwrap().session_id, SessionId(42));
}

#[test]
fn reset_starts_over_even_under_the_guard() {
    let mut orchestrator = TurnOrchestrator::new(PlayerType::Player1);
    let mut store = store_with(game(PlayerType::Player2, None));
    let schedule = orchestrator.evaluate(&store).unwrap();
    orchestrator.timer_fired(schedule);
    let next = orchestrator.reset_resolved(&mut store, Ok(game(PlayerType::Player1, None)));
    assert_eq!(next, Ok(None));
    assert_eq!(orchestrator.phase(), Phase::AwaitingHumanInput);
}

#[test]
fn request_given_up_releases_the_guard_and_keeps_the_store() {
    let mut orchestrator = TurnOrchestrator::new(PlayerType::Player1);
    let store = store_with(game(PlayerType::Player2, None));
    let schedule = orchestrator.evaluate(&store).unwrap();
    orchestrator.timer_fired(schedule);
    assert_eq!(orchestrator.opponent_move_timed_out(), SessionError::NetworkError);
    assert_eq!(orchestrator.phase(), Phase::Idle);
    assert_eq!(store.revision(), 1);
    assert_eq!(
        orchestrator.evaluate(&store),
        Some(Schedule { session_id: SESSION, delay_secs: 1 })
    );

    let mut human = TurnOrchestrator::new(PlayerType::Player1);
    human.evaluate(&store_with(game(PlayerType::Player1, None)));
    assert_eq!(human.opponent_move_timed_out(), SessionError::NetworkError);
    assert_eq!(human.phase(), Phase::AwaitingHumanInput);
}

#[test]
fn failure_needs_no_room_in_the_store() {
    let mut orchestrator = TurnOrchestrator::new(PlayerType::Player1);
    let mut store = StateStore::new();
    for outcome in [SessionError::NetworkError, SessionError::ProtocolError] {
        assert_eq!(orchestrator.first_fetch_resolved(&mut store, Err(outcome)), Err(outcome));
        assert_eq!(orchestrator.reset_resolved(&mut store, Err(outcome)), Err(outcome));
        assert_eq!(orchestrator.human_move_resolved(&mut store, Err(outcome)), Err(outcome));
        assert_eq!(orchestrator.opponent_move_resolved(&mut store, Err(outcome)), Err(outcome));
    }
    assert_eq!(store.game_data(), &None);
    assert_eq!(store.revision(), 0);
    assert_eq!(orchestrator.phase(), Phase::Idle);
}
