//! What holds of the store, the orchestrator and the board together, whatever
//! the server sends and however often the store announces a change.

use crate::orchestrator::answer;
use crate::orchestrator::received;
use crate::orchestrator::reconciled;
use crate::orchestrator::reset_plan;
use crate::orchestrator::InvalidLocalAction;
use crate::orchestrator::OrchestratorView;
use crate::orchestrator::Phase;
use crate::orchestrator::ResetPlan;
use crate::orchestrator::Schedule;
use crate::orchestrator::OPPONENT_DELAY_SECS;
use crate::orchestrator::PLACEHOLDER_PIT;
use crate::session::Request;
use crate::session::SessionError;
use crate::store::stamp;
use crate::store::StoreView;
use crate::types::Difficulty;
use crate::types::GameData;
use crate::types::GameView;
use crate::types::PlayerType;
use vstd::prelude::*;

verus! {

/// Something that reaches the orchestrator between the start of a delayed
/// trigger and the answer to the request that it leads to.
pub enum Event {
    /// The store announced a change, or announced one without need, and the
    /// orchestrator evaluated the snapshot that the store then showed.
    Notified(Option<GameView>),
    /// A delayed trigger came back.
    TimerFired,
}

/// The orchestrator after one event.
pub open spec fn step(orchestrator: OrchestratorView, event: Event) -> OrchestratorView {
    match event {
        Event::Notified(snapshot) => orchestrator.evaluated(snapshot),
        Event::TimerFired => orchestrator.fired(),
    }
}

/// The orchestrator after a run of events.
pub open spec fn after(orchestrator: OrchestratorView, events: Seq<Event>) -> OrchestratorView
    decreases events.len(),
{
    if events.len() == 0 {
        orchestrator
    } else {
        step(after(orchestrator, events.drop_last()), events.last())
    }
}

/// How many delayed triggers a run of events hands out.
pub open spec fn triggers_started(orchestrator: OrchestratorView, events: Seq<Event>) -> nat
    decreases events.len(),
{
    if events.len() == 0 {
        0
    } else {
        let before = after(orchestrator, events.drop_last());
        let earlier = triggers_started(orchestrator, events.drop_last());
        if events.last() matches Event::Notified(snapshot) && before.schedule_due(snapshot) is Some {
            earlier + 1
        } else {
            earlier
        }
    }
}

/// How many requests for the opponent's move a run of events sends.
pub open spec fn moves_requested(orchestrator: OrchestratorView, events: Seq<Event>) -> nat
    decreases events.len(),
{
    if events.len() == 0 {
        0
    } else {
        let before = after(orchestrator, events.drop_last());
        let earlier = moves_requested(orchestrator, events.drop_last());
        if events.last() is TimerFired && before.phase is SchedulingOpponentMove {
            earlier + 1
        } else {
            earlier
        }
    }
}

/// Whether a delayed trigger comes back in a run of events.
pub open spec fn fires(events: Seq<Event>) -> bool {
    exists|i: int| 0 <= i < events.len() && events[i] is TimerFired
}

/// The number that stands for a seat or a difficulty on the wire stands for
/// that one and no other: reading the number back gives what was written.
pub proof fn law_wire_numbers(player: PlayerType, difficulty: Difficulty, index: u32)
    ensures
        PlayerType::of_index(player.index()) == Some(player),
        Difficulty::of_index(difficulty.index()) == Some(difficulty),
        PlayerType::of_index(index) matches Some(p) ==> p.index() == index,
        Difficulty::of_index(index) matches Some(d) ==> d.index() == index,
        PlayerType::of_index(index) is Some <==> index < 2,
        Difficulty::of_index(index) is Some <==> index < 2,
{
}

/// At any moment the pits of at most one seat can be played, and once there
/// is a winner the pits of neither can.
pub proof fn law_one_side_enabled(store: StoreView, a: PlayerType, b: PlayerType)
    ensures
        store.pit_enabled(a) && store.pit_enabled(b) ==> a == b,
        store.winner() is Some ==> !store.pit_enabled(a),
{
}

/// A reader that has asked since the last write is told nothing until the
/// store is written again. Then it is told of the new snapshot, once: when it
/// asks again, there is nothing new. This holds as long as the number of
/// writes fits a `u64`; beyond that the store shows the same number after
/// every write.
pub proof fn law_every_write_heard_once(store: StoreView, data: GameView)
    requires
        store.wf(),
        data.valid(),
        store.revision < u64::MAX,
    ensures
        store.news_for(stamp(store.revision)) is None,
        store.replaced(data).news_for(stamp(store.revision)) == Some(data),
        store.replaced(data).news_for(stamp(store.replaced(data).revision)) is None,
        store.replaced(data).wf(),
{
}

/// A snapshot that answers a move is written into the store exactly once,
/// and nothing else about the store changes. If the server answered for the
/// session that the move named, which is the one in the store, the store
/// mirrors the same session after the move as before it.
pub proof fn law_move_written_once(store: StoreView, request: Request, data: GameData)
    requires
        store.wf(),
        data@.valid(),
        request is SubmitMove,
        request.session() == store.session(),
    ensures
        received(store, Ok(data)) == store.replaced(data@),
        received(store, Ok(data)).revision == store.revision + 1,
        received(store, Ok(data)).snapshot == Some(data@),
        received(store, Ok(data)).wf(),
        Some(data@.session_id) == request.session() ==> received(store, Ok(data)).session()
            == store.session(),
{
}

/// A failure never touches the store, whichever request it answers, and is
/// handed back as it came, with nothing to send after it.
pub proof fn law_failure_leaves_store(
    orchestrator: OrchestratorView,
    store: StoreView,
    error: SessionError,
)
    ensures
        received(store, Err(error)) == store,
        reconciled(orchestrator, Err(error)) == orchestrator,
        answer(orchestrator, Err(error)) == Err::<Option<Schedule>, SessionError>(error),
{
}

/// When the store shows that it is the opponent's turn and the guard is
/// free, the evaluation starts one delayed trigger. From then on, however
/// often the store is announced again, with the same snapshot or another, and
/// however many triggers come back, no second trigger is started and exactly
/// one request for the opponent's move is sent: by the first trigger that
/// comes back.
pub proof fn law_one_request_per_opponent_turn(
    orchestrator: OrchestratorView,
    snapshot: GameView,
    events: Seq<Event>,
)
    requires
        !orchestrator.guard_held(),
        snapshot.turn != orchestrator.local_player,
        snapshot.winner is None,
    ensures
        orchestrator.schedule_due(Some(snapshot)) == Some(
            Schedule { session_id: snapshot.session_id, delay_secs: OPPONENT_DELAY_SECS },
        ),
        orchestrator.evaluated(Some(snapshot)).phase is SchedulingOpponentMove,
        orchestrator.evaluated(Some(snapshot)).request_due(snapshot.session_id) == Some(
            Request::SubmitMove {
                session_id: snapshot.session_id,
                player: orchestrator.local_player.other(),
                pit: PLACEHOLDER_PIT,
            },
        ),
        triggers_started(orchestrator.evaluated(Some(snapshot)), events) == 0,
        moves_requested(orchestrator.evaluated(Some(snapshot)), events) == (if fires(events) {
            1nat
        } else {
            0nat
        }),
        after(orchestrator.evaluated(Some(snapshot)), events).guard_held(),
{
    lemma_guarded_run(orchestrator.evaluated(Some(snapshot)), events);
}

/// While the request for the opponent's move is on its way, nothing that
/// reaches the orchestrator changes it, makes it send a second request or
/// start a trigger.
pub proof fn law_no_request_while_awaiting(orchestrator: OrchestratorView, events: Seq<Event>)
    requires
        orchestrator.phase is AwaitingOpponentMove,
    ensures
        triggers_started(orchestrator, events) == 0,
        moves_requested(orchestrator, events) == 0,
        after(orchestrator, events) == orchestrator,
    decreases events.len(),
{
    if events.len() > 0 {
        law_no_request_while_awaiting(orchestrator, events.drop_last());
    }
}

/// An evaluation while the guard is held is a no-op, whatever the store
/// shows.
pub proof fn law_guarded_evaluation(orchestrator: OrchestratorView, snapshot: Option<GameView>)
    requires
        orchestrator.guard_held(),
    ensures
        orchestrator.evaluated(snapshot) == orchestrator,
        orchestrator.schedule_due(snapshot) is None,
{
}

/// From any phase, and whatever the store shows from one announcement to the
/// next, a run of announcements and triggers without an answer in between
/// starts at most one trigger and sends at most one request for the
/// opponent's move.
pub proof fn law_at_most_one_request(orchestrator: OrchestratorView, events: Seq<Event>)
    ensures
        triggers_started(orchestrator, events) <= 1,
        moves_requested(orchestrator, events) <= 1,
        orchestrator.guard_held() ==> triggers_started(orchestrator, events) == 0,
        triggers_started(orchestrator, events) == 1 ==> after(orchestrator, events).guard_held(),
        moves_requested(orchestrator, events) == 1 ==> after(
            orchestrator,
            events,
        ).phase is AwaitingOpponentMove,
    decreases events.len(),
{
    if events.len() > 0 {
        let earlier = events.drop_last();
        law_at_most_one_request(orchestrator, earlier);
        let before = after(orchestrator, earlier);
        if before.guard_held() {
            if before.phase is AwaitingOpponentMove {
            } else {
                lemma_scheduling_not_fired(orchestrator, earlier);
            }
        } else {
            lemma_free_means_untouched(orchestrator, earlier);
        }
    }
}

/// A snapshot that names a winner takes the orchestrator to `Terminal`: by
/// an evaluation from any phase outside the guard, when it answers the
/// request for the opponent's move, and when it answers a fetch. In
/// `Terminal` no trigger is started and a trigger that comes back sends
/// nothing. Whatever the phase, no move of the local player is accepted
/// while the store shows a winner.
pub proof fn law_winner_ends_all(orchestrator: OrchestratorView, snapshot: GameView, pit: u32)
    requires
        snapshot.winner is Some,
    ensures
        !orchestrator.guard_held() ==> orchestrator.evaluated(Some(snapshot)).phase is Terminal,
        orchestrator.phase is AwaitingOpponentMove ==> orchestrator.released().evaluated(
            Some(snapshot),
        ).phase is Terminal,
        orchestrator.at(Phase::Idle).evaluated(Some(snapshot)).phase is Terminal,
        orchestrator.schedule_due(Some(snapshot)) is None,
        orchestrator.phase is Terminal ==> orchestrator.fired() == orchestrator,
        orchestrator.phase is Terminal ==> orchestrator.request_due(snapshot.session_id) is None,
        orchestrator.phase is Terminal ==> orchestrator.evaluated(Some(snapshot)) == orchestrator,
        orchestrator.human_move(Some(snapshot), pit) == Err::<Request, InvalidLocalAction>(
            InvalidLocalAction::GameOver,
        ),
{
}

/// Once the guard is held, it stays held through any run of announcements
/// and triggers: only the answer to the request, or giving the request up,
/// releases it.
pub proof fn law_guard_stays(orchestrator: OrchestratorView, events: Seq<Event>)
    ensures
        orchestrator.guard_held() ==> after(orchestrator, events).guard_held(),
        orchestrator.phase is AwaitingOpponentMove ==> after(
            orchestrator,
            events,
        ).phase is AwaitingOpponentMove,
    decreases events.len(),
{
    if events.len() > 0 {
        law_guard_stays(orchestrator, events.drop_last());
    }
}

/// As long as the delay runs, no request was sent.
proof fn lemma_scheduling_not_fired(orchestrator: OrchestratorView, events: Seq<Event>)
    requires
        after(orchestrator, events).phase is SchedulingOpponentMove,
    ensures
        moves_requested(orchestrator, events) == 0,
    decreases events.len(),
{
    if events.len() > 0 {
        let earlier = events.drop_last();
        let before = after(orchestrator, earlier);
        if before.phase is SchedulingOpponentMove {
            lemma_scheduling_not_fired(orchestrator, earlier);
        } else {
            lemma_free_means_untouched(orchestrator, earlier);
        }
    }
}

/// As long as the guard is free, no trigger was started and no request was
/// sent.
proof fn lemma_free_means_untouched(orchestrator: OrchestratorView, events: Seq<Event>)
    requires
        !after(orchestrator, events).guard_held(),
    ensures
        triggers_started(orchestrator, events) == 0,
        moves_requested(orchestrator, events) == 0,
        !orchestrator.guard_held(),
    decreases events.len(),
{
    if events.len() > 0 {
        let earlier = events.drop_last();
        let before = after(orchestrator, earlier);
        lemma_free_means_untouched(orchestrator, earlier);
    }
}

/// The run of events that follows the start of a trigger.
proof fn lemma_guarded_run(orchestrator: OrchestratorView, events: Seq<Event>)
    requires
        orchestrator.phase is SchedulingOpponentMove,
    ensures
        triggers_started(orchestrator, events) == 0,
        after(orchestrator, events).guard_held(),
        fires(events) <==> after(orchestrator, events).phase is AwaitingOpponentMove,
        moves_requested(orchestrator, events) == (if fires(events) {
            1nat
        } else {
            0nat
        }),
    decreases events.len(),
{
    if events.len() > 0 {
        let earlier = events.drop_last();
        lemma_guarded_run(orchestrator, earlier);
        if fires(earlier) {
            let i = choose|i: int| 0 <= i < earlier.len() && earlier[i] is TimerFired;
            assert(events[i] is TimerFired);
        } else if events.last() is TimerFired {
            assert(events[events.len() - 1] is TimerFired);
        } else {
            assert forall|i: int| 0 <= i < events.len() implies !(events[i] is TimerFired) by {
                if i < earlier.len() {
                    assert(earlier[i] == events[i]);
                }
            }
        }
    }
}

/// The move of the local player that is turned down makes no request, by
/// whatever reason, and a move that is accepted names the session and the
/// seat of the local player and the pit that was asked for.
pub proof fn law_local_move(orchestrator: OrchestratorView, store: StoreView, pit: u32)
    ensures
        match orchestrator.human_move(store.snapshot, pit) {
            Ok(request) => {
                &&& store.snapshot matches Some(g)
                &&& g.winner is None
                &&& g.turn == orchestrator.local_player
                &&& g.stones(orchestrator.local_player, pit as int) > 0
                &&& store.pit_enabled(orchestrator.local_player)
                &&& request == Request::SubmitMove {
                    session_id: g.session_id,
                    player: orchestrator.local_player,
                    pit,
                }
            },
            Err(reason) => {
                &&& reason is NoSession <==> store.snapshot is None
                &&& reason is OutOfTurn ==> !store.pit_enabled(orchestrator.local_player)
                &&& reason is GameOver ==> !store.pit_enabled(orchestrator.local_player)
            },
        },
{
}

/// A change of difficulty asks for a reset of the session that the store
/// mirrors under the difficulty that was picked, and then for a snapshot of
/// that same session. A pick in the menu is such a change whenever the game
/// that the store shows has another difficulty, and asks for nothing when it
/// has that difficulty already. The snapshot that answers is written exactly once, and
/// the orchestrator starts over from `Idle` against it. If the server
/// answers for the session and with the difficulty it was asked for, the
/// store shows the picked difficulty and the session of before.
pub proof fn law_difficulty_change(
    orchestrator: OrchestratorView,
    store: StoreView,
    difficulty: Difficulty,
    data: GameData,
)
    requires
        store.wf(),
        store.snapshot is Some,
        data@.valid(),
    ensures
        reset_plan(store.snapshot, difficulty) == Ok::<ResetPlan, InvalidLocalAction>(
            ResetPlan::of(store.snapshot->0.session_id, difficulty),
        ),
        reset_plan(store.snapshot, difficulty)->Ok_0.reset == (Request::ResetSession {
            session_id: store.snapshot->0.session_id,
            difficulty,
        }),
        reset_plan(store.snapshot, difficulty)->Ok_0.refetch.session() == store.session(),
        received(store, Ok(data)) == store.replaced(data@),
        received(store, Ok(data)).revision == store.revision + 1,
        orchestrator.at(Phase::Idle).evaluated(Some(data@)).phase == orchestrator.settled(
            Some(data@),
        ),
        difficulty != store.difficulty() ==> store.picked(difficulty) == Ok::<
            Option<ResetPlan>,
            InvalidLocalAction,
        >(Some(ResetPlan::of(store.snapshot->0.session_id, difficulty))),
        difficulty == store.difficulty() ==> store.picked(difficulty) == Ok::<
            Option<ResetPlan>,
            InvalidLocalAction,
        >(None),
        data@.difficulty == difficulty ==> received(store, Ok(data)).difficulty() == difficulty,
        Some(data@.session_id) == store.session() ==> received(store, Ok(data)).session()
            == store.session(),
{
}

/// The answer to the first fetch of a page does not break the guard: if it
/// is for the session that the store mirrors already, an orchestrator under
/// the guard stays as it is and starts no trigger, so a request for the
/// opponent's move that is on its way stays the only one. If it is for
/// another session, or the store was empty, the orchestrator starts over
/// from `Idle`, as it does after a reset.
pub proof fn law_first_fetch_keeps_guard(
    orchestrator: OrchestratorView,
    store: StoreView,
    data: GameView,
)
    ensures
        store.session() == Some(data.session_id) && orchestrator.guard_held() ==> {
            &&& orchestrator.before_first(store.session(), data).evaluated(Some(data))
                == orchestrator
            &&& orchestrator.before_first(store.session(), data).schedule_due(Some(data)) is None
        },
        store.session() == Some(data.session_id) ==> orchestrator.before_first(
            store.session(),
            data,
        ) == orchestrator,
        store.session() != Some(data.session_id) ==> orchestrator.before_first(
            store.session(),
            data,
        ) == orchestrator.at(Phase::Idle),
{
}

/// The first fetch of a page is asked for at most once each time the page is
/// put up: a rendering that asks for it marks it as asked for, no rendering
/// takes the mark back, and with the mark no rendering asks again. Putting
/// the page up anew clears the mark and leaves the phase alone.
pub proof fn law_first_fetch_once(orchestrator: OrchestratorView, keep_session: bool)
    ensures
        orchestrator.first_fetch(keep_session) is Some ==> orchestrator.rendered(
            keep_session,
        ).fetch_issued,
        orchestrator.fetch_issued ==> orchestrator.rendered(keep_session).fetch_issued,
        orchestrator.fetch_issued ==> orchestrator.first_fetch(keep_session) is None,
        orchestrator.first_fetch(keep_session) matches Some(request) ==> request == (
            Request::FetchSnapshot { session_id: None }),
        orchestrator.rendered(keep_session).phase == orchestrator.phase,
        orchestrator.mounted().phase == orchestrator.phase,
        orchestrator.mounted().first_fetch(keep_session) is Some <==> !keep_session,
{
}

/// An evaluation hands out a delayed trigger exactly when it takes the
/// orchestrator into `SchedulingOpponentMove` from outside the guard, and
/// that is exactly when the guard is free, nobody has won and it is the
/// opponent's turn.
pub proof fn law_trigger_on_entry(orchestrator: OrchestratorView, snapshot: Option<GameView>)
    ensures
        orchestrator.schedule_due(snapshot) is Some <==> !orchestrator.guard_held()
            && orchestrator.evaluated(snapshot).phase is SchedulingOpponentMove,
        orchestrator.schedule_due(snapshot) is Some <==> {
            &&& !orchestrator.guard_held()
            &&& snapshot matches Some(g)
            &&& g.winner is None
            &&& g.turn != orchestrator.local_player
        },
        orchestrator.schedule_due(snapshot) matches Some(schedule) ==> {
            &&& snapshot matches Some(g)
            &&& schedule.session_id == g.session_id
            &&& schedule.delay_secs == OPPONENT_DELAY_SECS
        },
{
}

} // verus!
