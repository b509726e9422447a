//! The turn orchestrator: the one component that may ask the server for a
//! move without the user doing anything, namely when it is the opponent's
//! turn.
//!
//! It is written as a machine of states and events. Each method takes what
//! happened and says what is to be done next; whoever drives it performs the
//! request or waits out the delay and comes back with the result.

use crate::session::Request;
use crate::session::SessionError;
use crate::store::StateStore;
use crate::store::StoreView;
use crate::types::Difficulty;
use crate::types::GameData;
use crate::types::GameView;
use crate::types::PlayerType;
use crate::types::SessionId;
use vstd::prelude::*;

verus! {

/// How long the opponent's move is held back, in seconds, so that it can be
/// seen to happen.
pub const OPPONENT_DELAY_SECS: u64 = 1;

/// How long the answer to a request for the opponent's move is waited for,
/// in seconds, before the request is given up.
pub const OPPONENT_TIMEOUT_SECS: u64 = 10;

/// The pit named in a request for the opponent's move. The server picks the
/// real pit itself and ignores this one.
pub const PLACEHOLDER_PIT: u32 = 0;

/// Where the orchestrator stands.
#[derive(Debug, Clone, Copy, PartialEq, Eq, Structural)]
pub enum Phase {
    /// Nothing is known or nothing is due.
    Idle,
    /// It is the local player's turn.
    AwaitingHumanInput,
    /// The delay before the opponent's move is running.
    SchedulingOpponentMove,
    /// The request for the opponent's move is on its way.
    AwaitingOpponentMove,
    /// The game has a winner.
    Terminal,
}

/// Why an action of the local player was turned down before any request
/// was made.
#[derive(Debug, Clone, Copy, PartialEq, Eq, Structural)]
pub enum InvalidLocalAction {
    /// No snapshot was loaded yet.
    NoSession,
    /// The game has ended.
    GameOver,
    /// It is not the turn of the player who acts.
    OutOfTurn,
    /// The pit holds no stones to sow.
    EmptyPit,
}

/// The intent of one click on a pit. It is made by the board, handed to the
/// orchestrator once, and gone.
#[derive(Debug, PartialEq)]
pub struct ClickData {
    pub player_type: PlayerType,
    pub id: u32,
}

impl Clone for ClickData {
    fn clone(&self) -> (click: Self)
        ensures
            click == *self,
    {
        ClickData { player_type: self.player_type, id: self.id }
    }
}

/// One delayed trigger for the opponent's move. Whoever receives it waits
/// `delay_secs` seconds and hands it back to [`TurnOrchestrator::timer_fired`].
#[derive(Debug, PartialEq)]
pub struct Schedule {
    pub session_id: SessionId,
    pub delay_secs: u64,
}

/// The two round trips of a reset: first `reset`, and once that is
/// acknowledged `refetch`, which names the same session.
#[derive(Debug, PartialEq)]
pub struct ResetPlan {
    pub reset: Request,
    pub refetch: Request,
}

impl ResetPlan {
    /// The plan for a new game under `difficulty` in session `session_id`.
    pub open spec fn of(session_id: SessionId, difficulty: Difficulty) -> ResetPlan {
        ResetPlan {
            reset: Request::ResetSession { session_id, difficulty },
            refetch: Request::FetchSnapshot { session_id: Some(session_id) },
        }
    }

    /// What follows the first round trip: the second one if the reset was
    /// acknowledged, else the failure, with nothing more to send.
    pub fn acknowledged(self, ack: Result<(), SessionError>) -> (next: Result<Request, SessionError>)
        ensures
            next == match ack {
                Ok(_) => Ok::<Request, SessionError>(self.refetch),
                Err(e) => Err::<Request, SessionError>(e),
            },
    {
        match ack {
            Ok(_) => Ok(self.refetch),
            Err(e) => Err(e),
        }
    }
}

/// The orchestrator of one session.
#[derive(Debug, PartialEq)]
pub struct TurnOrchestrator {
    phase: Phase,
    local_player: PlayerType,
    fetch_issued: bool,
}

/// What a [`TurnOrchestrator`] holds.
pub struct OrchestratorView {
    pub phase: Phase,
    /// The seat of the player at this client; the other seat is the
    /// opponent's.
    pub local_player: PlayerType,
    /// Whether the first fetch of the page was asked for.
    pub fetch_issued: bool,
}

impl OrchestratorView {
    /// The guard against a second request for the opponent's move: held
    /// from the moment the delay starts until the request has resolved.
    pub open spec fn guard_held(self) -> bool {
        self.phase is SchedulingOpponentMove || self.phase is AwaitingOpponentMove
    }

    /// The same orchestrator in another phase.
    pub open spec fn at(self, phase: Phase) -> OrchestratorView {
        OrchestratorView {
            phase,
            local_player: self.local_player,
            fetch_issued: self.fetch_issued,
        }
    }

    /// The fresh orchestrator of the client at seat `local_player`.
    pub open spec fn fresh(local_player: PlayerType) -> OrchestratorView {
        OrchestratorView { phase: Phase::Idle, local_player, fetch_issued: false }
    }

    /// The orchestrator after the page was put up anew: its first fetch is
    /// still to be asked for.
    pub open spec fn mounted(self) -> OrchestratorView {
        OrchestratorView {
            phase: self.phase,
            local_player: self.local_player,
            fetch_issued: false,
        }
    }

    /// The request that a rendering of the page sends, if it sends one: the
    /// first fetch, once, unless the page is to keep the session it shows.
    pub open spec fn first_fetch(self, keep_session: bool) -> Option<Request> {
        if !self.fetch_issued && !keep_session {
            Some(Request::FetchSnapshot { session_id: None })
        } else {
            None
        }
    }

    /// The orchestrator after a rendering of the page.
    pub open spec fn rendered(self, keep_session: bool) -> OrchestratorView {
        OrchestratorView {
            phase: self.phase,
            local_player: self.local_player,
            fetch_issued: self.fetch_issued || !keep_session,
        }
    }

    /// The phase that a snapshot calls for when nothing is outstanding.
    pub open spec fn settled(self, snapshot: Option<GameView>) -> Phase {
        match snapshot {
            None => Phase::Idle,
            Some(g) => if g.winner is Some {
                Phase::Terminal
            } else if g.turn == self.local_player {
                Phase::AwaitingHumanInput
            } else {
                Phase::SchedulingOpponentMove
            },
        }
    }

    /// The orchestrator after one evaluation against `snapshot`. While the
    /// guard is held an evaluation changes nothing, whatever the snapshot
    /// shows. Else the orchestrator goes where the snapshot calls for.
    pub open spec fn evaluated(self, snapshot: Option<GameView>) -> OrchestratorView {
        if self.guard_held() {
            self
        } else {
            self.at(self.settled(snapshot))
        }
    }

    /// The delayed trigger that one evaluation against `snapshot` hands
    /// out, if it hands one out.
    pub open spec fn schedule_due(self, snapshot: Option<GameView>) -> Option<Schedule> {
        if !self.guard_held() && self.settled(snapshot) is SchedulingOpponentMove {
            Some(
                Schedule { session_id: snapshot->0.session_id, delay_secs: OPPONENT_DELAY_SECS },
            )
        } else {
            None
        }
    }

    /// Where the orchestrator stands before it evaluates the snapshot `data`
    /// that answered the first fetch of a page, when the store mirrored
    /// `session` until then. If the answer is for the session that the store
    /// mirrors already, nothing has started over: the orchestrator stays
    /// where it is, guard and all. If it is for another session, or the
    /// first one, the orchestrator starts over from `Idle`.
    pub open spec fn before_first(self, session: Option<SessionId>, data: GameView) -> OrchestratorView {
        if session == Some(data.session_id) {
            self
        } else {
            self.at(Phase::Idle)
        }
    }

    /// The orchestrator after a delayed trigger has fired.
    pub open spec fn fired(self) -> OrchestratorView {
        if self.phase is SchedulingOpponentMove {
            self.at(Phase::AwaitingOpponentMove)
        } else {
            self
        }
    }

    /// The request that goes out when the trigger for `session_id` fires, if
    /// one goes out.
    pub open spec fn request_due(self, session_id: SessionId) -> Option<Request> {
        if self.phase is SchedulingOpponentMove {
            Some(
                Request::SubmitMove {
                    session_id,
                    player: self.local_player.other(),
                    pit: PLACEHOLDER_PIT,
                },
            )
        } else {
            None
        }
    }

    /// The orchestrator once the request for the opponent's move has
    /// resolved: the guard is released.
    pub open spec fn released(self) -> OrchestratorView {
        if self.phase is AwaitingOpponentMove {
            self.at(Phase::Idle)
        } else {
            self
        }
    }

    /// What a move of the local player on pit `pit` leads to: the request to
    /// send, or the reason why none is sent.
    pub open spec fn human_move(self, snapshot: Option<GameView>, pit: u32) -> Result<
        Request,
        InvalidLocalAction,
    > {
        match snapshot {
            None => Err(InvalidLocalAction::NoSession),
            Some(g) => if g.winner is Some {
                Err(InvalidLocalAction::GameOver)
            } else if g.turn != self.local_player {
                Err(InvalidLocalAction::OutOfTurn)
            } else if g.stones(self.local_player, pit as int) == 0 {
                Err(InvalidLocalAction::EmptyPit)
            } else {
                Ok(
                    Request::SubmitMove {
                        session_id: g.session_id,
                        player: self.local_player,
                        pit,
                    },
                )
            },
        }
    }

    /// What a click leads to. A click on a pit of the other seat is a move
    /// out of turn.
    pub open spec fn click_move(self, snapshot: Option<GameView>, click: ClickData) -> Result<
        Request,
        InvalidLocalAction,
    > {
        if click.player_type != self.local_player {
            Err(InvalidLocalAction::OutOfTurn)
        } else {
            self.human_move(snapshot, click.id)
        }
    }
}

/// The plan for a new game under `difficulty` in the session of `snapshot`.
pub open spec fn reset_plan(snapshot: Option<GameView>, difficulty: Difficulty) -> Result<
    ResetPlan,
    InvalidLocalAction,
> {
    match snapshot {
        None => Err(InvalidLocalAction::NoSession),
        Some(g) => Ok(ResetPlan::of(g.session_id, difficulty)),
    }
}

/// The store after the result of a request for a snapshot was taken: written
/// once with the snapshot, or left alone by a failure.
pub open spec fn received(store: StoreView, outcome: Result<GameData, SessionError>) -> StoreView {
    match outcome {
        Ok(data) => store.replaced(data@),
        Err(_) => store,
    }
}

/// The orchestrator after the result of a move was taken: a snapshot is
/// evaluated, a failure changes nothing.
pub open spec fn reconciled(
    orchestrator: OrchestratorView,
    outcome: Result<GameData, SessionError>,
) -> OrchestratorView {
    match outcome {
        Ok(data) => orchestrator.evaluated(Some(data@)),
        Err(_) => orchestrator,
    }
}

/// What is handed back after the result of a move was taken: the delayed
/// trigger that the new snapshot calls for, or the failure.
pub open spec fn answer(orchestrator: OrchestratorView, outcome: Result<GameData, SessionError>) -> Result<
    Option<Schedule>,
    SessionError,
> {
    match outcome {
        Ok(data) => Ok(orchestrator.schedule_due(Some(data@))),
        Err(e) => Err(e),
    }
}

impl View for TurnOrchestrator {
    type V = OrchestratorView;

    closed spec fn view(&self) -> OrchestratorView {
        OrchestratorView {
            phase: self.phase,
            local_player: self.local_player,
            fetch_issued: self.fetch_issued,
        }
    }
}

impl Clone for TurnOrchestrator {
    fn clone(&self) -> (orchestrator: Self)
        ensures
            orchestrator@ == self@,
    {
        TurnOrchestrator {
            phase: self.phase,
            local_player: self.local_player,
            fetch_issued: self.fetch_issued,
        }
    }
}

impl TurnOrchestrator {
    /// An idle orchestrator for the client at seat `local_player`.
    pub fn new(local_player: PlayerType) -> (orchestrator: TurnOrchestrator)
        ensures
            orchestrator@ == OrchestratorView::fresh(local_player),
    {
        TurnOrchestrator { phase: Phase::Idle, local_player, fetch_issued: false }
    }

    /// Called when the page is put up anew. The next rendering may ask for
    /// the first fetch again. The phase stays: a request that is on its way
    /// is still awaited.
    pub fn page_mounted(&mut self)
        ensures
            final(self)@ == old(self)@.mounted(),
    {
        self.fetch_issued = false;
    }

    /// Called whenever the page is rendered. The first time after the page
    /// was put up, unless the page is to keep the session it shows, it asks
    /// for the snapshot of the default session; after that it asks for
    /// nothing.
    pub fn page_rendered(&mut self, keep_session: bool) -> (request: Option<Request>)
        ensures
            final(self)@ == old(self)@.rendered(keep_session),
            request == old(self)@.first_fetch(keep_session),
    {
        if !self.fetch_issued && !keep_session {
            self.fetch_issued = true;
            Some(Request::FetchSnapshot { session_id: None })
        } else {
            None
        }
    }

    /// Where the orchestrator stands.
    pub fn phase(&self) -> (phase: Phase)
        ensures
            phase == self@.phase,
    {
        self.phase
    }

    /// The seat of the player at this client.
    pub fn local_player(&self) -> (player: PlayerType)
        ensures
            player == self@.local_player,
    {
        self.local_player
    }

    /// Looks at the store after it has changed, or was announced as changed,
    /// and says whether the delay before the opponent's move must be started.
    ///
    /// While the delay runs or the request is on its way this does nothing,
    /// however often it is called and whatever the store shows: only one
    /// request for the opponent's move is ever outstanding. What the store
    /// shows by then is looked at when the request has resolved.
    pub fn evaluate(&mut self, store: &StateStore) -> (schedule: Option<Schedule>)
        ensures
            final(self)@ == old(self)@.evaluated(store@.snapshot),
            schedule == old(self)@.schedule_due(store@.snapshot),
    {
        if self.holds_guard() {
            return None;
        }
        match store.game_data() {
            None => {
                self.phase = Phase::Idle;
                None
            },
            Some(data) => {
                if data.winner.is_some() {
                    self.phase = Phase::Terminal;
                    None
                } else if data.turn == self.local_player {
                    self.phase = Phase::AwaitingHumanInput;
                    None
                } else {
                    self.phase = Phase::SchedulingOpponentMove;
                    Some(Schedule { session_id: data.session_id, delay_secs: OPPONENT_DELAY_SECS })
                }
            },
        }
    }

    /// Whether the delay runs or the request for the opponent's move is on
    /// its way.
    pub fn holds_guard(&self) -> (held: bool)
        ensures
            held == self@.guard_held(),
    {
        self.phase == Phase::SchedulingOpponentMove || self.phase == Phase::AwaitingOpponentMove
    }

    /// Takes back a delayed trigger whose delay is over and says which
    /// request to send. A trigger that comes back when no delay is running
    /// sends nothing.
    pub fn timer_fired(&mut self, schedule: Schedule) -> (request: Option<Request>)
        ensures
            final(self)@ == old(self)@.fired(),
            request == old(self)@.request_due(schedule.session_id),
    {
        if self.phase == Phase::SchedulingOpponentMove {
            self.phase = Phase::AwaitingOpponentMove;
            Some(
                Request::SubmitMove {
                    session_id: schedule.session_id,
                    player: self.local_player.opponent(),
                    pit: PLACEHOLDER_PIT,
                },
            )
        } else {
            None
        }
    }

    /// Takes the result of a request for the opponent's move.
    ///
    /// The guard is released either way. A snapshot replaces the one in the
    /// store and is evaluated at once. A failure leaves the store as it was
    /// and is handed back; nothing is sent again by itself, but the next
    /// evaluation may start the delay anew.
    pub fn opponent_move_resolved(
        &mut self,
        store: &mut StateStore,
        outcome: Result<GameData, SessionError>,
    ) -> (next: Result<Option<Schedule>, SessionError>)
        requires
            outcome matches Ok(data) ==> data@.valid(),
        ensures
            final(store)@ == received(old(store)@, outcome),
            final(self)@ == reconciled(old(self)@.released(), outcome),
            next == answer(old(self)@.released(), outcome),
    {
        if self.phase == Phase::AwaitingOpponentMove {
            self.phase = Phase::Idle;
        }
        self.reconcile(store, outcome)
    }

    /// The request for the opponent's move was given up after
    /// [`OPPONENT_TIMEOUT_SECS`] seconds without an answer. The guard is
    /// released, the store is not touched, and the failure to surface is
    /// handed back. An answer that comes in later is to be dropped.
    pub fn opponent_move_timed_out(&mut self) -> (error: SessionError)
        ensures
            final(self)@ == old(self)@.released(),
            error == SessionError::NetworkError,
    {
        if self.phase == Phase::AwaitingOpponentMove {
            self.phase = Phase::Idle;
        }
        SessionError::NetworkError
    }

    /// Takes the result of a request for a move of the local player.
    ///
    /// A snapshot replaces the one in the store and is evaluated at once. A
    /// failure leaves the store as it was and is handed back.
    pub fn human_move_resolved(
        &mut self,
        store: &mut StateStore,
        outcome: Result<GameData, SessionError>,
    ) -> (next: Result<Option<Schedule>, SessionError>)
        requires
            outcome matches Ok(data) ==> data@.valid(),
        ensures
            final(store)@ == received(old(store)@, outcome),
            final(self)@ == reconciled(old(self)@, outcome),
            next == answer(old(self)@, outcome),
    {
        self.reconcile(store, outcome)
    }

    /// Takes the result of the first fetch of a page.
    ///
    /// A snapshot replaces the one in the store. If it is for the session
    /// that the store mirrored already, it is evaluated like the answer to a
    /// move, so that a request for the opponent's move that is on its way
    /// stays the only one. If it is for another session, or the first one,
    /// the orchestrator starts over from `Idle` against it. A failure leaves
    /// the store and the orchestrator as they were and is handed back;
    /// nothing is sent again by itself.
    pub fn first_fetch_resolved(
        &mut self,
        store: &mut StateStore,
        outcome: Result<GameData, SessionError>,
    ) -> (next: Result<Option<Schedule>, SessionError>)
        requires
            outcome matches Ok(data) ==> data@.valid(),
        ensures
            final(store)@ == received(old(store)@, outcome),
            final(self)@ == match outcome {
                Ok(data) => old(self)@.before_first(old(store)@.session(), data@).evaluated(
                    Some(data@),
                ),
                Err(_) => old(self)@,
            },
            next == match outcome {
                Ok(data) => Ok::<Option<Schedule>, SessionError>(
                    old(self)@.before_first(old(store)@.session(), data@).schedule_due(
                        Some(data@),
                    ),
                ),
                Err(e) => Err::<Option<Schedule>, SessionError>(e),
            },
    {
        match outcome {
            Ok(data) => {
                let same_session = match store.game_data() {
                    Some(prior) => prior.session_id == data.session_id,
                    None => false,
                };
                if !same_session {
                    self.phase = Phase::Idle;
                }
                store.replace(data);
                Ok(self.evaluate(store))
            },
            Err(e) => Err(e),
        }
    }

    /// Takes the result of the fetch that follows a reset, be it for a new
    /// game or for another difficulty.
    ///
    /// A snapshot replaces the one in the store, and the orchestrator starts
    /// over from `Idle` against it, since a new game may have another player
    /// to move. A failure leaves the store and the orchestrator as they were
    /// and is handed back; nothing is sent again by itself.
    pub fn reset_resolved(
        &mut self,
        store: &mut StateStore,
        outcome: Result<GameData, SessionError>,
    ) -> (next: Result<Option<Schedule>, SessionError>)
        requires
            outcome matches Ok(data) ==> data@.valid(),
        ensures
            final(store)@ == received(old(store)@, outcome),
            final(self)@ == match outcome {
                Ok(data) => old(self)@.at(Phase::Idle).evaluated(Some(data@)),
                Err(_) => old(self)@,
            },
            next == match outcome {
                Ok(data) => Ok::<Option<Schedule>, SessionError>(
                    old(self)@.at(Phase::Idle).schedule_due(Some(data@)),
                ),
                Err(e) => Err::<Option<Schedule>, SessionError>(e),
            },
    {
        match outcome {
            Ok(data) => {
                self.phase = Phase::Idle;
                store.replace(data);
                Ok(self.evaluate(store))
            },
            Err(e) => Err(e),
        }
    }

    /// Writes a snapshot into the store and evaluates it, or hands a failure
    /// back with the store untouched.
    fn reconcile(&mut self, store: &mut StateStore, outcome: Result<GameData, SessionError>) -> (next:
        Result<Option<Schedule>, SessionError>)
        requires
            outcome matches Ok(data) ==> data@.valid(),
        ensures
            final(store)@ == received(old(store)@, outcome),
            final(self)@ == reconciled(old(self)@, outcome),
            next == answer(old(self)@, outcome),
    {
        match outcome {
            Ok(data) => {
                store.replace(data);
                Ok(self.evaluate(store))
            },
            Err(e) => Err(e),
        }
    }

    /// Checks a move of the local player on pit `pit_id` and builds its
    /// request. A move after the game has ended, out of turn, or on a pit
    /// without stones is turned down here and never sent. The store is only
    /// read.
    pub fn submit_human_move(&self, store: &StateStore, pit_id: u32) -> (request: Result<
        Request,
        InvalidLocalAction,
    >)
        ensures
            request == self@.human_move(store@.snapshot, pit_id),
    {
        match store.game_data() {
            None => Err(InvalidLocalAction::NoSession),
            Some(data) => {
                if data.winner.is_some() {
                    Err(InvalidLocalAction::GameOver)
                } else if data.turn != self.local_player {
                    Err(InvalidLocalAction::OutOfTurn)
                } else if data.stones(self.local_player, pit_id) == 0 {
                    Err(InvalidLocalAction::EmptyPit)
                } else {
                    Ok(
                        Request::SubmitMove {
                            session_id: data.session_id,
                            player: self.local_player,
                            pit: pit_id,
                        },
                    )
                }
            },
        }
    }

    /// Consumes the intent of one click and builds the request for it, as
    /// [`TurnOrchestrator::submit_human_move`] does for the pit it names.
    pub fn submit_click(&self, store: &StateStore, click: ClickData) -> (request: Result<
        Request,
        InvalidLocalAction,
    >)
        ensures
            request == self@.click_move(store@.snapshot, click),
    {
        if click.player_type != self.local_player {
            Err(InvalidLocalAction::OutOfTurn)
        } else {
            self.submit_human_move(store, click.id)
        }
    }
}

/// Plans a change of difficulty: a reset of the current session under
/// `difficulty`, then a fetch of the same session. Without a session there is
/// nothing to reset.
pub fn change_difficulty(store: &StateStore, difficulty: Difficulty) -> (plan: Result<
    ResetPlan,
    InvalidLocalAction,
>)
    ensures
        plan == reset_plan(store@.snapshot, difficulty),
{
    match store.game_data() {
        None => Err(InvalidLocalAction::NoSession),
        Some(data) => Ok(
            ResetPlan {
                reset: Request::ResetSession { session_id: data.session_id, difficulty },
                refetch: Request::FetchSnapshot { session_id: Some(data.session_id) },
            },
        ),
    }
}

/// Plans a new game in the current session under the difficulty that the
/// session has now.
pub fn restart(store: &StateStore) -> (plan: Result<ResetPlan, InvalidLocalAction>)
    ensures
        plan == match store@.snapshot {
            Some(g) => reset_plan(store@.snapshot, g.difficulty),
            None => Err::<ResetPlan, InvalidLocalAction>(InvalidLocalAction::NoSession),
        },
{
    match store.game_data() {
        None => Err(InvalidLocalAction::NoSession),
        Some(data) => change_difficulty(store, data.difficulty),
    }
}

} // verus!
