//! The wire side of a session: which URL stands for which request, and how
//! an answer is classified. Nothing here touches the store.

use crate::text::decimal;
use crate::text::hyphenated;
use crate::text::push_decimal;
use crate::text::push_session;
use crate::types::Difficulty;
use crate::types::GameData;
use crate::types::GameView;
use crate::types::PlayerType;
use crate::types::SessionId;
use vstd::prelude::*;

verus! {

/// Why a call to the server gave no snapshot.
#[derive(Debug, Clone, Copy, PartialEq, Eq, Structural)]
pub enum SessionError {
    /// The transport failed: there was no response at all.
    NetworkError,
    /// There was a response, but its status was no success or its body was
    /// not a valid snapshot.
    ProtocolError,
}

/// The address below which the server of the page at `origin` answers.
pub fn api_base(origin: &str) -> (base: String)
    ensures
        base@ == origin@ + "/api/"@,
{
    let mut base = String::from_str(origin);
    base.append("/api/");
    base
}

/// One call to the server.
#[allow(inconsistent_fields)]
#[derive(Debug, Clone, Copy, PartialEq)]
pub enum Request {
    /// Ask for the current snapshot of a session; without an identifier the
    /// server creates a session or resumes its latest.
    FetchSnapshot { session_id: Option<SessionId> },
    /// Ask that `player` plays pit `pit`; the answer is the snapshot after
    /// the move.
    SubmitMove { session_id: SessionId, player: PlayerType, pit: u32 },
    /// Ask for a new game under `difficulty` in the same session; the answer
    /// is an acknowledgement, not a snapshot.
    ResetSession { session_id: SessionId, difficulty: Difficulty },
}

impl Request {
    /// The URL of this request below `base`.
    pub open spec fn url_text(self, base: Seq<char>) -> Seq<char> {
        match self {
            Request::FetchSnapshot { session_id: None } => base,
            Request::FetchSnapshot { session_id: Some(id) } => base + "?sessionId="@ + hyphenated(
                id.0,
            ),
            Request::SubmitMove { session_id, player, pit } => base + "/select?userid="@ + decimal(
                player.index() as nat,
            ) + "&sessionid="@ + hyphenated(session_id.0) + "&pit="@ + decimal(pit as nat),
            Request::ResetSession { session_id, difficulty } => base + "/reset?sessionid="@
                + hyphenated(session_id.0) + "&difficulty="@ + decimal(difficulty.index() as nat),
        }
    }

    /// The session that this request names, if it names one.
    pub open spec fn session(self) -> Option<SessionId> {
        match self {
            Request::FetchSnapshot { session_id } => session_id,
            Request::SubmitMove { session_id, .. } => Some(session_id),
            Request::ResetSession { session_id, .. } => Some(session_id),
        }
    }

    /// The URL of this request below `base`.
    pub fn url(&self, base: &str) -> (url: String)
        ensures
            url@ == self.url_text(base@),
    {
        let mut url = String::from_str(base);
        match *self {
            Request::FetchSnapshot { session_id: None } => {},
            Request::FetchSnapshot { session_id: Some(id) } => {
                url.append("?sessionId=");
                push_session(&mut url, id);
            },
            Request::SubmitMove { session_id, player, pit } => {
                url.append("/select?userid=");
                push_decimal(&mut url, u32::from(player));
                url.append("&sessionid=");
                push_session(&mut url, session_id);
                url.append("&pit=");
                push_decimal(&mut url, pit);
            },
            Request::ResetSession { session_id, difficulty } => {
                url.append("/reset?sessionid=");
                push_session(&mut url, session_id);
                url.append("&difficulty=");
                push_decimal(&mut url, u32::from(difficulty));
            },
        }
        url
    }
}

/// Whether an HTTP status reports success.
pub open spec fn is_success(status: u16) -> bool {
    200 <= status <= 299
}

/// Whether an HTTP status reports success.
pub fn status_is_success(status: u16) -> (ok: bool)
    ensures
        ok == is_success(status),
{
    200 <= status && status <= 299
}

/// What came back from the transport, before it is classified.
#[derive(Debug, PartialEq)]
pub enum Reply {
    /// The request never got a response.
    NoResponse,
    /// A response arrived with this status; `snapshot` is the body where it
    /// could be read as a snapshot.
    Response { status: u16, snapshot: Option<GameData> },
}

impl Reply {
    /// The snapshot that this reply delivers, or the failure it amounts to.
    pub open spec fn outcome(self) -> Result<GameView, SessionError> {
        match self {
            Reply::NoResponse => Err(SessionError::NetworkError),
            Reply::Response { status, snapshot } => {
                if !is_success(status) {
                    Err(SessionError::ProtocolError)
                } else {
                    match snapshot {
                        Some(data) => if data@.valid() {
                            Ok(data@)
                        } else {
                            Err(SessionError::ProtocolError)
                        },
                        None => Err(SessionError::ProtocolError),
                    }
                }
            },
        }
    }

    /// Whether this reply acknowledges a request whose answer carries no
    /// snapshot, or the failure it amounts to.
    pub open spec fn acknowledgement(self) -> Result<(), SessionError> {
        match self {
            Reply::NoResponse => Err(SessionError::NetworkError),
            Reply::Response { status, .. } => if is_success(status) {
                Ok(())
            } else {
                Err(SessionError::ProtocolError)
            },
        }
    }

    /// Classifies the reply to a request for a snapshot. A snapshot is only
    /// handed on when the status is a success and the snapshot is valid.
    pub fn into_snapshot(self) -> (result: Result<GameData, SessionError>)
        ensures
            match result {
                Ok(data) => self.outcome() == Ok::<GameView, SessionError>(data@) && data@.valid(),
                Err(e) => self.outcome() == Err::<GameView, SessionError>(e),
            },
    {
        match self {
            Reply::NoResponse => Err(SessionError::NetworkError),
            Reply::Response { status, snapshot } => {
                if !status_is_success(status) {
                    return Err(SessionError::ProtocolError);
                }
                match snapshot {
                    Some(data) => {
                        if data.is_valid() {
                            Ok(data)
                        } else {
                            Err(SessionError::ProtocolError)
                        }
                    },
                    None => Err(SessionError::ProtocolError),
                }
            },
        }
    }

    /// Classifies the reply to a request that is only acknowledged.
    pub fn into_acknowledgement(self) -> (result: Result<(), SessionError>)
        ensures
            result == self.acknowledgement(),
    {
        match self {
            Reply::NoResponse => Err(SessionError::NetworkError),
            Reply::Response { status, .. } => {
                if status_is_success(status) {
                    Ok(())
                } else {
                    Err(SessionError::ProtocolError)
                }
            },
        }
    }
}

} // verus!
