//! The snapshot shape shared with the server.

use std::collections::HashMap;
use vstd::prelude::*;

verus! {

/// Where the game server listens when nothing else is configured.
pub const BACKEND_URL: &'static str = "http://localhost:8000";

/// Number of sowing pits on each side of the board.
pub const PITS_PER_SIDE: usize = 6;

/// One of the two seats at the board.
#[derive(Debug, Clone, Copy)]
pub enum PlayerType {
    Player1,
    Player2,
}

impl PlayerType {
    /// The key under which this seat's record is stored in a snapshot.
    pub open spec fn index(self) -> u32 {
        match self {
            PlayerType::Player1 => 0,
            PlayerType::Player2 => 1,
        }
    }

    /// The seat on the other side of the board.
    pub open spec fn other(self) -> PlayerType {
        match self {
            PlayerType::Player1 => PlayerType::Player2,
            PlayerType::Player2 => PlayerType::Player1,
        }
    }

    /// The seat that a number on the wire stands for: 0 or 1, and no other.
    pub open spec fn of_index(index: u32) -> Option<PlayerType> {
        if index == 0 {
            Some(PlayerType::Player1)
        } else if index == 1 {
            Some(PlayerType::Player2)
        } else {
            None
        }
    }

    /// The seat that a number on the wire stands for: 0 or 1, and no other.
    pub fn from_index(index: u32) -> (r: Option<PlayerType>)
        ensures
            r == PlayerType::of_index(index),
            r matches Some(p) ==> p.index() == index,
    {
        if index == 0 {
            Some(PlayerType::Player1)
        } else if index == 1 {
            Some(PlayerType::Player2)
        } else {
            None
        }
    }

    /// The seat on the other side of the board.
    pub fn opponent(self) -> (r: PlayerType)
        ensures
            r == self.other(),
            r != self,
    {
        match self {
            PlayerType::Player1 => PlayerType::Player2,
            PlayerType::Player2 => PlayerType::Player1,
        }
    }
}

impl PartialEq for PlayerType {
    /// Two seats are equal when they are the same seat.
    fn eq(&self, other: &Self) -> (r: bool) {
        match (self, other) {
            (PlayerType::Player1, PlayerType::Player1) => true,
            (PlayerType::Player2, PlayerType::Player2) => true,
            _ => false,
        }
    }
}

impl vstd::std_specs::cmp::PartialEqSpecImpl for PlayerType {
    open spec fn obeys_eq_spec() -> bool {
        true
    }

    open spec fn eq_spec(&self, other: &Self) -> bool {
        match (self, other) {
            (PlayerType::Player1, PlayerType::Player1) => true,
            (PlayerType::Player2, PlayerType::Player2) => true,
            _ => false,
        }
    }
}

impl Default for PlayerType {
    fn default() -> (r: Self)
        ensures
            r == PlayerType::Player1,
    {
        PlayerType::Player1
    }
}

impl From<PlayerType> for u32 {
    /// The number that stands for the seat on the wire.
    fn from(player_type: PlayerType) -> (r: u32) {
        match player_type {
            PlayerType::Player1 => 0,
            PlayerType::Player2 => 1,
        }
    }
}

impl vstd::std_specs::convert::FromSpecImpl<PlayerType> for u32 {
    open spec fn obeys_from_spec() -> bool {
        true
    }

    open spec fn from_spec(player_type: PlayerType) -> u32 {
        player_type.index()
    }
}

/// Strength of the computer opponent, as the server reports it.
#[derive(Debug, Clone, Copy, PartialEq, Eq, Structural)]
pub enum Difficulty {
    Easy,
    Hard,
}

impl Difficulty {
    /// The number that stands for this strength on the wire.
    pub open spec fn index(self) -> u32 {
        match self {
            Difficulty::Easy => 0,
            Difficulty::Hard => 1,
        }
    }
}

impl Difficulty {
    /// The strength that a number on the wire stands for: 0 or 1, and no
    /// other.
    pub open spec fn of_index(index: u32) -> Option<Difficulty> {
        if index == 0 {
            Some(Difficulty::Easy)
        } else if index == 1 {
            Some(Difficulty::Hard)
        } else {
            None
        }
    }

    /// The strength that a number on the wire stands for: 0 or 1, and no
    /// other.
    pub fn from_index(index: u32) -> (r: Option<Difficulty>)
        ensures
            r == Difficulty::of_index(index),
            r matches Some(d) ==> d.index() == index,
    {
        if index == 0 {
            Some(Difficulty::Easy)
        } else if index == 1 {
            Some(Difficulty::Hard)
        } else {
            None
        }
    }
}

impl Default for Difficulty {
    fn default() -> (r: Self)
        ensures
            r == Difficulty::Easy,
    {
        Difficulty::Easy
    }
}

impl From<Difficulty> for u32 {
    /// The number that stands for the strength on the wire.
    fn from(difficulty: Difficulty) -> (r: u32) {
        match difficulty {
            Difficulty::Easy => 0,
            Difficulty::Hard => 1,
        }
    }
}

impl vstd::std_specs::convert::FromSpecImpl<Difficulty> for u32 {
    open spec fn obeys_from_spec() -> bool {
        true
    }

    open spec fn from_spec(difficulty: Difficulty) -> u32 {
        difficulty.index()
    }
}

/// Identifier of one game on the server: the 128 bits of its UUID, most
/// significant byte first. It is never interpreted, only handed back.
#[derive(Debug, Clone, Copy, PartialEq, Eq, Structural)]
pub struct SessionId(pub u128);

/// One side of the board.
#[derive(Debug, PartialEq)]
pub struct Player {
    pub big_pit: u32,
    pub pits: Vec<u32>,
}

/// What a [`Player`] record holds.
pub struct PlayerView {
    pub big_pit: u32,
    pub pits: Seq<u32>,
}

impl View for Player {
    type V = PlayerView;

    open spec fn view(&self) -> PlayerView {
        PlayerView { big_pit: self.big_pit, pits: self.pits@ }
    }
}

impl Clone for Player {
    fn clone(&self) -> (r: Self)
        ensures
            r@ == self@,
    {
        Player { big_pit: self.big_pit, pits: self.pits.clone() }
    }
}

impl PlayerView {
    /// Stones in pit `pit`; a pit that the row does not have holds none.
    pub open spec fn stones(self, pit: int) -> u32 {
        if 0 <= pit < self.pits.len() {
            self.pits[pit]
        } else {
            0
        }
    }
}

/// One full snapshot of a game, as the server sends it. A snapshot is never
/// changed in place: a newer one replaces it.
#[derive(Debug, PartialEq)]
pub struct GameData {
    pub session_id: SessionId,
    pub difficulty: Difficulty,
    pub turn: PlayerType,
    pub winner: Option<PlayerType>,
    pub players: HashMap<u32, Player>,
}

/// What a [`GameData`] snapshot holds.
pub struct GameView {
    pub session_id: SessionId,
    pub difficulty: Difficulty,
    pub turn: PlayerType,
    pub winner: Option<PlayerType>,
    pub players: Map<u32, PlayerView>,
}

impl View for GameData {
    type V = GameView;

    open spec fn view(&self) -> GameView {
        GameView {
            session_id: self.session_id,
            difficulty: self.difficulty,
            turn: self.turn,
            winner: self.winner,
            players: self.players@.map_values(|p: Player| p@),
        }
    }
}

impl GameView {
    /// A snapshot is valid when it has a record for each of the two seats,
    /// and for no other key, and each record has its six pits.
    pub open spec fn valid(self) -> bool {
        &&& self.players.dom() =~= set![0u32, 1u32]
        &&& self.players[0].pits.len() == PITS_PER_SIDE
        &&& self.players[1].pits.len() == PITS_PER_SIDE
    }

    /// The snapshot that the fields of a decoded body stand for, where the
    /// numbers for the difficulty, the turn and the winner are each one of
    /// the known ones; none where any of them is not.
    pub open spec fn of_wire(
        session_id: SessionId,
        difficulty: u32,
        turn: u32,
        winner: Option<u32>,
        players: Map<u32, PlayerView>,
    ) -> Option<GameView> {
        match (Difficulty::of_index(difficulty), PlayerType::of_index(turn)) {
            (Some(d), Some(t)) => match winner {
                None => Some(
                    GameView { session_id, difficulty: d, turn: t, winner: None, players },
                ),
                Some(w) => match PlayerType::of_index(w) {
                    Some(p) => Some(
                        GameView { session_id, difficulty: d, turn: t, winner: Some(p), players },
                    ),
                    None => None,
                },
            },
            _ => None,
        }
    }

    /// Stones in pit `pit` of `player`'s row; a pit or a record that the
    /// snapshot does not have holds none.
    pub open spec fn stones(self, player: PlayerType, pit: int) -> u32 {
        if self.players.contains_key(player.index()) {
            self.players[player.index()].stones(pit)
        } else {
            0
        }
    }

    /// Stones in `player`'s big pit; a record that the snapshot does not have
    /// holds none.
    pub open spec fn big_pit(self, player: PlayerType) -> u32 {
        if self.players.contains_key(player.index()) {
            self.players[player.index()].big_pit
        } else {
            0
        }
    }
}

impl Clone for GameData {
    fn clone(&self) -> (r: Self)
        ensures
            r@ == self@,
    {
        GameData {
            session_id: self.session_id,
            difficulty: self.difficulty,
            turn: self.turn,
            winner: self.winner,
            players: self.players.clone(),
        }
    }
}

impl Default for GameData {
    /// The empty snapshot: no records, nil identifier. It is not valid.
    fn default() -> (r: Self)
        ensures
            r@.session_id == SessionId(0),
            r@.difficulty == Difficulty::Easy,
            r@.turn == PlayerType::Player1,
            r@.winner is None,
            r@.players =~= Map::<u32, PlayerView>::empty(),
    {
        GameData {
            session_id: SessionId(0),
            difficulty: Difficulty::Easy,
            turn: PlayerType::Player1,
            winner: None,
            players: HashMap::new(),
        }
    }
}

impl GameData {
    /// Builds a snapshot from the fields of a decoded body. The difficulty,
    /// the turn and the winner travel as numbers; a number that stands for
    /// nothing makes the whole body unusable.
    pub fn from_wire(
        session_id: SessionId,
        difficulty: u32,
        turn: u32,
        winner: Option<u32>,
        players: HashMap<u32, Player>,
    ) -> (data: Option<GameData>)
        ensures
            match data {
                Some(d) => GameView::of_wire(
                    session_id,
                    difficulty,
                    turn,
                    winner,
                    players@.map_values(|p: Player| p@),
                ) == Some(d@),
                None => GameView::of_wire(
                    session_id,
                    difficulty,
                    turn,
                    winner,
                    players@.map_values(|p: Player| p@),
                ) is None,
            },
    {
        let difficulty = match Difficulty::from_index(difficulty) {
            Some(d) => d,
            None => return None,
        };
        let turn = match PlayerType::from_index(turn) {
            Some(p) => p,
            None => return None,
        };
        let winner = match winner {
            Some(w) => match PlayerType::from_index(w) {
                Some(p) => Some(p),
                None => return None,
            },
            None => None,
        };
        Some(GameData { session_id, difficulty, turn, winner, players })
    }

    /// The record of `player`, if the snapshot has one.
    pub fn player(&self, player: PlayerType) -> (record: Option<&Player>)
        ensures
            match record {
                Some(r) => self@.players.contains_key(player.index()) && self@.players[player.index()]
                    == r@,
                None => !self@.players.contains_key(player.index()),
            },
    {
        broadcast use vstd::std_specs::hash::group_hash_axioms;

        let key = u32::from(player);
        self.players.get(&key)
    }

    /// Stones in pit `pit` of `player`'s row; a pit or a record that the
    /// snapshot does not have holds none.
    pub fn stones(&self, player: PlayerType, pit: u32) -> (count: u32)
        ensures
            count == self@.stones(player, pit as int),
    {
        match self.player(player) {
            Some(record) => {
                let i = pit as usize;
                if i < record.pits.len() {
                    record.pits[i]
                } else {
                    0
                }
            },
            None => 0,
        }
    }

    /// Stones in `player`'s big pit; a record that the snapshot does not
    /// have holds none.
    pub fn big_pit(&self, player: PlayerType) -> (count: u32)
        ensures
            count == self@.big_pit(player),
    {
        match self.player(player) {
            Some(record) => record.big_pit,
            None => 0,
        }
    }

    /// Whether the snapshot has exactly the two records, each with six pits.
    pub fn is_valid(&self) -> (ok: bool)
        ensures
            ok == self@.valid(),
    {
        broadcast use vstd::std_specs::hash::group_hash_axioms;

        if self.players.len() != 2 {
            proof {
                lemma_two_seats(self.players@.dom());
            }
            return false;
        }
        let first = self.players.get(&0);
        let second = self.players.get(&1);
        match (first, second) {
            (Some(a), Some(b)) => {
                proof {
                    lemma_two_seats(self.players@.dom());
                }
                a.pits.len() == PITS_PER_SIDE && b.pits.len() == PITS_PER_SIDE
            },
            _ => false,
        }
    }
}

/// A finite set of keys is `{0, 1}` exactly when it has two members and both
/// `0` and `1` are among them.
pub proof fn lemma_two_seats(keys: Set<u32>)
    requires
        keys.finite(),
    ensures
        keys =~= set![0u32, 1u32] <==> (keys.len() == 2 && keys.contains(0) && keys.contains(1)),
{
    broadcast use vstd::set::group_set_axioms;

    if keys.len() == 2 && keys.contains(0) && keys.contains(1) {
        let rest = keys.remove(0).remove(1);
        assert(rest.len() == 0);
        assert(rest =~= Set::<u32>::empty());
        assert forall|k: u32| keys.contains(k) implies k == 0 || k == 1 by {
            if k != 0 && k != 1 {
                assert(rest.contains(k));
            }
        }
        assert(keys =~= set![0u32, 1u32]);
    }
    if keys =~= set![0u32, 1u32] {
        assert(set![0u32, 1u32].len() == 2);
    }
}

} // verus!
