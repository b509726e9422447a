//! What the board shows, derived from the store and from nothing else.
//!
//! Every function here only reads the store, so what is shown can never be
//! older than the snapshot.

use crate::orchestrator::ClickData;
use crate::store::StateStore;
use crate::store::StoreView;
use crate::text::decimal;
use crate::text::push_decimal;
use crate::types::Difficulty;
use crate::types::GameData;
use crate::types::GameView;
use crate::types::PlayerType;
use crate::types::PITS_PER_SIDE;
use vstd::prelude::*;

verus! {

/// The largest number of stones that a pit shows one by one; above it the
/// pit shows a heap. This only concerns the looks of a pit.
pub const STONE_DISPLAY_LIMIT: u32 = 6;

impl GameView {
    /// Whether the pits of `player` can be played: it is that player's turn
    /// and nobody has won.
    pub open spec fn pit_enabled(self, player: PlayerType) -> bool {
        self.turn == player && self.winner is None
    }
}

impl StoreView {
    /// Whether the pits of `player` can be played. Without a snapshot no pit
    /// can.
    pub open spec fn pit_enabled(self, player: PlayerType) -> bool {
        self.snapshot matches Some(g) && g.pit_enabled(player)
    }

    /// The winner that the snapshot names, if there is a snapshot and it
    /// names one.
    pub open spec fn winner(self) -> Option<PlayerType> {
        match self.snapshot {
            Some(g) => g.winner,
            None => None,
        }
    }

    /// The difficulty of the game that the store shows; before any
    /// snapshot, the easy one.
    pub open spec fn difficulty(self) -> Difficulty {
        match self.snapshot {
            Some(g) => g.difficulty,
            None => Difficulty::Easy,
        }
    }

    /// Stones in pit `pit` of `player`'s row; without a snapshot, none.
    pub open spec fn stones(self, player: PlayerType, pit: int) -> u32 {
        match self.snapshot {
            Some(g) => g.stones(player, pit),
            None => 0,
        }
    }
}

/// How a winner, or the lack of one, is called.
pub open spec fn winner_name(winner: Option<PlayerType>) -> Seq<char> {
    match winner {
        Some(PlayerType::Player1) => "Player 1"@,
        Some(PlayerType::Player2) => "Player 2"@,
        None => "No one"@,
    }
}

/// The text of the banner: empty while nobody has won, else the winner's
/// name and " wins!".
pub open spec fn banner(winner: Option<PlayerType>) -> Seq<char> {
    if winner is None {
        Seq::<char>::empty()
    } else {
        winner_name(winner) + " wins!"@
    }
}

/// The style class of a pit with `value` stones: one class for each count
/// up to the display limit, and one for every larger heap.
pub open spec fn stones_class_text(value: u32) -> Seq<char> {
    if value > STONE_DISPLAY_LIMIT {
        "multiple_stones"@
    } else {
        "stones-"@ + decimal(value as nat)
    }
}

/// Whether the pits of `player` can be played: it is that player's turn and
/// nobody has won.
pub fn is_pit_enabled(store: &StateStore, player: PlayerType) -> (enabled: bool)
    ensures
        enabled == store@.pit_enabled(player),
{
    match store.game_data() {
        Some(data) => enabled_in(data, player),
        None => false,
    }
}

/// Whether the pits of `player` can be played in snapshot `data`.
fn enabled_in(data: &GameData, player: PlayerType) -> (enabled: bool)
    ensures
        enabled == data@.pit_enabled(player),
{
    data.turn == player && data.winner.is_none()
}

/// The number that pit `pit` of `player`'s row shows: its stones.
pub fn pit_display_value(store: &StateStore, player: PlayerType, pit: u32) -> (value: u32)
    ensures
        value == store@.stones(player, pit as int),
{
    match store.game_data() {
        Some(data) => data.stones(player, pit),
        None => 0,
    }
}

/// The style class of a pit with `value` stones.
pub fn stones_class(value: u32) -> (class: String)
    ensures
        class@ == stones_class_text(value),
{
    if value > STONE_DISPLAY_LIMIT {
        String::from_str("multiple_stones")
    } else {
        let mut class = String::from_str("stones-");
        push_decimal(&mut class, value);
        class
    }
}

/// How a winner, or the lack of one, is called.
pub fn winner_to_string(winner: &Option<PlayerType>) -> (name: String)
    ensures
        name@ == winner_name(*winner),
{
    match winner {
        Some(PlayerType::Player1) => String::from_str("Player 1"),
        Some(PlayerType::Player2) => String::from_str("Player 2"),
        None => String::from_str("No one"),
    }
}

/// Whether the banner is shown: there is a snapshot and it names a winner.
pub fn is_visible(store: &StateStore) -> (visible: bool)
    ensures
        visible == (store@.winner() is Some),
{
    match store.game_data() {
        Some(data) => data.winner.is_some(),
        None => false,
    }
}

/// The text of the banner: empty while nobody has won, else the winner's
/// name and " wins!".
pub fn winner_text(store: &StateStore) -> (text: String)
    ensures
        text@ == banner(store@.winner()),
{
    let winner = match store.game_data() {
        Some(data) => data.winner,
        None => None,
    };
    if winner.is_none() {
        return String::new();
    }
    let mut text = winner_to_string(&winner);
    text.append(" wins!");
    text
}

/// The difficulty of the current game; before any snapshot, the easy one.
pub fn current_difficulty(store: &StateStore) -> (difficulty: Difficulty)
    ensures
        difficulty == store@.difficulty(),
{
    match store.game_data() {
        Some(data) => data.difficulty,
        None => Difficulty::Easy,
    }
}

/// One pit as the board shows it.
#[derive(Debug, Clone, Copy, PartialEq)]
pub struct PitView {
    /// The number of stones in the pit.
    pub value: u32,
    /// The seat that the pit belongs to.
    pub player_type: PlayerType,
    /// The pit's place in its row, counted from 0.
    pub id: u32,
    /// Whether a click on the pit is ignored.
    pub disabled: bool,
}

impl PitView {
    /// Pit `id` of `player`'s row in snapshot `g`.
    pub open spec fn of(g: GameView, player: PlayerType, id: int) -> PitView {
        PitView {
            value: g.stones(player, id),
            player_type: player,
            id: id as u32,
            disabled: !g.pit_enabled(player),
        }
    }

    /// The intent that a click on this pit stands for; a disabled pit gives
    /// none.
    pub fn click(&self) -> (intent: Option<ClickData>)
        ensures
            intent == if self.disabled {
                None::<ClickData>
            } else {
                Some(ClickData { player_type: self.player_type, id: self.id })
            },
    {
        if self.disabled {
            None
        } else {
            Some(ClickData { player_type: self.player_type, id: self.id })
        }
    }
}

/// The whole board as it is shown: the row of the second seat on top, running
/// from its last pit to its first, the row of the first seat below, running
/// from its first pit to its last, and a big pit at each end.
#[derive(Debug, PartialEq)]
pub struct BoardView {
    /// The big pit to the left, which belongs to the second seat.
    pub left_big_pit: u32,
    /// The upper row, left to right.
    pub top_row: Vec<PitView>,
    /// The lower row, left to right.
    pub bottom_row: Vec<PitView>,
    /// The big pit to the right, which belongs to the first seat.
    pub right_big_pit: u32,
}

impl BoardView {
    /// Whether this board shows snapshot `g`.
    pub open spec fn shows(self, g: GameView) -> bool {
        &&& self.left_big_pit == g.big_pit(PlayerType::Player2)
        &&& self.right_big_pit == g.big_pit(PlayerType::Player1)
        &&& self.top_row@ =~= Seq::new(
            PITS_PER_SIDE as nat,
            |j: int| PitView::of(g, PlayerType::Player2, PITS_PER_SIDE - 1 - j),
        )
        &&& self.bottom_row@ =~= Seq::new(
            PITS_PER_SIDE as nat,
            |j: int| PitView::of(g, PlayerType::Player1, j),
        )
    }
}

/// The board for the current snapshot; none while no snapshot is loaded.
pub fn board_view(store: &StateStore) -> (board: Option<BoardView>)
    ensures
        match board {
            Some(b) => store@.snapshot matches Some(g) && b.shows(g),
            None => store@.snapshot is None,
        },
{
    match store.game_data() {
        None => None,
        Some(data) => {
            let top_disabled = !enabled_in(data, PlayerType::Player2);
            let bottom_disabled = !enabled_in(data, PlayerType::Player1);
            let mut top_row: Vec<PitView> = Vec::new();
            let mut bottom_row: Vec<PitView> = Vec::new();
            let mut j: usize = 0;
            while j < PITS_PER_SIDE
                invariant
                    j <= PITS_PER_SIDE,
                    top_disabled == !data@.pit_enabled(PlayerType::Player2),
                    bottom_disabled == !data@.pit_enabled(PlayerType::Player1),
                    top_row@ =~= Seq::new(
                        j as nat,
                        |k: int| PitView::of(data@, PlayerType::Player2, PITS_PER_SIDE - 1 - k),
                    ),
                    bottom_row@ =~= Seq::new(
                        j as nat,
                        |k: int| PitView::of(data@, PlayerType::Player1, k),
                    ),
                decreases PITS_PER_SIDE - j,
            {
                let top_id = (PITS_PER_SIDE - 1 - j) as u32;
                let bottom_id = j as u32;
                top_row.push(
                    PitView {
                        value: data.stones(PlayerType::Player2, top_id),
                        player_type: PlayerType::Player2,
                        id: top_id,
                        disabled: top_disabled,
                    },
                );
                bottom_row.push(
                    PitView {
                        value: data.stones(PlayerType::Player1, bottom_id),
                        player_type: PlayerType::Player1,
                        id: bottom_id,
                        disabled: bottom_disabled,
                    },
                );
                j = j + 1;
            }
            Some(
                BoardView {
                    left_big_pit: data.big_pit(PlayerType::Player2),
                    top_row,
                    bottom_row,
                    right_big_pit: data.big_pit(PlayerType::Player1),
                },
            )
        },
    }
}

} // verus!
