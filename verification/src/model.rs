//! The rows of the four tables.

use crate::ordering::Listed;
use crate::text::{comes_first, text_le};
use vstd::prelude::*;

verus! {

/// A game as the store holds it. Identifiers are the 128-bit values of UUIDs;
/// times are microseconds since the Unix epoch.
#[derive(Debug, PartialEq, Eq)]
pub struct GameModel {
    pub id: u128,
    pub name: String,
    pub creator_name: String,
    pub created_at: i64,
}

/// What a [`GameModel`] holds, with text as sequences of characters.
pub struct GameRow {
    pub id: u128,
    pub name: Seq<char>,
    pub creator_name: Seq<char>,
    pub created_at: i64,
}

impl View for GameModel {
    type V = GameRow;

    open spec fn view(&self) -> GameRow {
        GameRow {
            id: self.id,
            name: self.name@,
            creator_name: self.creator_name@,
            created_at: self.created_at,
        }
    }
}

impl Clone for GameModel {
    fn clone(&self) -> (copy: Self)
        ensures
            copy@ == self@,
    {
        GameModel {
            id: self.id,
            name: self.name.clone(),
            creator_name: self.creator_name.clone(),
            created_at: self.created_at,
        }
    }
}

/// Games are listed by name.
impl Listed for GameModel {
    open spec fn precedes(a: GameRow, b: GameRow) -> bool {
        text_le(a.name, b.name)
    }

    fn goes_before(&self, other: &Self) -> (first: bool) {
        comes_first(self.name.as_str(), other.name.as_str())
    }

    fn duplicate(&self) -> (copy: Self) {
        self.clone()
    }
}

/// A player as the store holds it.
#[derive(Debug, PartialEq, Eq)]
pub struct PlayerModel {
    pub id: u128,
    pub name: String,
    pub is_owner: bool,
    pub created_at: i64,
}

/// What a [`PlayerModel`] holds, with text as a sequence of characters.
pub struct PlayerRow {
    pub id: u128,
    pub name: Seq<char>,
    pub is_owner: bool,
    pub created_at: i64,
}

impl View for PlayerModel {
    type V = PlayerRow;

    open spec fn view(&self) -> PlayerRow {
        PlayerRow {
            id: self.id,
            name: self.name@,
            is_owner: self.is_owner,
            created_at: self.created_at,
        }
    }
}

impl Clone for PlayerModel {
    fn clone(&self) -> (copy: Self)
        ensures
            copy@ == self@,
    {
        PlayerModel {
            id: self.id,
            name: self.name.clone(),
            is_owner: self.is_owner,
            created_at: self.created_at,
        }
    }
}

/// Players are listed by name.
impl Listed for PlayerModel {
    open spec fn precedes(a: PlayerRow, b: PlayerRow) -> bool {
        text_le(a.name, b.name)
    }

    fn goes_before(&self, other: &Self) -> (first: bool) {
        comes_first(self.name.as_str(), other.name.as_str())
    }

    fn duplicate(&self) -> (copy: Self) {
        self.clone()
    }
}

/// One session of a game.
#[derive(Clone, Copy, Debug, PartialEq, Eq, Structural)]
pub struct PlayModel {
    pub id: u128,
    pub game_id: u128,
    pub created_at: i64,
}

impl View for PlayModel {
    type V = PlayModel;

    open spec fn view(&self) -> PlayModel {
        *self
    }
}

/// Plays are listed by the identifier of their game.
impl Listed for PlayModel {
    open spec fn precedes(a: PlayModel, b: PlayModel) -> bool {
        a.game_id <= b.game_id
    }

    fn goes_before(&self, other: &Self) -> (first: bool) {
        self.game_id <= other.game_id
    }

    fn duplicate(&self) -> (copy: Self) {
        *self
    }
}

/// The part a player took in a play. The pair is the row's key.
#[derive(Clone, Copy, Debug, PartialEq, Eq, Structural)]
pub struct PlayParticipantModel {
    pub play_id: u128,
    pub player_id: u128,
}

impl View for PlayParticipantModel {
    type V = PlayParticipantModel;

    open spec fn view(&self) -> PlayParticipantModel {
        *self
    }
}

} // verus!
