//! What a request carries: the fields to create a row with, or to change.

use crate::model::{
    GameModel, GameRow, PlayModel, PlayParticipantModel, PlayerModel, PlayerRow,
};
use vstd::prelude::*;

verus! {

/// The value that stands after a change: the one provided, or else the one
/// that was there.
pub open spec fn provided_or<T>(provided: Option<T>, existing: T) -> T {
    match provided {
        Some(value) => value,
        None => existing,
    }
}

/// The view of an optional text.
pub open spec fn text_view(text: Option<String>) -> Option<Seq<char>> {
    match text {
        Some(s) => Some(s@),
        None => None,
    }
}

/// The text provided, or else a copy of the existing one.
fn text_or(provided: &Option<String>, existing: &String) -> (text: String)
    ensures
        text@ == provided_or(text_view(*provided), existing@),
{
    match provided {
        Some(s) => s.clone(),
        None => existing.clone(),
    }
}

/// The fields of a new game.
#[derive(Debug, PartialEq, Eq)]
pub struct GameSchema {
    pub name: String,
    pub creator_name: String,
}

impl GameSchema {
    /// The row that creating this game under `id` at time `now` stores.
    pub open spec fn row(&self, id: u128, now: i64) -> GameRow {
        GameRow { id, name: self.name@, creator_name: self.creator_name@, created_at: now }
    }
}

/// The fields of a game that a request may change.
#[derive(Debug, PartialEq, Eq)]
pub struct UpdateGameSchema {
    pub name: Option<String>,
    pub creator_name: Option<String>,
}

impl UpdateGameSchema {
    /// The row that stands after the change: each field provided replaces the
    /// existing one, the others stay.
    pub open spec fn merged(&self, existing: GameRow) -> GameRow {
        GameRow {
            id: existing.id,
            name: provided_or(text_view(self.name), existing.name),
            creator_name: provided_or(text_view(self.creator_name), existing.creator_name),
            created_at: existing.created_at,
        }
    }

    /// Applies the change to a copy of `existing`.
    pub fn apply(&self, existing: &GameModel) -> (row: GameModel)
        ensures
            row@ == self.merged(existing@),
    {
        GameModel {
            id: existing.id,
            name: text_or(&self.name, &existing.name),
            creator_name: text_or(&self.creator_name, &existing.creator_name),
            created_at: existing.created_at,
        }
    }
}

/// The fields of a new player, or of a change to one.
#[derive(Debug, PartialEq, Eq)]
pub struct PlayerSchema {
    pub name: String,
    pub is_owner: Option<bool>,
}

impl PlayerSchema {
    /// The row that creating this player under `id` at time `now` stores: a
    /// player is no owner unless the request says so.
    pub open spec fn row(&self, id: u128, now: i64) -> PlayerRow {
        PlayerRow {
            id,
            name: self.name@,
            is_owner: provided_or(self.is_owner, false),
            created_at: now,
        }
    }

    /// The row that stands after the change: the name is replaced, the owner
    /// flag only where one is provided.
    pub open spec fn merged(&self, existing: PlayerRow) -> PlayerRow {
        PlayerRow {
            id: existing.id,
            name: self.name@,
            is_owner: provided_or(self.is_owner, existing.is_owner),
            created_at: existing.created_at,
        }
    }

    /// Whether the new player is to be the owner.
    pub fn owner_flag(&self) -> (flag: bool)
        ensures
            flag == provided_or(self.is_owner, false),
    {
        match self.is_owner {
            Some(flag) => flag,
            None => false,
        }
    }

    /// Applies the change to a copy of `existing`.
    pub fn apply(&self, existing: &PlayerModel) -> (row: PlayerModel)
        ensures
            row@ == self.merged(existing@),
    {
        let is_owner: bool = match self.is_owner {
            Some(flag) => flag,
            None => existing.is_owner,
        };
        PlayerModel {
            id: existing.id,
            name: self.name.clone(),
            is_owner,
            created_at: existing.created_at,
        }
    }
}

/// The fields of a new play, or of a change to one.
#[derive(Clone, Copy, Debug, PartialEq, Eq, Structural)]
pub struct PlaySchema {
    pub game_id: u128,
}

impl PlaySchema {
    /// The row that creating this play under `id` at time `now` stores.
    pub open spec fn row(&self, id: u128, now: i64) -> PlayModel {
        PlayModel { id, game_id: self.game_id, created_at: now }
    }

    /// The row that stands after the change: the game is replaced.
    pub open spec fn merged(&self, existing: PlayModel) -> PlayModel {
        PlayModel { id: existing.id, game_id: self.game_id, created_at: existing.created_at }
    }

    /// Applies the change to a copy of `existing`.
    pub fn apply(&self, existing: &PlayModel) -> (row: PlayModel)
        ensures
            row == self.merged(*existing),
    {
        PlayModel { id: existing.id, game_id: self.game_id, created_at: existing.created_at }
    }
}

/// The key of a new participant row.
#[derive(Clone, Copy, Debug, PartialEq, Eq, Structural)]
pub struct PlayParticipantSchema {
    pub play_id: u128,
    pub player_id: u128,
}

impl PlayParticipantSchema {
    /// The row that creating this participant stores.
    pub open spec fn row(&self) -> PlayParticipantModel {
        PlayParticipantModel { play_id: self.play_id, player_id: self.player_id }
    }
}

/// The halves of a participant's key that a request may change.
#[derive(Clone, Copy, Debug, PartialEq, Eq, Structural)]
pub struct UpdatePlayParticipantSchema {
    pub play_id: Option<u128>,
    pub player_id: Option<u128>,
}

impl UpdatePlayParticipantSchema {
    /// The row that stands after the change: each half provided replaces the
    /// existing one, the other stays.
    pub open spec fn merged(&self, existing: PlayParticipantModel) -> PlayParticipantModel {
        PlayParticipantModel {
            play_id: provided_or(self.play_id, existing.play_id),
            player_id: provided_or(self.player_id, existing.player_id),
        }
    }

    /// Applies the change to a copy of `existing`.
    pub fn apply(&self, existing: &PlayParticipantModel) -> (row: PlayParticipantModel)
        ensures
            row == self.merged(*existing),
    {
        let play_id: u128 = match self.play_id {
            Some(id) => id,
            None => existing.play_id,
        };
        let player_id: u128 = match self.player_id {
            Some(id) => id,
            None => existing.player_id,
        };
        PlayParticipantModel { play_id, player_id }
    }
}

} // verus!
