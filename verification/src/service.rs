//! What each operation of the service does to the tables and replies, stated
//! over the tables as mathematical values.

use crate::envelope::{
    created_reply, deleted_reply, fetched_reply, listed_reply, lookup_fault, updated_reply,
    Entity, FaultStatus, Key, RecordView, RecordsView, ReplyView, StatusCode,
};
use crate::failure::{diagnostic, FailureKind, FailureView};
use crate::model::{GameRow, PlayModel, PlayParticipantModel, PlayerRow};
use crate::schema::{PlaySchema, PlayerSchema, UpdateGameSchema, UpdatePlayParticipantSchema};
use crate::tables::Tables;
use vstd::prelude::*;

verus! {

/// The tables after a request, and the reply to it.
pub struct Served {
    pub tables: Tables,
    pub reply: ReplyView,
}

/// A failure that the tables raise: its kind with the tables' own diagnostic
/// text.
pub open spec fn raised(kind: FailureKind) -> FailureView {
    FailureView { kind, detail: diagnostic(kind) }
}

/// What a statement on games hands to the reply.
pub open spec fn game_record(result: Result<GameRow, FailureKind>) -> Result<
    RecordView,
    FailureView,
> {
    match result {
        Ok(row) => Ok(RecordView::Game(row)),
        Err(kind) => Err(raised(kind)),
    }
}

/// What a statement on players hands to the reply.
pub open spec fn player_record(result: Result<PlayerRow, FailureKind>) -> Result<
    RecordView,
    FailureView,
> {
    match result {
        Ok(row) => Ok(RecordView::Player(row)),
        Err(kind) => Err(raised(kind)),
    }
}

/// What a statement on plays hands to the reply.
pub open spec fn play_record(result: Result<PlayModel, FailureKind>) -> Result<
    RecordView,
    FailureView,
> {
    match result {
        Ok(row) => Ok(RecordView::Play(row)),
        Err(kind) => Err(raised(kind)),
    }
}

/// What a statement on participant rows hands to the reply.
pub open spec fn participant_record(result: Result<PlayParticipantModel, FailureKind>) -> Result<
    RecordView,
    FailureView,
> {
    match result {
        Ok(row) => Ok(RecordView::PlayParticipant(row)),
        Err(kind) => Err(raised(kind)),
    }
}

/// The reply is a fault with this status code.
pub open spec fn faults_with(reply: ReplyView, code: StatusCode) -> bool {
    reply matches Err((status, _)) && status == code
}

/// The key of a participant row.
pub open spec fn pair_key(key: PlayParticipantModel) -> Key {
    Key::Pair(key.play_id, key.player_id)
}

// ----- games -----

/// Creating a game: the row is stored, or the request conflicts with a game
/// that has the identifier or the name.
pub open spec fn create_game(before: Tables, row: GameRow) -> Served {
    let done = before.insert_game(row);
    Served { tables: done.tables, reply: created_reply(Entity::Game, game_record(done.result)) }
}

/// Listing the games.
pub open spec fn game_list(before: Tables) -> ReplyView {
    listed_reply(Ok(RecordsView::Games(before.list_games())))
}

/// Getting a game by its identifier.
pub open spec fn get_game(before: Tables, id: u128) -> ReplyView {
    fetched_reply(Entity::Game, Key::Id(id), game_record(before.select_game(id)))
}

/// Deleting a game by its identifier.
pub open spec fn delete_game(before: Tables, id: u128) -> Served {
    let done = before.delete_game(id);
    Served {
        tables: done.tables,
        reply: deleted_reply(Entity::Game, Key::Id(id), game_record(done.result)),
    }
}

/// Changing a game: the row is looked up, the fields that the request
/// provides replace its own, and the result is written back.
pub open spec fn update_game(before: Tables, id: u128, body: UpdateGameSchema) -> Served {
    match before.select_game(id) {
        Err(kind) => Served {
            tables: before,
            reply: Err(lookup_fault(Entity::Game, Key::Id(id), FaultStatus::Error, raised(kind))),
        },
        Ok(existing) => {
            let merged = body.merged(existing);
            let done = before.update_game(id, merged.name, merged.creator_name);
            Served { tables: done.tables, reply: updated_reply(game_record(done.result)) }
        },
    }
}

// ----- players -----

/// Creating a player: the row is stored, or the request conflicts with the
/// owner that exists or with a player that has the identifier or the name.
pub open spec fn create_player(before: Tables, row: PlayerRow) -> Served {
    let done = before.insert_player(row);
    Served { tables: done.tables, reply: created_reply(Entity::Player, player_record(done.result)) }
}

/// Listing the players.
pub open spec fn player_list(before: Tables) -> ReplyView {
    listed_reply(Ok(RecordsView::Players(before.list_players())))
}

/// Getting a player by its identifier.
pub open spec fn get_player(before: Tables, id: u128) -> ReplyView {
    fetched_reply(Entity::Player, Key::Id(id), player_record(before.select_player(id)))
}

/// Deleting a player by its identifier.
pub open spec fn delete_player(before: Tables, id: u128) -> Served {
    let done = before.delete_player(id);
    Served {
        tables: done.tables,
        reply: deleted_reply(Entity::Player, Key::Id(id), player_record(done.result)),
    }
}

/// Changing a player: the row is looked up, the name is replaced and the
/// owner flag where the request provides one, and the result is written back.
pub open spec fn update_player(before: Tables, id: u128, body: PlayerSchema) -> Served {
    match before.select_player(id) {
        Err(kind) => Served {
            tables: before,
            reply: Err(lookup_fault(Entity::Player, Key::Id(id), FaultStatus::Error, raised(kind))),
        },
        Ok(existing) => {
            let merged = body.merged(existing);
            let done = before.update_player(id, merged.name, merged.is_owner);
            Served { tables: done.tables, reply: updated_reply(player_record(done.result)) }
        },
    }
}

// ----- plays -----

/// Creating a play: the row is stored, or the request conflicts with a play
/// that has the identifier, or fails because the game is missing.
pub open spec fn create_play(before: Tables, row: PlayModel) -> Served {
    let done = before.insert_play(row);
    Served { tables: done.tables, reply: created_reply(Entity::Play, play_record(done.result)) }
}

/// Listing the plays.
pub open spec fn play_list(before: Tables) -> ReplyView {
    listed_reply(Ok(RecordsView::Plays(before.list_plays())))
}

/// Getting a play by its identifier.
pub open spec fn get_play(before: Tables, id: u128) -> ReplyView {
    fetched_reply(Entity::Play, Key::Id(id), play_record(before.select_play(id)))
}

/// Deleting a play by its identifier.
pub open spec fn delete_play(before: Tables, id: u128) -> Served {
    let done = before.delete_play(id);
    Served {
        tables: done.tables,
        reply: deleted_reply(Entity::Play, Key::Id(id), play_record(done.result)),
    }
}

/// Changing a play: the row is looked up, its game is replaced, and the
/// result is written back.
pub open spec fn update_play(before: Tables, id: u128, body: PlaySchema) -> Served {
    match before.select_play(id) {
        Err(kind) => Served {
            tables: before,
            reply: Err(lookup_fault(Entity::Play, Key::Id(id), FaultStatus::Error, raised(kind))),
        },
        Ok(existing) => {
            let done = before.update_play(id, body.merged(existing).game_id);
            Served { tables: done.tables, reply: updated_reply(play_record(done.result)) }
        },
    }
}

// ----- participants -----

/// Creating a participant row: the row is stored, or the request conflicts
/// with the same pair, or fails because the play or the player is missing.
pub open spec fn create_play_participant(before: Tables, row: PlayParticipantModel) -> Served {
    let done = before.insert_participant(row);
    Served {
        tables: done.tables,
        reply: created_reply(Entity::PlayParticipant, participant_record(done.result)),
    }
}

/// Listing all participant rows.
pub open spec fn play_participant_list(before: Tables) -> ReplyView {
    listed_reply(Ok(RecordsView::PlayParticipants(before.list_participants())))
}

/// Listing the participant rows of one play.
pub open spec fn get_play_participants(before: Tables, play_id: u128) -> ReplyView {
    listed_reply(Ok(RecordsView::PlayParticipants(before.participants_of(play_id))))
}

/// Deleting a participant row by its key.
pub open spec fn delete_play_participant(before: Tables, key: PlayParticipantModel) -> Served {
    let done = before.delete_participant(key);
    Served {
        tables: done.tables,
        reply: deleted_reply(
            Entity::PlayParticipant,
            pair_key(key),
            participant_record(done.result),
        ),
    }
}

/// Changing a participant row: the row is looked up, the halves of the key
/// that the request provides replace its own, and the result is written back.
pub open spec fn update_play_participant(
    before: Tables,
    key: PlayParticipantModel,
    body: UpdatePlayParticipantSchema,
) -> Served {
    match before.select_participant(key) {
        Err(kind) => Served {
            tables: before,
            reply: Err(
                lookup_fault(Entity::PlayParticipant, pair_key(key), FaultStatus::Error, raised(kind)),
            ),
        },
        Ok(existing) => {
            let done = before.update_participant(key, body.merged(existing));
            Served { tables: done.tables, reply: updated_reply(participant_record(done.result)) }
        },
    }
}

} // verus!
