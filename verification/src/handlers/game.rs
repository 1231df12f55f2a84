//! The operations on games.

use crate::envelope::{
    created, deleted, fetched, found, game_outcome, listed, reply_view, updated, Entity,
    EnvelopeView, Key, RecordView, Records, Reply, StatusCode,
};
use crate::ident::{fresh_id, is_random_id};
use crate::schema::{GameSchema, UpdateGameSchema};
use crate::service::{
    create_game, delete_game, faults_with, game_list, get_game, update_game, Served,
};
use crate::state::AppState;
use vstd::prelude::*;

verus! {

/// Creates a game under the identifier `id`, stamped with the store's time.
/// Replies with the new row, or with a conflict where a game has the
/// identifier or the name already.
pub fn create_game_as(id: u128, data: &mut AppState, body: GameSchema) -> (reply: Reply)
    requires
        old(data).wf(),
    ensures
        final(data).wf(),
        (Served { tables: final(data).db@, reply: reply_view(reply) }) == create_game(
            old(data).db@,
            body.row(id, old(data).db@.now),
        ),
        reply is Ok <==> !old(data).db@.game_exists(id) && !old(data).db@.game_name_taken(
            body.name@,
        ),
        reply is Err ==> faults_with(reply_view(reply), StatusCode::Conflict) && final(data).db@
            == old(data).db@,
{
    let stored = data.db.insert_game(id, &body);
    created(Entity::Game, game_outcome(stored))
}

/// Creates a game under a newly drawn identifier. Whatever identifier is
/// drawn, the reply is the one that [`create_game_as`] gives for it: the new
/// row, whose identifier no earlier game has, or a conflict. A name that is
/// taken always conflicts; into an empty table the game always goes.
pub fn create_game_handler(data: &mut AppState, body: GameSchema) -> (reply: Reply)
    requires
        old(data).wf(),
    ensures
        final(data).wf(),
        exists|id: u128|
            is_random_id(id) && (Served { tables: final(data).db@, reply: reply_view(reply) })
                == #[trigger] create_game(old(data).db@, body.row(id, old(data).db@.now)),
        reply_view(reply) matches Ok(EnvelopeView::Row { record: RecordView::Game(row) }) ==> {
            &&& is_random_id(row.id)
            &&& !old(data).db@.game_exists(row.id)
            &&& row == body.row(row.id, old(data).db@.now)
            &&& final(data).db@.games == old(data).db@.games.push(row)
        },
        old(data).db@.game_name_taken(body.name@) ==> faults_with(
            reply_view(reply),
            StatusCode::Conflict,
        ) && final(data).db@ == old(data).db@,
        old(data).db@.games.len() == 0 ==> reply is Ok,
{
    let id = fresh_id();
    create_game_as(id, data, body)
}

/// Lists the games by name.
pub fn game_list_handler(data: &AppState) -> (reply: Reply)
    requires
        data.wf(),
    ensures
        reply_view(reply) == game_list(data.db@),
        reply is Ok,
{
    listed(Ok(Records::Games(data.db.list_games())))
}

/// Gets the game with this identifier. Replies with the row, or with not
/// found where there is none.
pub fn get_game_handler(game_id: u128, data: &AppState) -> (reply: Reply)
    requires
        data.wf(),
    ensures
        reply_view(reply) == get_game(data.db@, game_id),
        reply is Ok <==> data.db@.game_exists(game_id),
        reply is Err ==> faults_with(reply_view(reply), StatusCode::NotFound),
{
    let looked_up = data.db.select_game(game_id);
    fetched(Entity::Game, Key::Id(game_id), game_outcome(looked_up))
}

/// Deletes the game with this identifier. Replies with the row that was
/// deleted; with not found where there is none; with a failure of the store
/// where a play is a session of the game.
pub fn delete_game_handler(game_id: u128, data: &mut AppState) -> (reply: Reply)
    requires
        old(data).wf(),
    ensures
        final(data).wf(),
        (Served { tables: final(data).db@, reply: reply_view(reply) }) == delete_game(
            old(data).db@,
            game_id,
        ),
        !old(data).db@.game_exists(game_id) ==> faults_with(
            reply_view(reply),
            StatusCode::NotFound,
        ) && final(data).db@ == old(data).db@,
{
    let removed = data.db.delete_game(game_id);
    deleted(Entity::Game, Key::Id(game_id), game_outcome(removed))
}

/// Changes the game with this identifier: each field that `body` provides
/// replaces the one in the row. Replies with the row as it stands after the
/// change; with not found where there is no such game; with a failure of the
/// store where another game has the new name.
pub fn update_game_handler(id: u128, data: &mut AppState, body: UpdateGameSchema) -> (reply: Reply)
    requires
        old(data).wf(),
    ensures
        final(data).wf(),
        (Served { tables: final(data).db@, reply: reply_view(reply) }) == update_game(
            old(data).db@,
            id,
            body,
        ),
        !old(data).db@.game_exists(id) ==> faults_with(reply_view(reply), StatusCode::NotFound)
            && final(data).db@ == old(data).db@,
{
    let looked_up = data.db.select_game(id);
    let existing = match found(Entity::Game, Key::Id(id), looked_up) {
        Ok(row) => row,
        Err(fault) => {
            return Err(fault);
        },
    };
    let merged = body.apply(&existing);
    let written = data.db.update_game(id, &merged.name, &merged.creator_name);
    updated(game_outcome(written))
}

} // verus!
