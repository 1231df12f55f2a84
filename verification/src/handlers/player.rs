//! The operations on players.

use crate::envelope::{
    created, deleted, fetched, found, listed, player_outcome, reply_view, updated, Entity,
    EnvelopeView, Key, RecordView, Records, Reply, StatusCode,
};
use crate::ident::{fresh_id, is_random_id};
use crate::schema::{provided_or, PlayerSchema};
use crate::service::{
    create_player, delete_player, faults_with, get_player, player_list, update_player, Served,
};
use crate::state::AppState;
use vstd::prelude::*;

verus! {

/// Creates a player under the identifier `id`, stamped with the store's
/// time. Replies with the new row, or with a conflict: that of the single
/// owner where the player is to be the owner and there is one already, and
/// otherwise that of a player who has the identifier or the name already.
pub fn create_player_as(id: u128, data: &mut AppState, body: PlayerSchema) -> (reply: Reply)
    requires
        old(data).wf(),
    ensures
        final(data).wf(),
        (Served { tables: final(data).db@, reply: reply_view(reply) }) == create_player(
            old(data).db@,
            body.row(id, old(data).db@.now),
        ),
        reply is Ok <==> !(provided_or(body.is_owner, false) && old(data).db@.owner_exists())
            && !old(data).db@.player_exists(id) && !old(data).db@.player_name_taken(body.name@),
        reply is Err ==> faults_with(reply_view(reply), StatusCode::Conflict) && final(data).db@
            == old(data).db@,
{
    let stored = data.db.insert_player(id, &body);
    created(Entity::Player, player_outcome(stored))
}

/// Creates a player under a newly drawn identifier. Whatever identifier is
/// drawn, the reply is the one that [`create_player_as`] gives for it: the new
/// row, whose identifier no earlier player has, or a conflict. A second owner
/// and a name that is taken always conflict; into an empty table the player
/// always goes.
pub fn create_player_handler(data: &mut AppState, body: PlayerSchema) -> (reply: Reply)
    requires
        old(data).wf(),
    ensures
        final(data).wf(),
        exists|id: u128|
            is_random_id(id) && (Served { tables: final(data).db@, reply: reply_view(reply) })
                == #[trigger] create_player(old(data).db@, body.row(id, old(data).db@.now)),
        reply_view(reply) matches Ok(EnvelopeView::Row { record: RecordView::Player(row) }) ==> {
            &&& is_random_id(row.id)
            &&& !old(data).db@.player_exists(row.id)
            &&& row == body.row(row.id, old(data).db@.now)
            &&& final(data).db@.players == old(data).db@.players.push(row)
        },
        (provided_or(body.is_owner, false) && old(data).db@.owner_exists()) || old(
            data,
        ).db@.player_name_taken(body.name@) ==> faults_with(
            reply_view(reply),
            StatusCode::Conflict,
        ) && final(data).db@ == old(data).db@,
        old(data).db@.players.len() == 0 ==> reply is Ok,
{
    let id = fresh_id();
    create_player_as(id, data, body)
}

/// Lists the players by name.
pub fn player_list_handler(data: &AppState) -> (reply: Reply)
    requires
        data.wf(),
    ensures
        reply_view(reply) == player_list(data.db@),
        reply is Ok,
{
    listed(Ok(Records::Players(data.db.list_players())))
}

/// Gets the player with this identifier. Replies with the row, or with not
/// found where there is none.
pub fn get_player_handler(player_id: u128, data: &AppState) -> (reply: Reply)
    requires
        data.wf(),
    ensures
        reply_view(reply) == get_player(data.db@, player_id),
        reply is Ok <==> data.db@.player_exists(player_id),
        reply is Err ==> faults_with(reply_view(reply), StatusCode::NotFound),
{
    let looked_up = data.db.select_player(player_id);
    fetched(Entity::Player, Key::Id(player_id), player_outcome(looked_up))
}

/// Deletes the player with this identifier. Replies with the row that was
/// deleted; with not found where there is none; with a failure of the store
/// where the player took part in a play.
pub fn delete_player_handler(player_id: u128, data: &mut AppState) -> (reply: Reply)
    requires
        old(data).wf(),
    ensures
        final(data).wf(),
        (Served { tables: final(data).db@, reply: reply_view(reply) }) == delete_player(
            old(data).db@,
            player_id,
        ),
        !old(data).db@.player_exists(player_id) ==> faults_with(
            reply_view(reply),
            StatusCode::NotFound,
        ) && final(data).db@ == old(data).db@,
{
    let removed = data.db.delete_player(player_id);
    deleted(Entity::Player, Key::Id(player_id), player_outcome(removed))
}

/// Changes the player with this identifier: the name is replaced, and the
/// owner flag where `body` provides one. Replies with the row as it stands
/// after the change; with not found where there is no such player; with a
/// failure of the store where another player is the owner or has the name.
pub fn update_player_handler(id: u128, data: &mut AppState, body: PlayerSchema) -> (reply: Reply)
    requires
        old(data).wf(),
    ensures
        final(data).wf(),
        (Served { tables: final(data).db@, reply: reply_view(reply) }) == update_player(
            old(data).db@,
            id,
            body,
        ),
        !old(data).db@.player_exists(id) ==> faults_with(reply_view(reply), StatusCode::NotFound)
            && final(data).db@ == old(data).db@,
{
    let looked_up = data.db.select_player(id);
    let existing = match found(Entity::Player, Key::Id(id), looked_up) {
        Ok(row) => row,
        Err(fault) => {
            return Err(fault);
        },
    };
    let merged = body.apply(&existing);
    let written = data.db.update_player(id, &merged.name, merged.is_owner);
    updated(player_outcome(written))
}

} // verus!
