//! The operations on plays.

use crate::envelope::{
    created, deleted, fetched, found, listed, play_outcome, reply_view, updated, Entity,
    EnvelopeView, Key, RecordView, Records, Reply, StatusCode,
};
use crate::ident::{fresh_id, is_random_id};
use crate::schema::PlaySchema;
use crate::service::{
    create_play, delete_play, faults_with, get_play, play_list, update_play, Served,
};
use crate::state::AppState;
use vstd::prelude::*;

verus! {

/// Creates a play under the identifier `id`, stamped with the store's time.
/// Replies with the new row; with a conflict where a play has the identifier
/// already; with a failure of the store where the game is missing.
pub fn create_play_as(id: u128, data: &mut AppState, body: PlaySchema) -> (reply: Reply)
    requires
        old(data).wf(),
    ensures
        final(data).wf(),
        (Served { tables: final(data).db@, reply: reply_view(reply) }) == create_play(
            old(data).db@,
            body.row(id, old(data).db@.now),
        ),
        reply is Ok <==> !old(data).db@.play_exists(id) && old(data).db@.game_exists(body.game_id),
        reply is Err ==> final(data).db@ == old(data).db@,
        old(data).db@.play_exists(id) ==> faults_with(reply_view(reply), StatusCode::Conflict),
        !old(data).db@.play_exists(id) && !old(data).db@.game_exists(body.game_id) ==> faults_with(
            reply_view(reply),
            StatusCode::InternalServerError,
        ),
{
    let stored = data.db.insert_play(id, &body);
    created(Entity::Play, play_outcome(stored))
}

/// Creates a play under a newly drawn identifier. Whatever identifier is
/// drawn, the reply is the one that [`create_play_as`] gives for it. A play
/// of a game that is missing always fails and changes nothing; the first play
/// of a game that exists always goes in.
pub fn create_play_handler(data: &mut AppState, body: PlaySchema) -> (reply: Reply)
    requires
        old(data).wf(),
    ensures
        final(data).wf(),
        exists|id: u128|
            is_random_id(id) && (Served { tables: final(data).db@, reply: reply_view(reply) })
                == #[trigger] create_play(old(data).db@, body.row(id, old(data).db@.now)),
        reply_view(reply) matches Ok(EnvelopeView::Row { record: RecordView::Play(row) }) ==> {
            &&& is_random_id(row.id)
            &&& !old(data).db@.play_exists(row.id)
            &&& row == body.row(row.id, old(data).db@.now)
            &&& final(data).db@.plays == old(data).db@.plays.push(row)
        },
        !old(data).db@.game_exists(body.game_id) ==> reply is Err && final(data).db@ == old(
            data,
        ).db@,
        old(data).db@.game_exists(body.game_id) && old(data).db@.plays.len() == 0 ==> reply is Ok,
{
    let id = fresh_id();
    create_play_as(id, data, body)
}

/// Lists the plays by the identifier of their game.
pub fn play_list_handler(data: &AppState) -> (reply: Reply)
    requires
        data.wf(),
    ensures
        reply_view(reply) == play_list(data.db@),
        reply is Ok,
{
    listed(Ok(Records::Plays(data.db.list_plays())))
}

/// Gets the play with this identifier. Replies with the row, or with not
/// found where there is none.
pub fn get_play_handler(play_id: u128, data: &AppState) -> (reply: Reply)
    requires
        data.wf(),
    ensures
        reply_view(reply) == get_play(data.db@, play_id),
        reply is Ok <==> data.db@.play_exists(play_id),
        reply is Err ==> faults_with(reply_view(reply), StatusCode::NotFound),
{
    let looked_up = data.db.select_play(play_id);
    fetched(Entity::Play, Key::Id(play_id), play_outcome(looked_up))
}

/// Deletes the play with this identifier. Replies with the row that was
/// deleted; with not found where there is none; with a failure of the store,
/// and nothing deleted, where a player took part in the play.
pub fn delete_play_handler(play_id: u128, data: &mut AppState) -> (reply: Reply)
    requires
        old(data).wf(),
    ensures
        final(data).wf(),
        (Served { tables: final(data).db@, reply: reply_view(reply) }) == delete_play(
            old(data).db@,
            play_id,
        ),
        !old(data).db@.play_exists(play_id) ==> faults_with(
            reply_view(reply),
            StatusCode::NotFound,
        ) && final(data).db@ == old(data).db@,
        old(data).db@.play_exists(play_id) && old(data).db@.play_attended(play_id) ==> faults_with(
            reply_view(reply),
            StatusCode::InternalServerError,
        ) && final(data).db@ == old(data).db@,
{
    let removed = data.db.delete_play(play_id);
    deleted(Entity::Play, Key::Id(play_id), play_outcome(removed))
}

/// Changes the play with this identifier: its game is replaced. Replies with
/// the row as it stands after the change; with not found where there is no
/// such play; with a failure of the store where the game is missing.
pub fn update_play_handler(id: u128, data: &mut AppState, body: PlaySchema) -> (reply: Reply)
    requires
        old(data).wf(),
    ensures
        final(data).wf(),
        (Served { tables: final(data).db@, reply: reply_view(reply) }) == update_play(
            old(data).db@,
            id,
            body,
        ),
        !old(data).db@.play_exists(id) ==> faults_with(reply_view(reply), StatusCode::NotFound)
            && final(data).db@ == old(data).db@,
{
    let looked_up = data.db.select_play(id);
    let existing = match found(Entity::Play, Key::Id(id), looked_up) {
        Ok(row) => row,
        Err(fault) => {
            return Err(fault);
        },
    };
    let merged = body.apply(&existing);
    let written = data.db.update_play(id, merged.game_id);
    updated(play_outcome(written))
}

} // verus!
