//! The operations on participant rows.

use crate::envelope::{
    created, deleted, found, listed, participant_outcome, reply_view, updated, Entity, Key,
    Records, Reply, StatusCode,
};
use crate::model::PlayParticipantModel;
use crate::schema::{PlayParticipantSchema, UpdatePlayParticipantSchema};
use crate::service::{
    create_play_participant, delete_play_participant, faults_with, get_play_participants,
    play_participant_list, update_play_participant, Served,
};
use crate::state::AppState;
use vstd::prelude::*;

verus! {

/// Records that a player took part in a play. Replies with the new row; with
/// a conflict where the pair is recorded already; with a failure of the store
/// where the play or the player is missing.
pub fn create_play_participant_handler(data: &mut AppState, body: PlayParticipantSchema) -> (reply:
    Reply)
    requires
        old(data).wf(),
    ensures
        final(data).wf(),
        (Served { tables: final(data).db@, reply: reply_view(reply) }) == create_play_participant(
            old(data).db@,
            body.row(),
        ),
        old(data).db@.participant_exists(body.row()) ==> faults_with(
            reply_view(reply),
            StatusCode::Conflict,
        ) && final(data).db@ == old(data).db@,
{
    let stored = data.db.insert_participant(&body);
    created(Entity::PlayParticipant, participant_outcome(stored))
}

/// Lists all participant rows, in the order in which they were recorded.
pub fn play_participant_list_handler(data: &AppState) -> (reply: Reply)
    requires
        data.wf(),
    ensures
        reply_view(reply) == play_participant_list(data.db@),
        reply is Ok,
{
    listed(Ok(Records::PlayParticipants(data.db.list_participants())))
}

/// Lists the participant rows of one play, in the order in which they were
/// recorded.
pub fn get_play_participants_handler(play_id: u128, data: &AppState) -> (reply: Reply)
    requires
        data.wf(),
    ensures
        reply_view(reply) == get_play_participants(data.db@, play_id),
        reply is Ok,
{
    listed(Ok(Records::PlayParticipants(data.db.participants_of(play_id))))
}

/// Deletes the participant row that `path` names, a pair of play and player.
/// Replies with the row that was deleted, or with not found where no row has
/// the key.
pub fn delete_play_participant_handler(path: (u128, u128), data: &mut AppState) -> (reply: Reply)
    requires
        old(data).wf(),
    ensures
        final(data).wf(),
        (Served { tables: final(data).db@, reply: reply_view(reply) }) == delete_play_participant(
            old(data).db@,
            PlayParticipantModel { play_id: path.0, player_id: path.1 },
        ),
        !old(data).db@.participant_exists(
            PlayParticipantModel { play_id: path.0, player_id: path.1 },
        ) ==> faults_with(reply_view(reply), StatusCode::NotFound) && final(data).db@ == old(
            data,
        ).db@,
{
    let key = PlayParticipantModel { play_id: path.0, player_id: path.1 };
    let removed = data.db.delete_participant(key);
    deleted(Entity::PlayParticipant, Key::Pair(path.0, path.1), participant_outcome(removed))
}

/// Changes the participant row that `path` names, a pair of play and player:
/// each half that `body` provides replaces the one in the key. Replies with
/// the row as it stands after the change; with not found where no row has
/// the key; with a failure of the store where the new pair is taken or names
/// a play or player that is missing.
pub fn update_play_participant_handler(
    path: (u128, u128),
    data: &mut AppState,
    body: UpdatePlayParticipantSchema,
) -> (reply: Reply)
    requires
        old(data).wf(),
    ensures
        final(data).wf(),
        (Served { tables: final(data).db@, reply: reply_view(reply) }) == update_play_participant(
            old(data).db@,
            PlayParticipantModel { play_id: path.0, player_id: path.1 },
            body,
        ),
        !old(data).db@.participant_exists(
            PlayParticipantModel { play_id: path.0, player_id: path.1 },
        ) ==> faults_with(reply_view(reply), StatusCode::NotFound) && final(data).db@ == old(
            data,
        ).db@,
{
    let key = PlayParticipantModel { play_id: path.0, player_id: path.1 };
    let looked_up = data.db.select_participant(key);
    let existing = match found(Entity::PlayParticipant, Key::Pair(path.0, path.1), looked_up) {
        Ok(row) => row,
        Err(fault) => {
            return Err(fault);
        },
    };
    let merged = body.apply(&existing);
    let written = data.db.update_participant(key, merged);
    updated(participant_outcome(written))
}

} // verus!
