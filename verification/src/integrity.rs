//! Every statement leaves the integrity rules of the tables in force, and a
//! key finds one row only.

use crate::model::{GameRow, PlayModel, PlayParticipantModel, PlayerRow};
use crate::tables::{
    game_among, game_position, games_distinct, participant_among, participant_position,
    participants_distinct, play_among, play_position, player_among, player_position,
    players_distinct, plays_distinct, Tables,
};
use vstd::prelude::*;

verus! {

/// The game at a position is the one that its identifier finds.
pub proof fn lemma_game_at(games: Seq<GameRow>, at: int)
    requires
        games_distinct(games),
        0 <= at < games.len(),
    ensures
        game_among(games, games[at].id),
        game_position(games, games[at].id) == at,
{
}

/// The player at a position is the one that its identifier finds.
pub proof fn lemma_player_at(players: Seq<PlayerRow>, at: int)
    requires
        players_distinct(players),
        0 <= at < players.len(),
    ensures
        player_among(players, players[at].id),
        player_position(players, players[at].id) == at,
{
}

/// The play at a position is the one that its identifier finds.
pub proof fn lemma_play_at(plays: Seq<PlayModel>, at: int)
    requires
        plays_distinct(plays),
        0 <= at < plays.len(),
    ensures
        play_among(plays, plays[at].id),
        play_position(plays, plays[at].id) == at,
{
}

/// The participant row at a position is the one that its key finds.
pub proof fn lemma_participant_at(participants: Seq<PlayParticipantModel>, at: int)
    requires
        participants_distinct(participants),
        0 <= at < participants.len(),
    ensures
        participant_among(participants, participants[at]),
        participant_position(participants, participants[at]) == at,
{
}

impl Tables {
    /// Storing a game leaves the integrity rules in force.
    pub proof fn lemma_insert_game_keeps_wf(self, row: GameRow)
        requires
            self.wf(),
        ensures
            self.insert_game(row).tables.wf(),
    {
        let after = self.insert_game(row).tables;
        if after != self {
            assert forall|i: int| 0 <= i < after.plays.len() implies game_among(
                after.games,
                #[trigger] after.plays[i].game_id,
            ) by {
                let k = game_position(self.games, self.plays[i].game_id);
                assert(after.games[k] == self.games[k]);
            }
        }
    }

    /// Changing a game leaves the integrity rules in force.
    pub proof fn lemma_update_game_keeps_wf(self, id: u128, name: Seq<char>, creator_name: Seq<char>)
        requires
            self.wf(),
        ensures
            self.update_game(id, name, creator_name).tables.wf(),
    {
        let after = self.update_game(id, name, creator_name).tables;
        if after != self {
            assert forall|i: int| 0 <= i < after.plays.len() implies game_among(
                after.games,
                #[trigger] after.plays[i].game_id,
            ) by {
                let k = game_position(self.games, self.plays[i].game_id);
                assert(after.games[k].id == self.games[k].id);
            }
            assert forall|i: int, j: int|
                0 <= i < after.games.len() && 0 <= j < after.games.len() && i != j implies after.games[i].id
                != after.games[j].id && after.games[i].name != after.games[j].name by {
                assert(self.games[i].id != self.games[j].id);
            }
        }
    }

    /// Deleting a game leaves the integrity rules in force.
    pub proof fn lemma_delete_game_keeps_wf(self, id: u128)
        requires
            self.wf(),
        ensures
            self.delete_game(id).tables.wf(),
    {
        let after = self.delete_game(id).tables;
        if after != self {
            let at = self.game_index(id);
            assert forall|i: int| 0 <= i < after.plays.len() implies game_among(
                after.games,
                #[trigger] after.plays[i].game_id,
            ) by {
                let k = game_position(self.games, self.plays[i].game_id);
                assert(self.games[k].id != id);
                if k < at {
                    assert(after.games[k] == self.games[k]);
                } else {
                    assert(after.games[k - 1] == self.games[k]);
                }
            }
            assert forall|i: int, j: int|
                0 <= i < after.games.len() && 0 <= j < after.games.len() && i != j implies after.games[i].id
                != after.games[j].id && after.games[i].name != after.games[j].name by {
                let i0 = if i < at { i } else { i + 1 };
                let j0 = if j < at { j } else { j + 1 };
                assert(after.games[i] == self.games[i0]);
                assert(after.games[j] == self.games[j0]);
            }
        }
    }

    /// Storing a player leaves the integrity rules in force.
    pub proof fn lemma_insert_player_keeps_wf(self, row: PlayerRow)
        requires
            self.wf(),
        ensures
            self.insert_player(row).tables.wf(),
    {
        let after = self.insert_player(row).tables;
        if after != self {
            assert forall|i: int| 0 <= i < after.play_participants.len() implies {
                &&& play_among(after.plays, (#[trigger] after.play_participants[i]).play_id)
                &&& player_among(after.players, after.play_participants[i].player_id)
            } by {
                let k = player_position(self.players, self.play_participants[i].player_id);
                assert(after.players[k] == self.players[k]);
            }
        }
    }

    /// Changing a player leaves the integrity rules in force.
    pub proof fn lemma_update_player_keeps_wf(self, id: u128, name: Seq<char>, is_owner: bool)
        requires
            self.wf(),
        ensures
            self.update_player(id, name, is_owner).tables.wf(),
    {
        let after = self.update_player(id, name, is_owner).tables;
        if after != self {
            assert forall|i: int| 0 <= i < after.play_participants.len() implies {
                &&& play_among(after.plays, (#[trigger] after.play_participants[i]).play_id)
                &&& player_among(after.players, after.play_participants[i].player_id)
            } by {
                let k = player_position(self.players, self.play_participants[i].player_id);
                assert(after.players[k].id == self.players[k].id);
            }
            assert forall|i: int, j: int|
                0 <= i < after.players.len() && 0 <= j < after.players.len() && i != j implies {
                &&& after.players[i].id != after.players[j].id
                &&& after.players[i].name != after.players[j].name
                &&& !(after.players[i].is_owner && after.players[j].is_owner)
            } by {
                assert(self.players[i].id != self.players[j].id);
            }
        }
    }

    /// Deleting a player leaves the integrity rules in force.
    pub proof fn lemma_delete_player_keeps_wf(self, id: u128)
        requires
            self.wf(),
        ensures
            self.delete_player(id).tables.wf(),
    {
        let after = self.delete_player(id).tables;
        if after != self {
            let at = self.player_index(id);
            assert forall|i: int| 0 <= i < after.play_participants.len() implies {
                &&& play_among(after.plays, (#[trigger] after.play_participants[i]).play_id)
                &&& player_among(after.players, after.play_participants[i].player_id)
            } by {
                let k = player_position(self.players, self.play_participants[i].player_id);
                assert(self.players[k].id != id);
                if k < at {
                    assert(after.players[k] == self.players[k]);
                } else {
                    assert(after.players[k - 1] == self.players[k]);
                }
            }
            assert forall|i: int, j: int|
                0 <= i < after.players.len() && 0 <= j < after.players.len() && i != j implies {
                &&& after.players[i].id != after.players[j].id
                &&& after.players[i].name != after.players[j].name
                &&& !(after.players[i].is_owner && after.players[j].is_owner)
            } by {
                let i0 = if i < at { i } else { i + 1 };
                let j0 = if j < at { j } else { j + 1 };
                assert(after.players[i] == self.players[i0]);
                assert(after.players[j] == self.players[j0]);
            }
        }
    }

    /// Storing a play leaves the integrity rules in force.
    pub proof fn lemma_insert_play_keeps_wf(self, row: PlayModel)
        requires
            self.wf(),
        ensures
            self.insert_play(row).tables.wf(),
    {
        let after = self.insert_play(row).tables;
        if after != self {
            assert forall|i: int| 0 <= i < after.play_participants.len() implies {
                &&& play_among(after.plays, (#[trigger] after.play_participants[i]).play_id)
                &&& player_among(after.players, after.play_participants[i].player_id)
            } by {
                let k = play_position(self.plays, self.play_participants[i].play_id);
                assert(after.plays[k] == self.plays[k]);
            }
        }
    }

    /// Changing a play leaves the integrity rules in force.
    pub proof fn lemma_update_play_keeps_wf(self, id: u128, game_id: u128)
        requires
            self.wf(),
        ensures
            self.update_play(id, game_id).tables.wf(),
    {
        let after = self.update_play(id, game_id).tables;
        if after != self {
            assert forall|i: int| 0 <= i < after.play_participants.len() implies {
                &&& play_among(after.plays, (#[trigger] after.play_participants[i]).play_id)
                &&& player_among(after.players, after.play_participants[i].player_id)
            } by {
                let k = play_position(self.plays, self.play_participants[i].play_id);
                assert(after.plays[k].id == self.plays[k].id);
            }
            assert forall|i: int, j: int|
                0 <= i < after.plays.len() && 0 <= j < after.plays.len() && i != j implies after.plays[i].id
                != after.plays[j].id by {
                assert(self.plays[i].id != self.plays[j].id);
            }
            assert forall|i: int| 0 <= i < after.plays.len() implies game_among(
                after.games,
                #[trigger] after.plays[i].game_id,
            ) by {
                assert(game_among(self.games, self.plays[i].game_id));
            }
        }
    }

    /// Deleting a play leaves the integrity rules in force.
    pub proof fn lemma_delete_play_keeps_wf(self, id: u128)
        requires
            self.wf(),
        ensures
            self.delete_play(id).tables.wf(),
    {
        let after = self.delete_play(id).tables;
        if after != self {
            let at = self.play_index(id);
            assert forall|i: int| 0 <= i < after.play_participants.len() implies {
                &&& play_among(after.plays, (#[trigger] after.play_participants[i]).play_id)
                &&& player_among(after.players, after.play_participants[i].player_id)
            } by {
                let k = play_position(self.plays, self.play_participants[i].play_id);
                assert(self.plays[k].id != id);
                if k < at {
                    assert(after.plays[k] == self.plays[k]);
                } else {
                    assert(after.plays[k - 1] == self.plays[k]);
                }
            }
            assert forall|i: int, j: int|
                0 <= i < after.plays.len() && 0 <= j < after.plays.len() && i != j implies after.plays[i].id
                != after.plays[j].id by {
                let i0 = if i < at { i } else { i + 1 };
                let j0 = if j < at { j } else { j + 1 };
                assert(after.plays[i] == self.plays[i0]);
                assert(after.plays[j] == self.plays[j0]);
            }
            assert forall|i: int| 0 <= i < after.plays.len() implies game_among(
                after.games,
                #[trigger] after.plays[i].game_id,
            ) by {
                let i0 = if i < at { i } else { i + 1 };
                assert(after.plays[i] == self.plays[i0]);
            }
        }
    }

    /// Storing a participant row leaves the integrity rules in force.
    pub proof fn lemma_insert_participant_keeps_wf(self, row: PlayParticipantModel)
        requires
            self.wf(),
        ensures
            self.insert_participant(row).tables.wf(),
    {
    }

    /// Moving a participant row leaves the integrity rules in force.
    pub proof fn lemma_update_participant_keeps_wf(
        self,
        key: PlayParticipantModel,
        row: PlayParticipantModel,
    )
        requires
            self.wf(),
        ensures
            self.update_participant(key, row).tables.wf(),
    {
        let after = self.update_participant(key, row).tables;
        if after != self {
            let at = self.participant_index(key);
            assert forall|i: int, j: int|
                0 <= i < after.play_participants.len() && 0 <= j < after.play_participants.len()
                    && i != j implies after.play_participants[i] != after.play_participants[j] by {
                assert(self.play_participants[i] != self.play_participants[j]);
            }
            assert forall|i: int| 0 <= i < after.play_participants.len() implies {
                &&& play_among(after.plays, (#[trigger] after.play_participants[i]).play_id)
                &&& player_among(after.players, after.play_participants[i].player_id)
            } by {
                if i != at {
                    assert(after.play_participants[i] == self.play_participants[i]);
                }
            }
        }
    }

    /// Deleting a participant row leaves the integrity rules in force.
    pub proof fn lemma_delete_participant_keeps_wf(self, key: PlayParticipantModel)
        requires
            self.wf(),
        ensures
            self.delete_participant(key).tables.wf(),
    {
        let after = self.delete_participant(key).tables;
        if after != self {
            let at = self.participant_index(key);
            assert forall|i: int, j: int|
                0 <= i < after.play_participants.len() && 0 <= j < after.play_participants.len()
                    && i != j implies after.play_participants[i] != after.play_participants[j] by {
                let i0 = if i < at { i } else { i + 1 };
                let j0 = if j < at { j } else { j + 1 };
                assert(after.play_participants[i] == self.play_participants[i0]);
                assert(after.play_participants[j] == self.play_participants[j0]);
            }
            assert forall|i: int| 0 <= i < after.play_participants.len() implies {
                &&& play_among(after.plays, (#[trigger] after.play_participants[i]).play_id)
                &&& player_among(after.players, after.play_participants[i].player_id)
            } by {
                let i0 = if i < at { i } else { i + 1 };
                assert(after.play_participants[i] == self.play_participants[i0]);
            }
        }
    }
}

} // verus!
