//! The four tables as mathematical sequences, their integrity rules, and
//! what each statement does to them.
//!
//! Rows stand in the order in which they were stored. A row that another row
//! refers to cannot be deleted: nothing is deleted along with it.

use crate::failure::FailureKind;
use crate::model::{GameModel, GameRow, PlayModel, PlayParticipantModel, PlayerModel, PlayerRow};
use crate::ordering::{listing, ordered};
use vstd::prelude::*;

verus! {

/// Whether one of the games has this identifier.
pub open spec fn game_among(games: Seq<GameRow>, id: u128) -> bool {
    exists|i: int| 0 <= i < games.len() && games[i].id == id
}

/// The position of the game with this identifier, where there is one.
pub open spec fn game_position(games: Seq<GameRow>, id: u128) -> int {
    choose|i: int| 0 <= i < games.len() && games[i].id == id
}

/// Whether one of the games has this name.
pub open spec fn game_name_among(games: Seq<GameRow>, name: Seq<char>) -> bool {
    exists|i: int| 0 <= i < games.len() && games[i].name == name
}

/// Whether one of the games has this name and another identifier.
pub open spec fn game_name_among_others(games: Seq<GameRow>, name: Seq<char>, id: u128) -> bool {
    exists|i: int| 0 <= i < games.len() && games[i].name == name && games[i].id != id
}

/// No two games share an identifier or a name.
pub open spec fn games_distinct(games: Seq<GameRow>) -> bool {
    forall|i: int, j: int|
        0 <= i < games.len() && 0 <= j < games.len() && i != j ==> games[i].id != games[j].id
            && games[i].name != games[j].name
}

/// Whether one of the players has this identifier.
pub open spec fn player_among(players: Seq<PlayerRow>, id: u128) -> bool {
    exists|i: int| 0 <= i < players.len() && players[i].id == id
}

/// The position of the player with this identifier, where there is one.
pub open spec fn player_position(players: Seq<PlayerRow>, id: u128) -> int {
    choose|i: int| 0 <= i < players.len() && players[i].id == id
}

/// Whether one of the players has this name.
pub open spec fn player_name_among(players: Seq<PlayerRow>, name: Seq<char>) -> bool {
    exists|i: int| 0 <= i < players.len() && players[i].name == name
}

/// Whether one of the players has this name and another identifier.
pub open spec fn player_name_among_others(
    players: Seq<PlayerRow>,
    name: Seq<char>,
    id: u128,
) -> bool {
    exists|i: int| 0 <= i < players.len() && players[i].name == name && players[i].id != id
}

/// Whether one of the players is the owner.
pub open spec fn owner_among(players: Seq<PlayerRow>) -> bool {
    exists|i: int| 0 <= i < players.len() && players[i].is_owner
}

/// Whether one of the players is the owner and has another identifier.
pub open spec fn owner_among_others(players: Seq<PlayerRow>, id: u128) -> bool {
    exists|i: int| 0 <= i < players.len() && players[i].is_owner && players[i].id != id
}

/// No two players share an identifier or a name, and at most one is the owner.
pub open spec fn players_distinct(players: Seq<PlayerRow>) -> bool {
    forall|i: int, j: int|
        0 <= i < players.len() && 0 <= j < players.len() && i != j ==> {
            &&& players[i].id != players[j].id
            &&& players[i].name != players[j].name
            &&& !(players[i].is_owner && players[j].is_owner)
        }
}

/// Whether one of the plays has this identifier.
pub open spec fn play_among(plays: Seq<PlayModel>, id: u128) -> bool {
    exists|i: int| 0 <= i < plays.len() && plays[i].id == id
}

/// The position of the play with this identifier, where there is one.
pub open spec fn play_position(plays: Seq<PlayModel>, id: u128) -> int {
    choose|i: int| 0 <= i < plays.len() && plays[i].id == id
}

/// Whether one of the plays is a session of this game.
pub open spec fn session_among(plays: Seq<PlayModel>, game_id: u128) -> bool {
    exists|i: int| 0 <= i < plays.len() && plays[i].game_id == game_id
}

/// No two plays share an identifier.
pub open spec fn plays_distinct(plays: Seq<PlayModel>) -> bool {
    forall|i: int, j: int|
        0 <= i < plays.len() && 0 <= j < plays.len() && i != j ==> plays[i].id != plays[j].id
}

/// Whether one of the participant rows has this key.
pub open spec fn participant_among(
    participants: Seq<PlayParticipantModel>,
    key: PlayParticipantModel,
) -> bool {
    exists|i: int| 0 <= i < participants.len() && participants[i] == key
}

/// The position of the participant row with this key, where there is one.
pub open spec fn participant_position(
    participants: Seq<PlayParticipantModel>,
    key: PlayParticipantModel,
) -> int {
    choose|i: int| 0 <= i < participants.len() && participants[i] == key
}

/// Whether one of the participant rows names this play.
pub open spec fn attendance_among(participants: Seq<PlayParticipantModel>, play_id: u128) -> bool {
    exists|i: int| 0 <= i < participants.len() && participants[i].play_id == play_id
}

/// Whether one of the participant rows names this player.
pub open spec fn part_among(participants: Seq<PlayParticipantModel>, player_id: u128) -> bool {
    exists|i: int| 0 <= i < participants.len() && participants[i].player_id == player_id
}

/// No pair of play and player stands twice.
pub open spec fn participants_distinct(participants: Seq<PlayParticipantModel>) -> bool {
    forall|i: int, j: int|
        0 <= i < participants.len() && 0 <= j < participants.len() && i != j ==> participants[i]
            != participants[j]
}

/// Every play is a session of one of the games.
pub open spec fn plays_refer(plays: Seq<PlayModel>, games: Seq<GameRow>) -> bool {
    forall|i: int| 0 <= i < plays.len() ==> game_among(games, #[trigger] plays[i].game_id)
}

/// Every participant row names one of the plays and one of the players.
pub open spec fn participants_refer(
    participants: Seq<PlayParticipantModel>,
    plays: Seq<PlayModel>,
    players: Seq<PlayerRow>,
) -> bool {
    forall|i: int|
        0 <= i < participants.len() ==> {
            &&& play_among(plays, (#[trigger] participants[i]).play_id)
            &&& player_among(players, participants[i].player_id)
        }
}

/// The rows of one play among the participant rows, in their order.
pub open spec fn rows_of_play(
    participants: Seq<PlayParticipantModel>,
    play_id: u128,
) -> Seq<PlayParticipantModel>
    decreases participants.len(),
{
    if participants.len() == 0 {
        participants
    } else if participants.last().play_id == play_id {
        rows_of_play(participants.drop_last(), play_id).push(participants.last())
    } else {
        rows_of_play(participants.drop_last(), play_id)
    }
}

/// The content of the store.
pub struct Tables {
    /// The time that the store stamps on a row it creates.
    pub now: i64,
    pub games: Seq<GameRow>,
    pub players: Seq<PlayerRow>,
    pub plays: Seq<PlayModel>,
    pub play_participants: Seq<PlayParticipantModel>,
}

/// The tables after a statement, and what the statement gave back.
pub struct Done<R> {
    pub tables: Tables,
    pub result: Result<R, FailureKind>,
}

impl Tables {
    /// Four empty tables, at time zero.
    pub open spec fn empty() -> Tables {
        Tables {
            now: 0,
            games: Seq::empty(),
            players: Seq::empty(),
            plays: Seq::empty(),
            play_participants: Seq::empty(),
        }
    }

    /// A statement that failed with `kind` and changed nothing.
    pub open spec fn refused<R>(self, kind: FailureKind) -> Done<R> {
        Done { tables: self, result: Err(kind) }
    }

    // ----- games -----

    pub open spec fn game_exists(self, id: u128) -> bool {
        game_among(self.games, id)
    }

    /// The position of the game with this identifier, where there is one.
    pub open spec fn game_index(self, id: u128) -> int {
        game_position(self.games, id)
    }

    pub open spec fn game_name_taken(self, name: Seq<char>) -> bool {
        game_name_among(self.games, name)
    }

    /// Whether a game other than the one with this identifier has the name.
    pub open spec fn game_name_taken_besides(self, name: Seq<char>, id: u128) -> bool {
        game_name_among_others(self.games, name, id)
    }

    /// Whether some play is a session of this game.
    pub open spec fn game_played(self, id: u128) -> bool {
        session_among(self.plays, id)
    }

    /// Stores a new game. Its identifier and its name must both be new.
    pub open spec fn insert_game(self, row: GameRow) -> Done<GameRow> {
        if self.game_exists(row.id) || self.game_name_taken(row.name) {
            self.refused(FailureKind::UniqueViolation)
        } else {
            Done { tables: Tables { games: self.games.push(row), ..self }, result: Ok(row) }
        }
    }

    /// Looks a game up by its identifier.
    pub open spec fn select_game(self, id: u128) -> Result<GameRow, FailureKind> {
        if self.game_exists(id) {
            Ok(self.games[self.game_index(id)])
        } else {
            Err(FailureKind::RowNotFound)
        }
    }

    /// Gives the game with this identifier a name and a creator. The name must
    /// not be that of another game.
    pub open spec fn update_game(self, id: u128, name: Seq<char>, creator_name: Seq<char>) -> Done<
        GameRow,
    > {
        if !self.game_exists(id) {
            self.refused(FailureKind::RowNotFound)
        } else if self.game_name_taken_besides(name, id) {
            self.refused(FailureKind::UniqueViolation)
        } else {
            let at = self.game_index(id);
            let row = GameRow { name, creator_name, ..self.games[at] };
            Done { tables: Tables { games: self.games.update(at, row), ..self }, result: Ok(row) }
        }
    }

    /// Removes the game with this identifier, unless a play is a session of it.
    pub open spec fn delete_game(self, id: u128) -> Done<GameRow> {
        if !self.game_exists(id) {
            self.refused(FailureKind::RowNotFound)
        } else if self.game_played(id) {
            self.refused(FailureKind::ForeignKeyViolation)
        } else {
            let at = self.game_index(id);
            Done {
                tables: Tables { games: self.games.remove(at), ..self },
                result: Ok(self.games[at]),
            }
        }
    }

    /// All games, by name.
    pub open spec fn list_games(self) -> Seq<GameRow> {
        ordered(self.games, listing::<GameModel>())
    }

    // ----- players -----

    pub open spec fn player_exists(self, id: u128) -> bool {
        player_among(self.players, id)
    }

    /// The position of the player with this identifier, where there is one.
    pub open spec fn player_index(self, id: u128) -> int {
        player_position(self.players, id)
    }

    pub open spec fn player_name_taken(self, name: Seq<char>) -> bool {
        player_name_among(self.players, name)
    }

    /// Whether a player other than the one with this identifier has the name.
    pub open spec fn player_name_taken_besides(self, name: Seq<char>, id: u128) -> bool {
        player_name_among_others(self.players, name, id)
    }

    pub open spec fn owner_exists(self) -> bool {
        owner_among(self.players)
    }

    /// Whether a player other than the one with this identifier is the owner.
    pub open spec fn owner_exists_besides(self, id: u128) -> bool {
        owner_among_others(self.players, id)
    }

    /// Whether the player took part in some play.
    pub open spec fn player_took_part(self, id: u128) -> bool {
        part_among(self.play_participants, id)
    }

    /// Stores a new player. There may be one owner only, and the identifier
    /// and the name must both be new.
    pub open spec fn insert_player(self, row: PlayerRow) -> Done<PlayerRow> {
        if row.is_owner && self.owner_exists() {
            self.refused(FailureKind::OwnerViolation)
        } else if self.player_exists(row.id) || self.player_name_taken(row.name) {
            self.refused(FailureKind::UniqueViolation)
        } else {
            Done { tables: Tables { players: self.players.push(row), ..self }, result: Ok(row) }
        }
    }

    /// Looks a player up by its identifier.
    pub open spec fn select_player(self, id: u128) -> Result<PlayerRow, FailureKind> {
        if self.player_exists(id) {
            Ok(self.players[self.player_index(id)])
        } else {
            Err(FailureKind::RowNotFound)
        }
    }

    /// Gives the player with this identifier a name and an owner flag. No
    /// other player may be the owner already, or have the name.
    pub open spec fn update_player(self, id: u128, name: Seq<char>, is_owner: bool) -> Done<
        PlayerRow,
    > {
        if !self.player_exists(id) {
            self.refused(FailureKind::RowNotFound)
        } else if is_owner && self.owner_exists_besides(id) {
            self.refused(FailureKind::OwnerViolation)
        } else if self.player_name_taken_besides(name, id) {
            self.refused(FailureKind::UniqueViolation)
        } else {
            let at = self.player_index(id);
            let row = PlayerRow { name, is_owner, ..self.players[at] };
            Done {
                tables: Tables { players: self.players.update(at, row), ..self },
                result: Ok(row),
            }
        }
    }

    /// Removes the player with this identifier, unless it took part in a play.
    pub open spec fn delete_player(self, id: u128) -> Done<PlayerRow> {
        if !self.player_exists(id) {
            self.refused(FailureKind::RowNotFound)
        } else if self.player_took_part(id) {
            self.refused(FailureKind::ForeignKeyViolation)
        } else {
            let at = self.player_index(id);
            Done {
                tables: Tables { players: self.players.remove(at), ..self },
                result: Ok(self.players[at]),
            }
        }
    }

    /// All players, by name.
    pub open spec fn list_players(self) -> Seq<PlayerRow> {
        ordered(self.players, listing::<PlayerModel>())
    }

    // ----- plays -----

    pub open spec fn play_exists(self, id: u128) -> bool {
        play_among(self.plays, id)
    }

    /// The position of the play with this identifier, where there is one.
    pub open spec fn play_index(self, id: u128) -> int {
        play_position(self.plays, id)
    }

    /// Whether some player took part in the play.
    pub open spec fn play_attended(self, id: u128) -> bool {
        attendance_among(self.play_participants, id)
    }

    /// Stores a new play. Its identifier must be new and its game must exist.
    pub open spec fn insert_play(self, row: PlayModel) -> Done<PlayModel> {
        if self.play_exists(row.id) {
            self.refused(FailureKind::UniqueViolation)
        } else if !self.game_exists(row.game_id) {
            self.refused(FailureKind::ForeignKeyViolation)
        } else {
            Done { tables: Tables { plays: self.plays.push(row), ..self }, result: Ok(row) }
        }
    }

    /// Looks a play up by its identifier.
    pub open spec fn select_play(self, id: u128) -> Result<PlayModel, FailureKind> {
        if self.play_exists(id) {
            Ok(self.plays[self.play_index(id)])
        } else {
            Err(FailureKind::RowNotFound)
        }
    }

    /// Makes the play with this identifier a session of another game, which
    /// must exist.
    pub open spec fn update_play(self, id: u128, game_id: u128) -> Done<PlayModel> {
        if !self.play_exists(id) {
            self.refused(FailureKind::RowNotFound)
        } else if !self.game_exists(game_id) {
            self.refused(FailureKind::ForeignKeyViolation)
        } else {
            let at = self.play_index(id);
            let row = PlayModel { game_id, ..self.plays[at] };
            Done { tables: Tables { plays: self.plays.update(at, row), ..self }, result: Ok(row) }
        }
    }

    /// Removes the play with this identifier, unless a player took part in it.
    pub open spec fn delete_play(self, id: u128) -> Done<PlayModel> {
        if !self.play_exists(id) {
            self.refused(FailureKind::RowNotFound)
        } else if self.play_attended(id) {
            self.refused(FailureKind::ForeignKeyViolation)
        } else {
            let at = self.play_index(id);
            Done {
                tables: Tables { plays: self.plays.remove(at), ..self },
                result: Ok(self.plays[at]),
            }
        }
    }

    /// All plays, by the identifier of their game.
    pub open spec fn list_plays(self) -> Seq<PlayModel> {
        ordered(self.plays, listing::<PlayModel>())
    }

    // ----- participants -----

    pub open spec fn participant_exists(self, key: PlayParticipantModel) -> bool {
        participant_among(self.play_participants, key)
    }

    /// The position of the participant row with this key, where there is one.
    pub open spec fn participant_index(self, key: PlayParticipantModel) -> int {
        participant_position(self.play_participants, key)
    }

    /// Stores a new participant row. The pair must be new, and its play and
    /// its player must exist.
    pub open spec fn insert_participant(self, row: PlayParticipantModel) -> Done<
        PlayParticipantModel,
    > {
        if self.participant_exists(row) {
            self.refused(FailureKind::UniqueViolation)
        } else if !self.play_exists(row.play_id) || !self.player_exists(row.player_id) {
            self.refused(FailureKind::ForeignKeyViolation)
        } else {
            Done {
                tables: Tables { play_participants: self.play_participants.push(row), ..self },
                result: Ok(row),
            }
        }
    }

    /// Looks a participant row up by its key.
    pub open spec fn select_participant(self, key: PlayParticipantModel) -> Result<
        PlayParticipantModel,
        FailureKind,
    > {
        if self.participant_exists(key) {
            Ok(key)
        } else {
            Err(FailureKind::RowNotFound)
        }
    }

    /// Moves the participant row with key `key` to the pair `row`. Unless the
    /// pair stays as it is it must be new, and its play and player must exist.
    pub open spec fn update_participant(
        self,
        key: PlayParticipantModel,
        row: PlayParticipantModel,
    ) -> Done<PlayParticipantModel> {
        if !self.participant_exists(key) {
            self.refused(FailureKind::RowNotFound)
        } else if row != key && self.participant_exists(row) {
            self.refused(FailureKind::UniqueViolation)
        } else if !self.play_exists(row.play_id) || !self.player_exists(row.player_id) {
            self.refused(FailureKind::ForeignKeyViolation)
        } else {
            let at = self.participant_index(key);
            Done {
                tables: Tables {
                    play_participants: self.play_participants.update(at, row),
                    ..self
                },
                result: Ok(row),
            }
        }
    }

    /// Removes the participant row with this key.
    pub open spec fn delete_participant(self, key: PlayParticipantModel) -> Done<
        PlayParticipantModel,
    > {
        if !self.participant_exists(key) {
            self.refused(FailureKind::RowNotFound)
        } else {
            let at = self.participant_index(key);
            Done {
                tables: Tables { play_participants: self.play_participants.remove(at), ..self },
                result: Ok(key),
            }
        }
    }

    /// All participant rows, in the order in which they were stored.
    pub open spec fn list_participants(self) -> Seq<PlayParticipantModel> {
        self.play_participants
    }

    /// The participant rows of one play, in the order in which they were stored.
    pub open spec fn participants_of(self, play_id: u128) -> Seq<PlayParticipantModel> {
        rows_of_play(self.play_participants, play_id)
    }

    // ----- integrity -----

    /// The integrity rules of the four tables: identifiers, names and pairs
    /// are unique, at most one player is the owner, and every reference
    /// names a row that exists.
    pub open spec fn wf(self) -> bool {
        &&& games_distinct(self.games)
        &&& players_distinct(self.players)
        &&& plays_distinct(self.plays)
        &&& participants_distinct(self.play_participants)
        &&& plays_refer(self.plays, self.games)
        &&& participants_refer(self.play_participants, self.plays, self.players)
    }
}

} // verus!
