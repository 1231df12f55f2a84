//! The store: four tables in memory that keep their integrity rules.

use crate::failure::{diagnostic, FailureKind, StoreFailure};
use crate::integrity::{lemma_game_at, lemma_participant_at, lemma_play_at, lemma_player_at};
use crate::model::{GameModel, PlayModel, PlayParticipantModel, PlayerModel};
use crate::ordering::{list_in_order, views};
use crate::schema::{GameSchema, PlayParticipantSchema, PlaySchema, PlayerSchema};
use crate::tables::{
    attendance_among, game_among, game_name_among, game_name_among_others, owner_among,
    owner_among_others, part_among, participant_among, play_among, player_among,
    player_name_among, player_name_among_others, rows_of_play, session_among, Done, Tables,
};
use vstd::prelude::*;

verus! {

/// What a statement gave back, with the row as its view and the failure as
/// its kind.
pub open spec fn outcome<M: View>(result: Result<M, StoreFailure>) -> Result<M::V, FailureKind> {
    match result {
        Ok(row) => Ok(row@),
        Err(failure) => Err(failure.kind),
    }
}

/// A failure, if there is one, carries the tables' own diagnostic text.
pub open spec fn plain<M>(result: Result<M, StoreFailure>) -> bool {
    result matches Err(failure) ==> failure.detail@ == diagnostic(failure.kind)
}

/// The position of the game with this identifier.
fn game_slot(games: &Vec<GameModel>, id: u128) -> (at: Option<usize>)
    ensures
        match at {
            Some(i) => i < games.len() && views(games@)[i as int].id == id,
            None => !game_among(views(games@), id),
        },
{
    let mut i: usize = 0;
    while i < games.len()
        invariant
            i <= games.len(),
            forall|k: int| 0 <= k < i ==> games[k].id != id,
        decreases games.len() - i,
    {
        if games[i].id == id {
            assert(views(games@)[i as int] == games[i as int]@);
            return Some(i);
        }
        i = i + 1;
    }
    assert forall|k: int| 0 <= k < views(games@).len() implies views(games@)[k].id != id by {
        assert(views(games@)[k] == games[k]@);
    }
    None
}

/// Whether a game has this name; with `besides`, whether one with another
/// identifier has it.
fn game_name_used(games: &Vec<GameModel>, name: &String, besides: Option<u128>) -> (used: bool)
    ensures
        used == match besides {
            Some(id) => game_name_among_others(views(games@), name@, id),
            None => game_name_among(views(games@), name@),
        },
{
    let mut i: usize = 0;
    while i < games.len()
        invariant
            i <= games.len(),
            forall|k: int|
                0 <= k < i ==> games[k].name@ != name@ || (besides is Some && games[k].id
                    == besides->0),
        decreases games.len() - i,
    {
        let spared = match besides {
            Some(id) => games[i].id == id,
            None => false,
        };
        if games[i].name == *name && !spared {
            assert(views(games@)[i as int] == games[i as int]@);
            return true;
        }
        i = i + 1;
    }
    assert forall|k: int| 0 <= k < views(games@).len() implies views(games@)[k].name != name@ || (
    besides is Some && views(games@)[k].id == besides->0) by {
        assert(views(games@)[k] == games[k]@);
    }
    false
}

/// Whether a play is a session of this game.
fn session_present(plays: &Vec<PlayModel>, game_id: u128) -> (present: bool)
    ensures
        present == session_among(plays@, game_id),
{
    let mut i: usize = 0;
    while i < plays.len()
        invariant
            i <= plays.len(),
            forall|k: int| 0 <= k < i ==> plays[k].game_id != game_id,
        decreases plays.len() - i,
    {
        if plays[i].game_id == game_id {
            return true;
        }
        i = i + 1;
    }
    false
}

/// The position of the player with this identifier.
fn player_slot(players: &Vec<PlayerModel>, id: u128) -> (at: Option<usize>)
    ensures
        match at {
            Some(i) => i < players.len() && views(players@)[i as int].id == id,
            None => !player_among(views(players@), id),
        },
{
    let mut i: usize = 0;
    while i < players.len()
        invariant
            i <= players.len(),
            forall|k: int| 0 <= k < i ==> players[k].id != id,
        decreases players.len() - i,
    {
        if players[i].id == id {
            assert(views(players@)[i as int] == players[i as int]@);
            return Some(i);
        }
        i = i + 1;
    }
    assert forall|k: int| 0 <= k < views(players@).len() implies views(players@)[k].id != id by {
        assert(views(players@)[k] == players[k]@);
    }
    None
}

/// Whether a player has this name; with `besides`, whether one with another
/// identifier has it.
fn player_name_used(players: &Vec<PlayerModel>, name: &String, besides: Option<u128>) -> (used:
    bool)
    ensures
        used == match besides {
            Some(id) => player_name_among_others(views(players@), name@, id),
            None => player_name_among(views(players@), name@),
        },
{
    let mut i: usize = 0;
    while i < players.len()
        invariant
            i <= players.len(),
            forall|k: int|
                0 <= k < i ==> players[k].name@ != name@ || (besides is Some && players[k].id
                    == besides->0),
        decreases players.len() - i,
    {
        let spared = match besides {
            Some(id) => players[i].id == id,
            None => false,
        };
        if players[i].name == *name && !spared {
            assert(views(players@)[i as int] == players[i as int]@);
            return true;
        }
        i = i + 1;
    }
    assert forall|k: int| 0 <= k < views(players@).len() implies views(players@)[k].name != name@
        || (besides is Some && views(players@)[k].id == besides->0) by {
        assert(views(players@)[k] == players[k]@);
    }
    false
}

/// Whether a player is the owner; with `besides`, whether one with another
/// identifier is.
fn owner_present(players: &Vec<PlayerModel>, besides: Option<u128>) -> (present: bool)
    ensures
        present == match besides {
            Some(id) => owner_among_others(views(players@), id),
            None => owner_among(views(players@)),
        },
{
    let mut i: usize = 0;
    while i < players.len()
        invariant
            i <= players.len(),
            forall|k: int|
                0 <= k < i ==> !players[k].is_owner || (besides is Some && players[k].id
                    == besides->0),
        decreases players.len() - i,
    {
        let spared = match besides {
            Some(id) => players[i].id == id,
            None => false,
        };
        if players[i].is_owner && !spared {
            assert(views(players@)[i as int] == players[i as int]@);
            return true;
        }
        i = i + 1;
    }
    assert forall|k: int| 0 <= k < views(players@).len() implies !views(players@)[k].is_owner || (
    besides is Some && views(players@)[k].id == besides->0) by {
        assert(views(players@)[k] == players[k]@);
    }
    false
}

/// The position of the play with this identifier.
fn play_slot(plays: &Vec<PlayModel>, id: u128) -> (at: Option<usize>)
    ensures
        match at {
            Some(i) => i < plays.len() && plays[i as int].id == id,
            None => !play_among(plays@, id),
        },
{
    let mut i: usize = 0;
    while i < plays.len()
        invariant
            i <= plays.len(),
            forall|k: int| 0 <= k < i ==> plays[k].id != id,
        decreases plays.len() - i,
    {
        if plays[i].id == id {
            return Some(i);
        }
        i = i + 1;
    }
    None
}

/// The position of the participant row with this key.
fn participant_slot(participants: &Vec<PlayParticipantModel>, key: PlayParticipantModel) -> (at:
    Option<usize>)
    ensures
        match at {
            Some(i) => i < participants.len() && participants[i as int] == key,
            None => !participant_among(participants@, key),
        },
{
    let mut i: usize = 0;
    while i < participants.len()
        invariant
            i <= participants.len(),
            forall|k: int| 0 <= k < i ==> participants[k] != key,
        decreases participants.len() - i,
    {
        if participants[i].play_id == key.play_id && participants[i].player_id == key.player_id {
            return Some(i);
        }
        i = i + 1;
    }
    None
}

/// Whether a participant row names this play.
fn attendance_present(participants: &Vec<PlayParticipantModel>, play_id: u128) -> (present: bool)
    ensures
        present == attendance_among(participants@, play_id),
{
    let mut i: usize = 0;
    while i < participants.len()
        invariant
            i <= participants.len(),
            forall|k: int| 0 <= k < i ==> participants[k].play_id != play_id,
        decreases participants.len() - i,
    {
        if participants[i].play_id == play_id {
            return true;
        }
        i = i + 1;
    }
    false
}

/// Whether a participant row names this player.
fn part_present(participants: &Vec<PlayParticipantModel>, player_id: u128) -> (present: bool)
    ensures
        present == part_among(participants@, player_id),
{
    let mut i: usize = 0;
    while i < participants.len()
        invariant
            i <= participants.len(),
            forall|k: int| 0 <= k < i ==> participants[k].player_id != player_id,
        decreases participants.len() - i,
    {
        if participants[i].player_id == player_id {
            return true;
        }
        i = i + 1;
    }
    false
}

/// The four tables.
pub struct Store {
    now: i64,
    games: Vec<GameModel>,
    players: Vec<PlayerModel>,
    plays: Vec<PlayModel>,
    play_participants: Vec<PlayParticipantModel>,
}

impl View for Store {
    type V = Tables;

    closed spec fn view(&self) -> Tables {
        Tables {
            now: self.now,
            games: views(self.games@),
            players: views(self.players@),
            plays: self.plays@,
            play_participants: self.play_participants@,
        }
    }
}

impl Store {
    /// The integrity rules hold of the content.
    pub open spec fn wf(&self) -> bool {
        self@.wf()
    }

    /// An empty store, at time zero.
    pub fn new() -> (store: Store)
        ensures
            store@ == Tables::empty(),
            store.wf(),
    {
        let store = Store {
            now: 0,
            games: Vec::new(),
            players: Vec::new(),
            plays: Vec::new(),
            play_participants: Vec::new(),
        };
        assert(store@.games =~= Seq::empty());
        assert(store@.players =~= Seq::empty());
        store
    }

    /// The time that the store stamps on a row it creates.
    pub fn now(&self) -> (now: i64)
        ensures
            now == self@.now,
    {
        self.now
    }

    /// Tells the store the time.
    pub fn set_time(&mut self, now: i64)
        ensures
            final(self)@ == (Tables { now, ..old(self)@ }),
    {
        self.now = now;
    }

    /// Stores a new game under `id`, stamped with the store's time.
    pub fn insert_game(&mut self, id: u128, input: &GameSchema) -> (result: Result<
        GameModel,
        StoreFailure,
    >)
        requires
            old(self).wf(),
        ensures
            final(self).wf(),
            (Done { tables: final(self)@, result: outcome(result) }) == old(self)@.insert_game(
                input.row(id, old(self)@.now),
            ),
            plain(result),
    {
        proof {
            self@.lemma_insert_game_keeps_wf(input.row(id, self@.now));
        }
        if game_slot(&self.games, id).is_some() || game_name_used(&self.games, &input.name, None) {
            return Err(StoreFailure::raise(FailureKind::UniqueViolation));
        }
        let row = GameModel {
            id,
            name: input.name.clone(),
            creator_name: input.creator_name.clone(),
            created_at: self.now,
        };
        let copy = row.clone();
        self.games.push(row);
        assert(views(self.games@) =~= views(old(self).games@).push(copy@));
        Ok(copy)
    }

    /// Looks a game up by its identifier.
    pub fn select_game(&self, id: u128) -> (result: Result<GameModel, StoreFailure>)
        requires
            self.wf(),
        ensures
            outcome(result) == self@.select_game(id),
            plain(result),
    {
        match game_slot(&self.games, id) {
            None => Err(StoreFailure::raise(FailureKind::RowNotFound)),
            Some(at) => {
                proof {
                    lemma_game_at(views(self.games@), at as int);
                }
                Ok(self.games[at].clone())
            },
        }
    }

    /// Gives the game with this identifier a name and a creator.
    pub fn update_game(&mut self, id: u128, name: &String, creator_name: &String) -> (result:
        Result<GameModel, StoreFailure>)
        requires
            old(self).wf(),
        ensures
            final(self).wf(),
            (Done { tables: final(self)@, result: outcome(result) }) == old(self)@.update_game(
                id,
                name@,
                creator_name@,
            ),
            plain(result),
    {
        proof {
            self@.lemma_update_game_keeps_wf(id, name@, creator_name@);
        }
        match game_slot(&self.games, id) {
            None => Err(StoreFailure::raise(FailureKind::RowNotFound)),
            Some(at) => {
                if game_name_used(&self.games, name, Some(id)) {
                    return Err(StoreFailure::raise(FailureKind::UniqueViolation));
                }
                proof {
                    lemma_game_at(views(self.games@), at as int);
                }
                let row = GameModel {
                    id: self.games[at].id,
                    name: name.clone(),
                    creator_name: creator_name.clone(),
                    created_at: self.games[at].created_at,
                };
                let copy = row.clone();
                self.games[at] = row;
                assert(views(self.games@) =~= views(old(self).games@).update(at as int, copy@));
                Ok(copy)
            },
        }
    }

    /// Removes the game with this identifier, unless a play is a session of it.
    pub fn delete_game(&mut self, id: u128) -> (result: Result<GameModel, StoreFailure>)
        requires
            old(self).wf(),
        ensures
            final(self).wf(),
            (Done { tables: final(self)@, result: outcome(result) }) == old(self)@.delete_game(id),
            plain(result),
    {
        proof {
            self@.lemma_delete_game_keeps_wf(id);
        }
        match game_slot(&self.games, id) {
            None => Err(StoreFailure::raise(FailureKind::RowNotFound)),
            Some(at) => {
                if session_present(&self.plays, id) {
                    return Err(StoreFailure::raise(FailureKind::ForeignKeyViolation));
                }
                proof {
                    lemma_game_at(views(self.games@), at as int);
                }
                let row = self.games.remove(at);
                assert(views(self.games@) =~= views(old(self).games@).remove(at as int));
                Ok(row)
            },
        }
    }

    /// All games, by name.
    pub fn list_games(&self) -> (rows: Vec<GameModel>)
        ensures
            views(rows@) == self@.list_games(),
    {
        list_in_order(&self.games)
    }

    /// Stores a new player under `id`, stamped with the store's time.
    pub fn insert_player(&mut self, id: u128, input: &PlayerSchema) -> (result: Result<
        PlayerModel,
        StoreFailure,
    >)
        requires
            old(self).wf(),
        ensures
            final(self).wf(),
            (Done { tables: final(self)@, result: outcome(result) }) == old(self)@.insert_player(
                input.row(id, old(self)@.now),
            ),
            plain(result),
    {
        proof {
            self@.lemma_insert_player_keeps_wf(input.row(id, self@.now));
        }
        let is_owner = input.owner_flag();
        if is_owner && owner_present(&self.players, None) {
            return Err(StoreFailure::raise(FailureKind::OwnerViolation));
        }
        if player_slot(&self.players, id).is_some() || player_name_used(
            &self.players,
            &input.name,
            None,
        ) {
            return Err(StoreFailure::raise(FailureKind::UniqueViolation));
        }
        let row = PlayerModel { id, name: input.name.clone(), is_owner, created_at: self.now };
        let copy = row.clone();
        self.players.push(row);
        assert(views(self.players@) =~= views(old(self).players@).push(copy@));
        Ok(copy)
    }

    /// Looks a player up by its identifier.
    pub fn select_player(&self, id: u128) -> (result: Result<PlayerModel, StoreFailure>)
        requires
            self.wf(),
        ensures
            outcome(result) == self@.select_player(id),
            plain(result),
    {
        match player_slot(&self.players, id) {
            None => Err(StoreFailure::raise(FailureKind::RowNotFound)),
            Some(at) => {
                proof {
                    lemma_player_at(views(self.players@), at as int);
                }
                Ok(self.players[at].clone())
            },
        }
    }

    /// Gives the player with this identifier a name and an owner flag.
    pub fn update_player(&mut self, id: u128, name: &String, is_owner: bool) -> (result: Result<
        PlayerModel,
        StoreFailure,
    >)
        requires
            old(self).wf(),
        ensures
            final(self).wf(),
            (Done { tables: final(self)@, result: outcome(result) }) == old(self)@.update_player(
                id,
                name@,
                is_owner,
            ),
            plain(result),
    {
        proof {
            self@.lemma_update_player_keeps_wf(id, name@, is_owner);
        }
        match player_slot(&self.players, id) {
            None => Err(StoreFailure::raise(FailureKind::RowNotFound)),
            Some(at) => {
                if is_owner && owner_present(&self.players, Some(id)) {
                    return Err(StoreFailure::raise(FailureKind::OwnerViolation));
                }
                if player_name_used(&self.players, name, Some(id)) {
                    return Err(StoreFailure::raise(FailureKind::UniqueViolation));
                }
                proof {
                    lemma_player_at(views(self.players@), at as int);
                }
                let row = PlayerModel {
                    id: self.players[at].id,
                    name: name.clone(),
                    is_owner,
                    created_at: self.players[at].created_at,
                };
                let copy = row.clone();
                self.players[at] = row;
                assert(views(self.players@) =~= views(old(self).players@).update(
                    at as int,
                    copy@,
                ));
                Ok(copy)
            },
        }
    }

    /// Removes the player with this identifier, unless it took part in a play.
    pub fn delete_player(&mut self, id: u128) -> (result: Result<PlayerModel, StoreFailure>)
        requires
            old(self).wf(),
        ensures
            final(self).wf(),
            (Done { tables: final(self)@, result: outcome(result) }) == old(self)@.delete_player(
                id,
            ),
            plain(result),
    {
        proof {
            self@.lemma_delete_player_keeps_wf(id);
        }
        match player_slot(&self.players, id) {
            None => Err(StoreFailure::raise(FailureKind::RowNotFound)),
            Some(at) => {
                if part_present(&self.play_participants, id) {
                    return Err(StoreFailure::raise(FailureKind::ForeignKeyViolation));
                }
                proof {
                    lemma_player_at(views(self.players@), at as int);
                }
                let row = self.players.remove(at);
                assert(views(self.players@) =~= views(old(self).players@).remove(at as int));
                Ok(row)
            },
        }
    }

    /// All players, by name.
    pub fn list_players(&self) -> (rows: Vec<PlayerModel>)
        ensures
            views(rows@) == self@.list_players(),
    {
        list_in_order(&self.players)
    }

    /// Stores a new play under `id`, stamped with the store's time.
    pub fn insert_play(&mut self, id: u128, input: &PlaySchema) -> (result: Result<
        PlayModel,
        StoreFailure,
    >)
        requires
            old(self).wf(),
        ensures
            final(self).wf(),
            (Done { tables: final(self)@, result: outcome(result) }) == old(self)@.insert_play(
                input.row(id, old(self)@.now),
            ),
            plain(result),
    {
        proof {
            self@.lemma_insert_play_keeps_wf(input.row(id, self@.now));
        }
        if play_slot(&self.plays, id).is_some() {
            return Err(StoreFailure::raise(FailureKind::UniqueViolation));
        }
        if game_slot(&self.games, input.game_id).is_none() {
            return Err(StoreFailure::raise(FailureKind::ForeignKeyViolation));
        }
        let row = PlayModel { id, game_id: input.game_id, created_at: self.now };
        self.plays.push(row);
        Ok(row)
    }

    /// Looks a play up by its identifier.
    pub fn select_play(&self, id: u128) -> (result: Result<PlayModel, StoreFailure>)
        requires
            self.wf(),
        ensures
            outcome(result) == self@.select_play(id),
            plain(result),
    {
        match play_slot(&self.plays, id) {
            None => Err(StoreFailure::raise(FailureKind::RowNotFound)),
            Some(at) => {
                proof {
                    lemma_play_at(self.plays@, at as int);
                }
                Ok(self.plays[at])
            },
        }
    }

    /// Makes the play with this identifier a session of another game.
    pub fn update_play(&mut self, id: u128, game_id: u128) -> (result: Result<
        PlayModel,
        StoreFailure,
    >)
        requires
            old(self).wf(),
        ensures
            final(self).wf(),
            (Done { tables: final(self)@, result: outcome(result) }) == old(self)@.update_play(
                id,
                game_id,
            ),
            plain(result),
    {
        proof {
            self@.lemma_update_play_keeps_wf(id, game_id);
        }
        match play_slot(&self.plays, id) {
            None => Err(StoreFailure::raise(FailureKind::RowNotFound)),
            Some(at) => {
                if game_slot(&self.games, game_id).is_none() {
                    return Err(StoreFailure::raise(FailureKind::ForeignKeyViolation));
                }
                proof {
                    lemma_play_at(self.plays@, at as int);
                }
                let row = PlayModel {
                    id: self.plays[at].id,
                    game_id,
                    created_at: self.plays[at].created_at,
                };
                self.plays[at] = row;
                Ok(row)
            },
        }
    }

    /// Removes the play with this identifier, unless a player took part in it.
    pub fn delete_play(&mut self, id: u128) -> (result: Result<PlayModel, StoreFailure>)
        requires
            old(self).wf(),
        ensures
            final(self).wf(),
            (Done { tables: final(self)@, result: outcome(result) }) == old(self)@.delete_play(id),
            plain(result),
    {
        proof {
            self@.lemma_delete_play_keeps_wf(id);
        }
        match play_slot(&self.plays, id) {
            None => Err(StoreFailure::raise(FailureKind::RowNotFound)),
            Some(at) => {
                if attendance_present(&self.play_participants, id) {
                    return Err(StoreFailure::raise(FailureKind::ForeignKeyViolation));
                }
                proof {
                    lemma_play_at(self.plays@, at as int);
                }
                let row = self.plays.remove(at);
                Ok(row)
            },
        }
    }

    /// All plays, by the identifier of their game.
    pub fn list_plays(&self) -> (rows: Vec<PlayModel>)
        ensures
            rows@ == self@.list_plays(),
    {
        let rows = list_in_order(&self.plays);
        assert(views(rows@) =~= rows@);
        assert(views(self.plays@) =~= self.plays@);
        rows
    }

    /// Stores a new participant row.
    pub fn insert_participant(&mut self, input: &PlayParticipantSchema) -> (result: Result<
        PlayParticipantModel,
        StoreFailure,
    >)
        requires
            old(self).wf(),
        ensures
            final(self).wf(),
            (Done { tables: final(self)@, result: outcome(result) })
                == old(self)@.insert_participant(input.row()),
            plain(result),
    {
        proof {
            self@.lemma_insert_participant_keeps_wf(input.row());
        }
        let row = PlayParticipantModel { play_id: input.play_id, player_id: input.player_id };
        if participant_slot(&self.play_participants, row).is_some() {
            return Err(StoreFailure::raise(FailureKind::UniqueViolation));
        }
        if play_slot(&self.plays, row.play_id).is_none() || player_slot(
            &self.players,
            row.player_id,
        ).is_none() {
            return Err(StoreFailure::raise(FailureKind::ForeignKeyViolation));
        }
        self.play_participants.push(row);
        Ok(row)
    }

    /// Looks a participant row up by its key.
    pub fn select_participant(&self, key: PlayParticipantModel) -> (result: Result<
        PlayParticipantModel,
        StoreFailure,
    >)
        requires
            self.wf(),
        ensures
            outcome(result) == self@.select_participant(key),
            plain(result),
    {
        match participant_slot(&self.play_participants, key) {
            None => Err(StoreFailure::raise(FailureKind::RowNotFound)),
            Some(at) => Ok(self.play_participants[at]),
        }
    }

    /// Moves the participant row with key `key` to the pair `row`.
    pub fn update_participant(&mut self, key: PlayParticipantModel, row: PlayParticipantModel) -> (
        result: Result<PlayParticipantModel, StoreFailure>)
        requires
            old(self).wf(),
        ensures
            final(self).wf(),
            (Done { tables: final(self)@, result: outcome(result) })
                == old(self)@.update_participant(key, row),
            plain(result),
    {
        proof {
            self@.lemma_update_participant_keeps_wf(key, row);
        }
        match participant_slot(&self.play_participants, key) {
            None => Err(StoreFailure::raise(FailureKind::RowNotFound)),
            Some(at) => {
                let moved: bool = row.play_id != key.play_id || row.player_id != key.player_id;
                if moved && participant_slot(&self.play_participants, row).is_some() {
                    return Err(StoreFailure::raise(FailureKind::UniqueViolation));
                }
                if play_slot(&self.plays, row.play_id).is_none() || player_slot(
                    &self.players,
                    row.player_id,
                ).is_none() {
                    return Err(StoreFailure::raise(FailureKind::ForeignKeyViolation));
                }
                proof {
                    lemma_participant_at(self.play_participants@, at as int);
                }
                self.play_participants[at] = row;
                Ok(row)
            },
        }
    }

    /// Removes the participant row with this key.
    pub fn delete_participant(&mut self, key: PlayParticipantModel) -> (result: Result<
        PlayParticipantModel,
        StoreFailure,
    >)
        requires
            old(self).wf(),
        ensures
            final(self).wf(),
            (Done { tables: final(self)@, result: outcome(result) })
                == old(self)@.delete_participant(key),
            plain(result),
    {
        proof {
            self@.lemma_delete_participant_keeps_wf(key);
        }
        match participant_slot(&self.play_participants, key) {
            None => Err(StoreFailure::raise(FailureKind::RowNotFound)),
            Some(at) => {
                proof {
                    lemma_participant_at(self.play_participants@, at as int);
                }
                let row = self.play_participants.remove(at);
                Ok(row)
            },
        }
    }

    /// All participant rows, in the order in which they were stored.
    pub fn list_participants(&self) -> (rows: Vec<PlayParticipantModel>)
        ensures
            rows@ == self@.list_participants(),
    {
        let mut rows: Vec<PlayParticipantModel> = Vec::new();
        let mut i: usize = 0;
        while i < self.play_participants.len()
            invariant
                i <= self.play_participants.len(),
                rows@ == self.play_participants@.take(i as int),
            decreases self.play_participants.len() - i,
        {
            rows.push(self.play_participants[i]);
            assert(self.play_participants@.take(i + 1) =~= self.play_participants@.take(
                i as int,
            ).push(self.play_participants@[i as int]));
            i = i + 1;
        }
        assert(self.play_participants@.take(i as int) =~= self.play_participants@);
        rows
    }

    /// The participant rows of one play, in the order in which they were stored.
    pub fn participants_of(&self, play_id: u128) -> (rows: Vec<PlayParticipantModel>)
        ensures
            rows@ == self@.participants_of(play_id),
    {
        let mut rows: Vec<PlayParticipantModel> = Vec::new();
        let mut i: usize = 0;
        while i < self.play_participants.len()
            invariant
                i <= self.play_participants.len(),
                rows@ == rows_of_play(self.play_participants@.take(i as int), play_id),
            decreases self.play_participants.len() - i,
        {
            proof {
                let next = self.play_participants@.take(i + 1);
                assert(next.drop_last() =~= self.play_participants@.take(i as int));
                assert(next.last() == self.play_participants@[i as int]);
            }
            if self.play_participants[i].play_id == play_id {
                rows.push(self.play_participants[i]);
            }
            i = i + 1;
        }
        assert(self.play_participants@.take(i as int) =~= self.play_participants@);
        rows
    }
}

} // verus!
