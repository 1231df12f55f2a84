//! What holds of the operations on every content of the tables.

use crate::envelope::{
    EnvelopeView, FaultStatus, RecordView, RecordsView, ReplyView, StatusCode,
};
use crate::integrity::{lemma_game_at, lemma_play_at, lemma_player_at};
use crate::model::{GameModel, GameRow, PlayModel, PlayParticipantModel, PlayerModel, PlayerRow};
use crate::ordering::{
    in_order, lemma_ordered_holds, lemma_ordered_in_order, listing, total, transitive,
};
use crate::schema::{PlaySchema, PlayerSchema, UpdateGameSchema, UpdatePlayParticipantSchema};
use crate::service::{
    create_game, create_play, create_play_participant, create_player, delete_game, delete_play,
    delete_play_participant, delete_player, faults_with, game_list, get_game, get_play,
    get_play_participants, get_player, play_list, play_participant_list, player_list,
    update_game, update_play, update_play_participant, update_player, Served,
};
use crate::tables::Tables;
use crate::text::{lemma_text_le_total, lemma_text_le_transitive};
use vstd::prelude::*;

verus! {

/// A reply that holds this row.
pub open spec fn row_reply(record: RecordView) -> ReplyView {
    Ok(EnvelopeView::Row { record })
}

/// A reply that holds an empty list of these rows.
pub open spec fn empty_list_reply(records: RecordsView) -> ReplyView {
    Ok(EnvelopeView::List { count: 0, records })
}

/// The reply that says that only one owner is allowed.
pub open spec fn owner_conflict() -> ReplyView {
    Err(
        (
            StatusCode::Conflict,
            EnvelopeView::Fault {
                status: FaultStatus::Error,
                message: "Only one owner is allowed"@,
            },
        ),
    )
}

/// The order of names is total and transitive.
pub proof fn lemma_game_listing_is_an_order()
    ensures
        total(listing::<GameModel>()),
        transitive(listing::<GameModel>()),
{
    assert forall|a: GameRow, b: GameRow| #[trigger]
        listing::<GameModel>()(a, b) || listing::<GameModel>()(b, a) by {
        lemma_text_le_total(a.name, b.name);
    }
    assert forall|a: GameRow, b: GameRow, c: GameRow| #[trigger]
        listing::<GameModel>()(a, b) && #[trigger] listing::<GameModel>()(b, c) implies listing::<
        GameModel,
    >()(a, c) by {
        lemma_text_le_transitive(a.name, b.name, c.name);
    }
}

/// The order of names is total and transitive.
pub proof fn lemma_player_listing_is_an_order()
    ensures
        total(listing::<PlayerModel>()),
        transitive(listing::<PlayerModel>()),
{
    assert forall|a: PlayerRow, b: PlayerRow| #[trigger]
        listing::<PlayerModel>()(a, b) || listing::<PlayerModel>()(b, a) by {
        lemma_text_le_total(a.name, b.name);
    }
    assert forall|a: PlayerRow, b: PlayerRow, c: PlayerRow| #[trigger]
        listing::<PlayerModel>()(a, b) && #[trigger] listing::<PlayerModel>()(
            b,
            c,
        ) implies listing::<PlayerModel>()(a, c) by {
        lemma_text_le_transitive(a.name, b.name, c.name);
    }
}

/// The games are listed in the order of their names, each game once.
pub proof fn law_games_listed_by_name(tables: Tables)
    ensures
        in_order(tables.list_games(), listing::<GameModel>()),
        tables.list_games().to_multiset() == tables.games.to_multiset(),
        tables.list_games().len() == tables.games.len(),
{
    lemma_game_listing_is_an_order();
    lemma_ordered_in_order(tables.games, listing::<GameModel>());
    lemma_ordered_holds(tables.games, listing::<GameModel>());
}

/// The players are listed in the order of their names, each player once.
pub proof fn law_players_listed_by_name(tables: Tables)
    ensures
        in_order(tables.list_players(), listing::<PlayerModel>()),
        tables.list_players().to_multiset() == tables.players.to_multiset(),
        tables.list_players().len() == tables.players.len(),
{
    lemma_player_listing_is_an_order();
    lemma_ordered_in_order(tables.players, listing::<PlayerModel>());
    lemma_ordered_holds(tables.players, listing::<PlayerModel>());
}

/// The plays are listed in the order of their games' identifiers, each play once.
pub proof fn law_plays_listed_by_game(tables: Tables)
    ensures
        in_order(tables.list_plays(), listing::<PlayModel>()),
        tables.list_plays().to_multiset() == tables.plays.to_multiset(),
        tables.list_plays().len() == tables.plays.len(),
{
    lemma_ordered_in_order(tables.plays, listing::<PlayModel>());
    lemma_ordered_holds(tables.plays, listing::<PlayModel>());
}

/// The identifier of a row that was created is that of no row that was
/// there before, whatever the kind of row; for a participant row, the pair.
pub proof fn law_created_key_is_new(
    tables: Tables,
    game: GameRow,
    player: PlayerRow,
    play: PlayModel,
    participant: PlayParticipantModel,
)
    ensures
        create_game(tables, game).reply is Ok ==> forall|i: int|
            0 <= i < tables.games.len() ==> (#[trigger] tables.games[i]).id != game.id,
        create_player(tables, player).reply is Ok ==> forall|i: int|
            0 <= i < tables.players.len() ==> (#[trigger] tables.players[i]).id != player.id,
        create_play(tables, play).reply is Ok ==> forall|i: int|
            0 <= i < tables.plays.len() ==> (#[trigger] tables.plays[i]).id != play.id,
        create_play_participant(tables, participant).reply is Ok ==> forall|i: int|
            0 <= i < tables.play_participants.len() ==> #[trigger] tables.play_participants[i]
                != participant,
{
}

/// Creating a game or a player under a name that a row has already gives a
/// conflict, and changes nothing.
pub proof fn law_taken_name_conflicts(tables: Tables, game: GameRow, player: PlayerRow)
    ensures
        tables.game_name_taken(game.name) ==> faults_with(
            create_game(tables, game).reply,
            StatusCode::Conflict,
        ) && create_game(tables, game).tables == tables,
        tables.player_name_taken(player.name) ==> faults_with(
            create_player(tables, player).reply,
            StatusCode::Conflict,
        ) && create_player(tables, player).tables == tables,
{
}

/// Creating a player who is to be the owner while there is an owner gives
/// the conflict that says so, and changes nothing.
pub proof fn law_second_owner_conflicts(tables: Tables, player: PlayerRow)
    requires
        player.is_owner,
        tables.owner_exists(),
    ensures
        create_player(tables, player) == (Served { tables, reply: owner_conflict() }),
{
}

/// Getting, deleting or changing a row by a key that no row has is answered
/// with not found, and changes nothing.
pub proof fn law_missing_key_is_not_found(
    tables: Tables,
    id: u128,
    key: PlayParticipantModel,
    game: UpdateGameSchema,
    player: PlayerSchema,
    play: PlaySchema,
    participant: UpdatePlayParticipantSchema,
)
    ensures
        !tables.game_exists(id) ==> {
            &&& faults_with(get_game(tables, id), StatusCode::NotFound)
            &&& faults_with(delete_game(tables, id).reply, StatusCode::NotFound)
            &&& faults_with(update_game(tables, id, game).reply, StatusCode::NotFound)
            &&& delete_game(tables, id).tables == tables
            &&& update_game(tables, id, game).tables == tables
        },
        !tables.player_exists(id) ==> {
            &&& faults_with(get_player(tables, id), StatusCode::NotFound)
            &&& faults_with(delete_player(tables, id).reply, StatusCode::NotFound)
            &&& faults_with(update_player(tables, id, player).reply, StatusCode::NotFound)
            &&& delete_player(tables, id).tables == tables
            &&& update_player(tables, id, player).tables == tables
        },
        !tables.play_exists(id) ==> {
            &&& faults_with(get_play(tables, id), StatusCode::NotFound)
            &&& faults_with(delete_play(tables, id).reply, StatusCode::NotFound)
            &&& faults_with(update_play(tables, id, play).reply, StatusCode::NotFound)
            &&& delete_play(tables, id).tables == tables
            &&& update_play(tables, id, play).tables == tables
        },
        !tables.participant_exists(key) ==> {
            &&& faults_with(delete_play_participant(tables, key).reply, StatusCode::NotFound)
            &&& faults_with(
                update_play_participant(tables, key, participant).reply,
                StatusCode::NotFound,
            )
            &&& delete_play_participant(tables, key).tables == tables
            &&& update_play_participant(tables, key, participant).tables == tables
        },
{
}

/// A change to a game that provides no field leaves the tables as they are
/// and replies with the row as it was.
pub proof fn law_empty_game_update_changes_nothing(tables: Tables, id: u128, body: UpdateGameSchema)
    requires
        tables.wf(),
        tables.game_exists(id),
        body.name is None,
        body.creator_name is None,
    ensures
        update_game(tables, id, body) == (Served {
            tables,
            reply: row_reply(RecordView::Game(tables.games[tables.game_index(id)])),
        }),
{
    let at = tables.game_index(id);
    let existing = tables.games[at];
    assert(!tables.game_name_taken_besides(existing.name, id));
    assert(tables.games.update(at, existing) =~= tables.games);
}

/// A change to a participant row that provides no half of the key leaves the
/// tables as they are and replies with the row as it was.
pub proof fn law_empty_participant_update_changes_nothing(
    tables: Tables,
    key: PlayParticipantModel,
    body: UpdatePlayParticipantSchema,
)
    requires
        tables.wf(),
        tables.participant_exists(key),
        body.play_id is None,
        body.player_id is None,
    ensures
        update_play_participant(tables, key, body) == (Served {
            tables,
            reply: row_reply(RecordView::PlayParticipant(key)),
        }),
{
    let at = tables.participant_index(key);
    assert(tables.play_participants[at] == key);
    assert(tables.play_participants.update(at, key) =~= tables.play_participants);
}

/// A change to a player that names the name the player has and provides no
/// owner flag leaves the tables as they are and replies with the row as it
/// was.
pub proof fn law_same_player_update_changes_nothing(tables: Tables, id: u128, body: PlayerSchema)
    requires
        tables.wf(),
        tables.player_exists(id),
        body.is_owner is None,
        body.name@ == tables.players[tables.player_index(id)].name,
    ensures
        update_player(tables, id, body) == (Served {
            tables,
            reply: row_reply(RecordView::Player(tables.players[tables.player_index(id)])),
        }),
{
    let at = tables.player_index(id);
    let existing = tables.players[at];
    assert(!tables.player_name_taken_besides(existing.name, id));
    assert(existing.is_owner ==> !tables.owner_exists_besides(id));
    assert(tables.players.update(at, existing) =~= tables.players);
}

/// A change to a play that names the game the play has leaves the tables as
/// they are and replies with the row as it was.
pub proof fn law_same_play_update_changes_nothing(tables: Tables, id: u128, body: PlaySchema)
    requires
        tables.wf(),
        tables.play_exists(id),
        body.game_id == tables.plays[tables.play_index(id)].game_id,
    ensures
        update_play(tables, id, body) == (Served {
            tables,
            reply: row_reply(RecordView::Play(tables.plays[tables.play_index(id)])),
        }),
{
    let at = tables.play_index(id);
    let existing = tables.plays[at];
    assert(tables.game_exists(existing.game_id));
    assert(tables.plays.update(at, existing) =~= tables.plays);
}

/// Listing an empty table succeeds with no rows and the count zero.
pub proof fn law_empty_table_lists_nothing(tables: Tables, play_id: u128)
    ensures
        tables.games.len() == 0 ==> game_list(tables) == empty_list_reply(
            RecordsView::Games(Seq::empty()),
        ),
        tables.players.len() == 0 ==> player_list(tables) == empty_list_reply(
            RecordsView::Players(Seq::empty()),
        ),
        tables.plays.len() == 0 ==> play_list(tables) == empty_list_reply(
            RecordsView::Plays(Seq::empty()),
        ),
        tables.play_participants.len() == 0 ==> play_participant_list(tables) == empty_list_reply(
            RecordsView::PlayParticipants(Seq::empty()),
        ) && get_play_participants(tables, play_id) == empty_list_reply(
            RecordsView::PlayParticipants(Seq::empty()),
        ),
{
    if tables.games.len() == 0 {
        assert(tables.list_games() =~= Seq::empty());
    }
    if tables.players.len() == 0 {
        assert(tables.list_players() =~= Seq::empty());
    }
    if tables.plays.len() == 0 {
        assert(tables.list_plays() =~= Seq::empty());
    }
    if tables.play_participants.len() == 0 {
        assert(tables.list_participants() =~= Seq::empty());
        assert(tables.participants_of(play_id) =~= Seq::empty());
    }
}

/// A game that was created is what getting it by its identifier gives.
pub proof fn law_created_game_is_found(tables: Tables, row: GameRow)
    requires
        tables.wf(),
        create_game(tables, row).reply is Ok,
    ensures
        create_game(tables, row).reply == row_reply(RecordView::Game(row)),
        get_game(create_game(tables, row).tables, row.id) == row_reply(RecordView::Game(row)),
{
    let after = create_game(tables, row).tables;
    tables.lemma_insert_game_keeps_wf(row);
    assert(after.games[tables.games.len() as int] == row);
    lemma_game_at(after.games, tables.games.len() as int);
}

/// A player that was created is what getting it by its identifier gives.
pub proof fn law_created_player_is_found(tables: Tables, row: PlayerRow)
    requires
        tables.wf(),
        create_player(tables, row).reply is Ok,
    ensures
        create_player(tables, row).reply == row_reply(RecordView::Player(row)),
        get_player(create_player(tables, row).tables, row.id) == row_reply(
            RecordView::Player(row),
        ),
{
    let after = create_player(tables, row).tables;
    tables.lemma_insert_player_keeps_wf(row);
    assert(after.players[tables.players.len() as int] == row);
    lemma_player_at(after.players, tables.players.len() as int);
}

/// A play that was created is what getting it by its identifier gives.
pub proof fn law_created_play_is_found(tables: Tables, row: PlayModel)
    requires
        tables.wf(),
        create_play(tables, row).reply is Ok,
    ensures
        create_play(tables, row).reply == row_reply(RecordView::Play(row)),
        get_play(create_play(tables, row).tables, row.id) == row_reply(RecordView::Play(row)),
{
    let after = create_play(tables, row).tables;
    tables.lemma_insert_play_keeps_wf(row);
    assert(after.plays[tables.plays.len() as int] == row);
    lemma_play_at(after.plays, tables.plays.len() as int);
}

/// A participant row that was created is found by its key, and is the last
/// of the rows that are listed.
pub proof fn law_created_participant_is_found(tables: Tables, row: PlayParticipantModel)
    requires
        tables.wf(),
        create_play_participant(tables, row).reply is Ok,
    ensures
        create_play_participant(tables, row).reply == row_reply(RecordView::PlayParticipant(row)),
        create_play_participant(tables, row).tables.select_participant(row) == Ok::<
            PlayParticipantModel,
            crate::failure::FailureKind,
        >(row),
        create_play_participant(tables, row).tables.list_participants()
            == tables.list_participants().push(row),
{
    let after = create_play_participant(tables, row).tables;
    assert(after.play_participants[tables.play_participants.len() as int] == row);
}

/// A row that another row refers to is not deleted: the request fails as a
/// failure of the store, and the tables stay as they are, so that every row
/// that referred to it is still listed and found.
pub proof fn law_referenced_row_stays(tables: Tables, id: u128)
    requires
        tables.wf(),
    ensures
        tables.play_attended(id) ==> {
            &&& faults_with(delete_play(tables, id).reply, StatusCode::InternalServerError)
            &&& delete_play(tables, id).tables == tables
            &&& get_play_participants(delete_play(tables, id).tables, id)
                == get_play_participants(tables, id)
            &&& play_participant_list(delete_play(tables, id).tables) == play_participant_list(
                tables,
            )
        },
        tables.player_took_part(id) ==> {
            &&& faults_with(delete_player(tables, id).reply, StatusCode::InternalServerError)
            &&& delete_player(tables, id).tables == tables
        },
        tables.game_played(id) ==> {
            &&& faults_with(delete_game(tables, id).reply, StatusCode::InternalServerError)
            &&& delete_game(tables, id).tables == tables
        },
{
}

} // verus!
