use game_tracker::envelope::{status_of, Envelope, FaultStatus, Record, Records, Reply, StatusCode};
use game_tracker::handlers::{
    create_game_as, create_play_as, create_play_handler, create_play_participant_handler,
    create_player_as, delete_play_handler, delete_play_participant_handler,
    get_play_handler, get_play_participants_handler, play_list_handler,
    play_participant_list_handler, update_play_handler, update_play_participant_handler,
};
use game_tracker::model::{PlayModel, PlayParticipantModel};
use game_tracker::schema::{
    GameSchema, PlayParticipantSchema, PlaySchema, PlayerSchema, UpdatePlayParticipantSchema,
};
use game_tracker::AppState;

const CATAN: u128 = 10;
const AZUL: u128 = 20;
const ANNA: u128 = 100;
const BERT: u128 = 200;
const FIRST: u128 = 0xaaaaaaaa_aaaa_4aaa_8aaa_aaaaaaaaaaaa;
const SECOND: u128 = 0xbbbbbbbb_bbbb_4bbb_8bbb_bbbbbbbbbbbb;

fn stocked() -> AppState {
    let mut data = AppState::new();
    for (id, name) in [(CATAN, "Catan"), (AZUL, "Azul")] {
        create_game_as(
            id,
            &mut data,
            GameSchema { name: name.to_string(), creator_name: "someone".to_string() },
        )
        .unwrap();
    }
    for (id, name) in [(ANNA, "Anna"), (BERT, "Bert")] {
        create_player_as(id, &mut data, PlayerSchema { name: name.to_string(), is_owner: None })
            .unwrap();
    }
    data
}

fn play_in(reply: Reply) -> PlayModel {
    match reply {
        Ok(Envelope::Row { record: Record::Play(row) }) => row,
        other => panic!("no play in the reply: {:?}", other),
    }
}

fn participant_in(reply: Reply) -> PlayParticipantModel {
    match reply {
        Ok(Envelope::Row { record: Record::PlayParticipant(row) }) => row,
        other => panic!("no participant in the reply: {:?}", other),
    }
}

fn play_fault(reply: Reply) -> (StatusCode, FaultStatus, String) {
    match reply {
        Err((code, Envelope::Fault { status, message })) => (code, status, message),
        other => panic!("no fault in the reply: {:?}", other),
    }
}

fn plays_in(reply: Reply) -> (usize, Vec<PlayModel>) {
    match reply {
        Ok(Envelope::List { count, records: Records::Plays(rows) }) => (count, rows),
        other => panic!("no list of plays in the reply: {:?}", other),
    }
}

fn participants_in(reply: Reply) -> (usize, Vec<PlayParticipantModel>) {
    match reply {
        Ok(Envelope::List { count, records: Records::PlayParticipants(rows) }) => (count, rows),
        other => panic!("no list of participants in the reply: {:?}", other),
    }
}

fn pair(play_id: u128, player_id: u128) -> PlayParticipantModel {
    PlayParticipantModel { play_id, player_id }
}

#[test]
fn a_play_is_created_for_a_game_that_exists() {
    let mut data = stocked();
    data.db.set_time(5);
    let created = play_in(create_play_as(FIRST, &mut data, PlaySchema { game_id: CATAN }));
    assert_eq!(created, PlayModel { id: FIRST, game_id: CATAN, created_at: 5 });
    assert_eq!(play_in(get_play_handler(FIRST, &data)), created);
    let drawn = play_in(create_play_handler(&mut data, PlaySchema { game_id: AZUL }));
    assert_eq!((drawn.id >> 76) & 0xf, 4);
    assert_eq!(play_in(get_play_handler(drawn.id, &data)), drawn);
}

#[test]
fn a_play_of_a_missing_game_fails_in_the_store() {
    let mut data = stocked();
    let reply = create_play_handler(&mut data, PlaySchema { game_id: 999 });
    assert_eq!(status_of(&reply), 500);
    assert_eq!(
        play_fault(reply),
        (
            StatusCode::InternalServerError,
            FaultStatus::Error,
            "violates foreign key constraint".to_string()
        )
    );
    assert_eq!(plays_in(play_list_handler(&data)), (0, vec![]));
}

#[test]
fn a_play_identifier_that_is_taken_conflicts() {
    let mut data = stocked();
    create_play_as(FIRST, &mut data, PlaySchema { game_id: CATAN }).unwrap();
    let reply = create_play_as(FIRST, &mut data, PlaySchema { game_id: AZUL });
    assert_eq!(
        play_fault(reply),
        (StatusCode::Conflict, FaultStatus::Error, "Play already exists".to_string())
    );
}

#[test]
fn a_missing_play_is_not_found() {
    let mut data = stocked();
    let message = "Play with ID: aaaaaaaa-aaaa-4aaa-8aaa-aaaaaaaaaaaa not found".to_string();
    assert_eq!(
        play_fault(get_play_handler(FIRST, &data)),
        (StatusCode::NotFound, FaultStatus::Fail, message.clone())
    );
    assert_eq!(
        play_fault(delete_play_handler(FIRST, &mut data)),
        (StatusCode::NotFound, FaultStatus::Error, message.clone())
    );
    assert_eq!(
        play_fault(update_play_handler(FIRST, &mut data, PlaySchema { game_id: CATAN })),
        (StatusCode::NotFound, FaultStatus::Error, message)
    );
}

#[test]
fn a_play_update_replaces_the_game() {
    let mut data = stocked();
    data.db.set_time(5);
    create_play_as(FIRST, &mut data, PlaySchema { game_id: CATAN }).unwrap();
    data.db.set_time(6);
    let same = play_in(update_play_handler(FIRST, &mut data, PlaySchema { game_id: CATAN }));
    assert_eq!(same, PlayModel { id: FIRST, game_id: CATAN, created_at: 5 });
    let moved = play_in(update_play_handler(FIRST, &mut data, PlaySchema { game_id: AZUL }));
    assert_eq!(moved, PlayModel { id: FIRST, game_id: AZUL, created_at: 5 });
    let reply = update_play_handler(FIRST, &mut data, PlaySchema { game_id: 999 });
    assert_eq!(play_fault(reply).0, StatusCode::InternalServerError);
    assert_eq!(play_in(get_play_handler(FIRST, &data)), moved);
}

#[test]
fn plays_are_listed_by_game_and_then_as_stored() {
    let mut data = stocked();
    create_play_as(3, &mut data, PlaySchema { game_id: AZUL }).unwrap();
    create_play_as(2, &mut data, PlaySchema { game_id: CATAN }).unwrap();
    create_play_as(1, &mut data, PlaySchema { game_id: AZUL }).unwrap();
    create_play_as(4, &mut data, PlaySchema { game_id: CATAN }).unwrap();
    let (count, rows) = plays_in(play_list_handler(&data));
    assert_eq!(count, 4);
    let keys: Vec<(u128, u128)> = rows.iter().map(|row| (row.game_id, row.id)).collect();
    assert_eq!(keys, vec![(CATAN, 2), (CATAN, 4), (AZUL, 3), (AZUL, 1)]);
}

#[test]
fn a_participant_needs_its_play_and_its_player() {
    let mut data = stocked();
    create_play_as(FIRST, &mut data, PlaySchema { game_id: CATAN }).unwrap();
    let created = participant_in(create_play_participant_handler(
        &mut data,
        PlayParticipantSchema { play_id: FIRST, player_id: ANNA },
    ));
    assert_eq!(created, pair(FIRST, ANNA));
    let no_play = create_play_participant_handler(
        &mut data,
        PlayParticipantSchema { play_id: SECOND, player_id: ANNA },
    );
    assert_eq!(play_fault(no_play).0, StatusCode::InternalServerError);
    let no_player = create_play_participant_handler(
        &mut data,
        PlayParticipantSchema { play_id: FIRST, player_id: 999 },
    );
    assert_eq!(
        play_fault(no_player),
        (
            StatusCode::InternalServerError,
            FaultStatus::Error,
            "violates foreign key constraint".to_string()
        )
    );
    assert_eq!(
        participants_in(play_participant_list_handler(&data)),
        (1, vec![pair(FIRST, ANNA)])
    );
}

#[test]
fn a_pair_that_is_recorded_conflicts() {
    let mut data = stocked();
    create_play_as(FIRST, &mut data, PlaySchema { game_id: CATAN }).unwrap();
    let body = PlayParticipantSchema { play_id: FIRST, player_id: ANNA };
    create_play_participant_handler(&mut data, body).unwrap();
    let reply = create_play_participant_handler(&mut data, body);
    assert_eq!(
        play_fault(reply),
        (StatusCode::Conflict, FaultStatus::Error, "Play participant already exists".to_string())
    );
}

#[test]
fn participants_are_listed_as_stored_and_by_play() {
    let mut data = stocked();
    assert_eq!(participants_in(play_participant_list_handler(&data)), (0, vec![]));
    assert_eq!(participants_in(get_play_participants_handler(FIRST, &data)), (0, vec![]));
    create_play_as(FIRST, &mut data, PlaySchema { game_id: CATAN }).unwrap();
    create_play_as(SECOND, &mut data, PlaySchema { game_id: AZUL }).unwrap();
    for (play_id, player_id) in [(SECOND, BERT), (FIRST, BERT), (SECOND, ANNA), (FIRST, ANNA)] {
        create_play_participant_handler(&mut data, PlayParticipantSchema { play_id, player_id })
            .unwrap();
    }
    assert_eq!(
        participants_in(play_participant_list_handler(&data)),
        (4, vec![pair(SECOND, BERT), pair(FIRST, BERT), pair(SECOND, ANNA), pair(FIRST, ANNA)])
    );
    assert_eq!(
        participants_in(get_play_participants_handler(FIRST, &data)),
        (2, vec![pair(FIRST, BERT), pair(FIRST, ANNA)])
    );
    assert_eq!(participants_in(get_play_participants_handler(12345, &data)), (0, vec![]));
}

#[test]
fn a_missing_participant_is_not_found() {
    let mut data = stocked();
    let message = "Play participant with ID: \
                   (aaaaaaaa-aaaa-4aaa-8aaa-aaaaaaaaaaaa,00000000-0000-0000-0000-000000000064) \
                   not found"
        .to_string();
    assert_eq!(
        play_fault(delete_play_participant_handler((FIRST, ANNA), &mut data)),
        (StatusCode::NotFound, FaultStatus::Error, message.clone())
    );
    assert_eq!(
        play_fault(update_play_participant_handler(
            (FIRST, ANNA),
            &mut data,
            UpdatePlayParticipantSchema { play_id: None, player_id: None },
        )),
        (StatusCode::NotFound, FaultStatus::Error, message)
    );
}

#[test]
fn a_participant_update_moves_the_row() {
    let mut data = stocked();
    create_play_as(FIRST, &mut data, PlaySchema { game_id: CATAN }).unwrap();
    create_play_as(SECOND, &mut data, PlaySchema { game_id: AZUL }).unwrap();
    create_play_participant_handler(
        &mut data,
        PlayParticipantSchema { play_id: FIRST, player_id: ANNA },
    )
    .unwrap();
    create_play_participant_handler(
        &mut data,
        PlayParticipantSchema { play_id: FIRST, player_id: BERT },
    )
    .unwrap();

    let same = participant_in(update_play_participant_handler(
        (FIRST, ANNA),
        &mut data,
        UpdatePlayParticipantSchema { play_id: None, player_id: None },
    ));
    assert_eq!(same, pair(FIRST, ANNA));
    assert_eq!(
        participants_in(play_participant_list_handler(&data)).1,
        vec![pair(FIRST, ANNA), pair(FIRST, BERT)]
    );

    let moved = participant_in(update_play_participant_handler(
        (FIRST, ANNA),
        &mut data,
        UpdatePlayParticipantSchema { play_id: Some(SECOND), player_id: None },
    ));
    assert_eq!(moved, pair(SECOND, ANNA));
    assert_eq!(
        participants_in(play_participant_list_handler(&data)).1,
        vec![pair(SECOND, ANNA), pair(FIRST, BERT)]
    );

    let taken = update_play_participant_handler(
        (SECOND, ANNA),
        &mut data,
        UpdatePlayParticipantSchema { play_id: Some(FIRST), player_id: Some(BERT) },
    );
    assert_eq!(
        play_fault(taken),
        (
            StatusCode::InternalServerError,
            FaultStatus::Error,
            "duplicate key value violates unique constraint".to_string()
        )
    );
    let dangling = update_play_participant_handler(
        (SECOND, ANNA),
        &mut data,
        UpdatePlayParticipantSchema { play_id: None, player_id: Some(999) },
    );
    assert_eq!(play_fault(dangling).0, StatusCode::InternalServerError);
    assert_eq!(
        participants_in(play_participant_list_handler(&data)).1,
        vec![pair(SECOND, ANNA), pair(FIRST, BERT)]
    );
}

#[test]
fn deleting_a_participant_replies_with_the_row() {
    let mut data = stocked();
    create_play_as(FIRST, &mut data, PlaySchema { game_id: CATAN }).unwrap();
    create_play_participant_handler(
        &mut data,
        PlayParticipantSchema { play_id: FIRST, player_id: ANNA },
    )
    .unwrap();
    let gone = participant_in(delete_play_participant_handler((FIRST, ANNA), &mut data));
    assert_eq!(gone, pair(FIRST, ANNA));
    assert_eq!(participants_in(play_participant_list_handler(&data)), (0, vec![]));
}

#[test]
fn a_play_with_participants_is_not_deleted() {
    let mut data = stocked();
    create_play_as(FIRST, &mut data, PlaySchema { game_id: CATAN }).unwrap();
    create_play_participant_handler(
        &mut data,
        PlayParticipantSchema { play_id: FIRST, player_id: ANNA },
    )
    .unwrap();
    let reply = delete_play_handler(FIRST, &mut data);
    assert_eq!(status_of(&reply), 500);
    assert_eq!(
        play_fault(reply),
        (
            StatusCode::InternalServerError,
            FaultStatus::Error,
            "violates foreign key constraint".to_string()
        )
    );
    assert!(get_play_handler(FIRST, &data).is_ok());
    assert_eq!(
        participants_in(play_participant_list_handler(&data)),
        (1, vec![pair(FIRST, ANNA)])
    );
    assert_eq!(
        participants_in(get_play_participants_handler(FIRST, &data)),
        (1, vec![pair(FIRST, ANNA)])
    );

    delete_play_participant_handler((FIRST, ANNA), &mut data).unwrap();
    let gone = play_in(delete_play_handler(FIRST, &mut data));
    assert_eq!(gone.id, FIRST);
    assert_eq!(play_fault(get_play_handler(FIRST, &data)).0, StatusCode::NotFound);
}
