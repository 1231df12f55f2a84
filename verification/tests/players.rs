use game_tracker::envelope::{status_of, Envelope, FaultStatus, Record, Records, Reply, StatusCode};
use game_tracker::handlers::{
    create_play_as, create_play_participant_handler, create_player_as, create_player_handler,
    delete_player_handler, get_player_handler, player_list_handler, update_player_handler,
};
use game_tracker::handlers::create_game_as;
use game_tracker::model::PlayerModel;
use game_tracker::schema::{GameSchema, PlayParticipantSchema, PlaySchema, PlayerSchema};
use game_tracker::AppState;

const ANNA: u128 = 0x11111111_1111_4111_8111_111111111111;
const BERT: u128 = 0x22222222_2222_4222_8222_222222222222;

fn player(name: &str, is_owner: Option<bool>) -> PlayerSchema {
    PlayerSchema { name: name.to_string(), is_owner }
}

fn player_in(reply: Reply) -> PlayerModel {
    match reply {
        Ok(Envelope::Row { record: Record::Player(row) }) => row,
        other => panic!("no player in the reply: {:?}", other),
    }
}

fn player_fault(reply: Reply) -> (StatusCode, FaultStatus, String) {
    match reply {
        Err((code, Envelope::Fault { status, message })) => (code, status, message),
        other => panic!("no fault in the reply: {:?}", other),
    }
}

fn player_names(reply: Reply) -> (usize, Vec<String>) {
    match reply {
        Ok(Envelope::List { count, records: Records::Players(rows) }) => {
            (count, rows.into_iter().map(|row| row.name).collect())
        }
        other => panic!("no list of players in the reply: {:?}", other),
    }
}

#[test]
fn a_player_is_no_owner_unless_the_request_says_so() {
    let mut data = AppState::new();
    data.db.set_time(99);
    let anna = player_in(create_player_as(ANNA, &mut data, player("Anna", None)));
    assert_eq!(
        anna,
        PlayerModel { id: ANNA, name: "Anna".to_string(), is_owner: false, created_at: 99 }
    );
    let bert = player_in(create_player_as(BERT, &mut data, player("Bert", Some(true))));
    assert!(bert.is_owner);
    assert_eq!(player_in(get_player_handler(BERT, &data)), bert);
}

#[test]
fn a_drawn_player_identifier_is_a_random_uuid() {
    let mut data = AppState::new();
    let anna = player_in(create_player_handler(&mut data, player("Anna", None)));
    assert_eq!((anna.id >> 76) & 0xf, 4);
    assert_eq!((anna.id >> 62) & 0x3, 2);
    assert_eq!(player_in(get_player_handler(anna.id, &data)), anna);
}

#[test]
fn a_player_name_that_is_taken_conflicts() {
    let mut data = AppState::new();
    create_player_handler(&mut data, player("Anna", None)).unwrap();
    let reply = create_player_handler(&mut data, player("Anna", None));
    assert_eq!(status_of(&reply), 409);
    assert_eq!(
        player_fault(reply),
        (StatusCode::Conflict, FaultStatus::Error, "Player name already exists".to_string())
    );
    assert_eq!(player_names(player_list_handler(&data)).0, 1);
}

#[test]
fn a_second_owner_conflicts() {
    let mut data = AppState::new();
    create_player_handler(&mut data, player("Anna", Some(true))).unwrap();
    let reply = create_player_handler(&mut data, player("Bert", Some(true)));
    assert_eq!(status_of(&reply), 409);
    assert_eq!(
        player_fault(reply),
        (StatusCode::Conflict, FaultStatus::Error, "Only one owner is allowed".to_string())
    );
    assert!(create_player_handler(&mut data, player("Bert", Some(false))).is_ok());
    assert_eq!(player_names(player_list_handler(&data)).0, 2);
}

#[test]
fn a_second_owner_under_a_taken_name_gets_the_owner_message() {
    let mut data = AppState::new();
    create_player_handler(&mut data, player("Anna", Some(true))).unwrap();
    let reply = create_player_handler(&mut data, player("Anna", Some(true)));
    assert_eq!(player_fault(reply).2, "Only one owner is allowed");
}

#[test]
fn a_missing_player_is_not_found() {
    let mut data = AppState::new();
    let message = "Player with ID: 11111111-1111-4111-8111-111111111111 not found".to_string();
    assert_eq!(
        player_fault(get_player_handler(ANNA, &data)),
        (StatusCode::NotFound, FaultStatus::Fail, message.clone())
    );
    assert_eq!(
        player_fault(delete_player_handler(ANNA, &mut data)),
        (StatusCode::NotFound, FaultStatus::Error, message.clone())
    );
    assert_eq!(
        player_fault(update_player_handler(ANNA, &mut data, player("Anna", None))),
        (StatusCode::NotFound, FaultStatus::Error, message)
    );
}

#[test]
fn a_player_update_replaces_the_name_and_keeps_the_flag_it_does_not_provide() {
    let mut data = AppState::new();
    create_player_as(ANNA, &mut data, player("Anna", Some(true))).unwrap();
    let renamed = player_in(update_player_handler(ANNA, &mut data, player("Anne", None)));
    assert_eq!(renamed.name, "Anne");
    assert!(renamed.is_owner);
    let demoted = player_in(update_player_handler(ANNA, &mut data, player("Anne", Some(false))));
    assert!(!demoted.is_owner);
    assert_eq!(player_in(get_player_handler(ANNA, &data)), demoted);
}

#[test]
fn a_player_update_with_the_same_name_changes_nothing() {
    let mut data = AppState::new();
    let created = player_in(create_player_as(ANNA, &mut data, player("Anna", Some(true))));
    let updated = player_in(update_player_handler(ANNA, &mut data, player("Anna", None)));
    assert_eq!(created, updated);
}

#[test]
fn a_player_update_that_breaks_a_rule_fails_in_the_store() {
    let mut data = AppState::new();
    create_player_as(ANNA, &mut data, player("Anna", Some(true))).unwrap();
    create_player_as(BERT, &mut data, player("Bert", None)).unwrap();
    let named = update_player_handler(BERT, &mut data, player("Anna", None));
    assert_eq!(
        player_fault(named),
        (
            StatusCode::InternalServerError,
            FaultStatus::Error,
            "duplicate key value violates unique constraint".to_string()
        )
    );
    let owned = update_player_handler(BERT, &mut data, player("Bert", Some(true)));
    assert_eq!(
        player_fault(owned),
        (
            StatusCode::InternalServerError,
            FaultStatus::Error,
            "duplicate key value violates unique constraint \"uniq_single_owner\"".to_string()
        )
    );
    assert_eq!(
        player_in(get_player_handler(BERT, &data)),
        PlayerModel { id: BERT, name: "Bert".to_string(), is_owner: false, created_at: 0 }
    );
}

#[test]
fn players_are_listed_by_name() {
    let mut data = AppState::new();
    assert_eq!(player_names(player_list_handler(&data)), (0, vec![]));
    for (i, name) in ["Zoe", "anna", "Bert", "Anna"].iter().enumerate() {
        create_player_as(i as u128, &mut data, player(name, None)).unwrap();
    }
    assert_eq!(
        player_names(player_list_handler(&data)),
        (4, vec!["Anna".to_string(), "Bert".to_string(), "Zoe".to_string(), "anna".to_string()])
    );
}

#[test]
fn a_player_who_took_part_is_not_deleted() {
    let mut data = AppState::new();
    create_game_as(
        1,
        &mut data,
        GameSchema { name: "Catan".to_string(), creator_name: "Klaus".to_string() },
    )
    .unwrap();
    create_play_as(2, &mut data, PlaySchema { game_id: 1 }).unwrap();
    create_player_as(ANNA, &mut data, player("Anna", None)).unwrap();
    create_player_as(BERT, &mut data, player("Bert", None)).unwrap();
    create_play_participant_handler(
        &mut data,
        PlayParticipantSchema { play_id: 2, player_id: ANNA },
    )
    .unwrap();
    let reply = delete_player_handler(ANNA, &mut data);
    assert_eq!(player_fault(reply).0, StatusCode::InternalServerError);
    assert!(get_player_handler(ANNA, &data).is_ok());
    let gone = player_in(delete_player_handler(BERT, &mut data));
    assert_eq!(gone.name, "Bert");
    assert_eq!(player_names(player_list_handler(&data)), (1, vec!["Anna".to_string()]));
}
