use game_tracker::envelope::{
    created, deleted, fetched, found, game_outcome, listed, status_of, updated, Entity, Envelope,
    FaultStatus, Key, Record, Records, StatusCode,
};
use game_tracker::failure::{FailureKind, StoreFailure};
use game_tracker::model::{GameModel, PlayModel};
use game_tracker::route::{create_router, Method, Operation};
use game_tracker::schema::{
    GameSchema, PlayParticipantSchema, PlaySchema, PlayerSchema, UpdateGameSchema,
    UpdatePlayParticipantSchema,
};
use game_tracker::text::{comes_first, contains, same_text};
use game_tracker::AppState;

fn catan() -> GameModel {
    GameModel { id: 1, name: "Catan".to_string(), creator_name: "Klaus".to_string(), created_at: 3 }
}

fn other(detail: &str) -> StoreFailure {
    StoreFailure { kind: FailureKind::Other, detail: detail.to_string() }
}

#[test]
fn driver_text_is_sorted_into_kinds() {
    let name = StoreFailure::classify(
        "error returned from database: duplicate key value violates unique constraint \
         \"games_name_key\""
            .to_string(),
    );
    assert_eq!(name.kind, FailureKind::UniqueViolation);
    assert!(name.detail.ends_with("\"games_name_key\""));
    let owner = StoreFailure::classify(
        "duplicate key value violates unique constraint \"uniq_single_owner\"".to_string(),
    );
    assert_eq!(owner.kind, FailureKind::OwnerViolation);
    let only_owner = StoreFailure::classify("constraint uniq_single_owner".to_string());
    assert_eq!(only_owner.kind, FailureKind::Other);
    let broken = StoreFailure::classify("connection refused".to_string());
    assert_eq!(broken, other("connection refused"));
    assert_eq!(StoreFailure::classify(String::new()).kind, FailureKind::Other);
}

#[test]
fn the_tables_own_failures_classify_as_their_kind() {
    for kind in [FailureKind::UniqueViolation, FailureKind::OwnerViolation] {
        let raised = StoreFailure::raise(kind);
        assert_eq!(raised.kind, kind);
        assert_eq!(StoreFailure::classify(raised.detail).kind, kind);
    }
    for kind in [FailureKind::RowNotFound, FailureKind::ForeignKeyViolation, FailureKind::Other] {
        let raised = StoreFailure::raise(kind);
        assert_eq!(StoreFailure::classify(raised.detail).kind, FailureKind::Other);
    }
    assert_eq!(StoreFailure::row_not_found(), StoreFailure::raise(FailureKind::RowNotFound));
    assert_eq!(
        StoreFailure::row_not_found().detail,
        "no rows returned by a query that expected to return at least one row"
    );
}

#[test]
fn text_is_searched_and_ordered_by_characters() {
    assert!(contains("abcabd", "abd"));
    assert!(contains("abc", ""));
    assert!(contains("", ""));
    assert!(contains("abc", "abc"));
    assert!(!contains("abc", "abcd"));
    assert!(!contains("ababab", "abb"));
    assert!(contains("grüße", "üß"));
    assert!(comes_first("", "a"));
    assert!(!comes_first("a", ""));
    assert!(comes_first("Az", "Azul"));
    assert!(!comes_first("Azul", "Az"));
    assert!(comes_first("Azul", "Azul"));
    assert!(comes_first("Zoe", "anna"));
    assert!(comes_first("z", "é"));
    assert!(same_text("/api/games", "/api/games"));
    assert!(!same_text("/api/games", "/api/game"));
    assert!(!same_text("/api/games", "/api/gamez"));
}

#[test]
fn a_created_row_or_a_conflict_or_a_store_failure() {
    let ok = created(Entity::Game, Ok(Record::Game(catan())));
    assert_eq!(status_of(&ok), 200);
    assert_eq!(ok, Ok(Envelope::Row { record: Record::Game(catan()) }));

    let taken = created(Entity::Game, Err(StoreFailure::raise(FailureKind::UniqueViolation)));
    assert_eq!(status_of(&taken), 409);
    assert_eq!(
        taken,
        Err((
            StatusCode::Conflict,
            Envelope::Fault {
                status: FaultStatus::Error,
                message: "Game already exists".to_string()
            }
        ))
    );
    for (entity, kind, message) in [
        (Entity::Game, FailureKind::OwnerViolation, "Game already exists"),
        (Entity::Player, FailureKind::UniqueViolation, "Player name already exists"),
        (Entity::Player, FailureKind::OwnerViolation, "Only one owner is allowed"),
        (Entity::Play, FailureKind::UniqueViolation, "Play already exists"),
        (Entity::PlayParticipant, FailureKind::UniqueViolation, "Play participant already exists"),
    ] {
        let reply = created(entity, Err(StoreFailure::raise(kind)));
        assert_eq!(
            reply,
            Err((
                StatusCode::Conflict,
                Envelope::Fault { status: FaultStatus::Error, message: message.to_string() }
            ))
        );
    }
    for failure in [
        other("connection refused"),
        StoreFailure::raise(FailureKind::ForeignKeyViolation),
        StoreFailure::raise(FailureKind::RowNotFound),
    ] {
        let reply = created(Entity::Player, Err(failure.clone()));
        assert_eq!(status_of(&reply), 500);
        assert_eq!(
            reply,
            Err((
                StatusCode::InternalServerError,
                Envelope::Fault { status: FaultStatus::Error, message: failure.detail }
            ))
        );
    }
}

#[test]
fn a_lookup_that_fails_is_not_found_or_a_store_failure() {
    let key = Key::Id(0x0123456789abcdef_0123456789abcdef);
    let message = "Game with ID: 01234567-89ab-cdef-0123-456789abcdef not found".to_string();
    let missing = fetched(Entity::Game, key, Err(StoreFailure::row_not_found()));
    assert_eq!(status_of(&missing), 404);
    assert_eq!(
        missing,
        Err((
            StatusCode::NotFound,
            Envelope::Fault { status: FaultStatus::Fail, message: message.clone() }
        ))
    );
    let not_deleted = deleted(Entity::Game, key, Err(StoreFailure::row_not_found()));
    assert_eq!(
        not_deleted,
        Err((
            StatusCode::NotFound,
            Envelope::Fault { status: FaultStatus::Error, message: message.clone() }
        ))
    );
    let not_changed = found(Entity::Game, key, game_outcome(Err(StoreFailure::row_not_found())));
    assert_eq!(
        not_changed,
        Err((StatusCode::NotFound, Envelope::Fault { status: FaultStatus::Error, message }))
    );
    let broken = Err((
        StatusCode::InternalServerError,
        Envelope::Fault { status: FaultStatus::Error, message: "pool timed out".to_string() },
    ));
    assert_eq!(fetched(Entity::Game, key, Err(other("pool timed out"))), broken);
    assert_eq!(deleted(Entity::Game, key, Err(other("pool timed out"))), broken);
    assert_eq!(
        found::<GameModel>(Entity::Game, key, Err(other("pool timed out"))),
        Err((
            StatusCode::InternalServerError,
            Envelope::Fault { status: FaultStatus::Error, message: "pool timed out".to_string() },
        ))
    );
    assert_eq!(
        fetched(Entity::Game, key, Err(StoreFailure::raise(FailureKind::UniqueViolation))),
        Err((
            StatusCode::InternalServerError,
            Envelope::Fault {
                status: FaultStatus::Error,
                message: "duplicate key value violates unique constraint".to_string()
            },
        ))
    );
    assert_eq!(found(Entity::Game, key, Ok(catan())), Ok(catan()));
    assert_eq!(
        fetched(Entity::Game, key, Ok(Record::Game(catan()))),
        Ok(Envelope::Row { record: Record::Game(catan()) })
    );
    assert_eq!(
        deleted(Entity::Game, key, Ok(Record::Game(catan()))),
        Ok(Envelope::Row { record: Record::Game(catan()) })
    );
}

#[test]
fn a_key_is_written_as_hyphenated_text() {
    assert_eq!(Key::Id(0).to_text(), "00000000-0000-0000-0000-000000000000");
    assert_eq!(Key::Id(u128::MAX).to_text(), "ffffffff-ffff-ffff-ffff-ffffffffffff");
    assert_eq!(
        Key::Id(0xa1a2a3a4b1b2c1c2d1d2d3d4d5d6d7d8).to_text(),
        "a1a2a3a4-b1b2-c1c2-d1d2-d3d4d5d6d7d8"
    );
    assert_eq!(
        Key::Pair(1, 0xabcdef).to_text(),
        "(00000000-0000-0000-0000-000000000001,00000000-0000-0000-0000-000000abcdef)"
    );
}

#[test]
fn every_failed_write_is_a_store_failure() {
    for failure in [
        StoreFailure::row_not_found(),
        StoreFailure::raise(FailureKind::UniqueViolation),
        StoreFailure::raise(FailureKind::OwnerViolation),
        StoreFailure::raise(FailureKind::ForeignKeyViolation),
        other("deadlock detected"),
    ] {
        let reply = updated(Err(failure.clone()));
        assert_eq!(
            reply,
            Err((
                StatusCode::InternalServerError,
                Envelope::Fault { status: FaultStatus::Error, message: failure.detail }
            ))
        );
    }
    assert_eq!(
        updated(Ok(Record::Game(catan()))),
        Ok(Envelope::Row { record: Record::Game(catan()) })
    );
}

#[test]
fn a_list_carries_its_count() {
    let play = PlayModel { id: 1, game_id: 2, created_at: 3 };
    let reply = listed(Ok(Records::Plays(vec![play, play, play])));
    assert_eq!(reply, Ok(Envelope::List { count: 3, records: Records::Plays(vec![play; 3]) }));
    let empty = listed(Ok(Records::Games(vec![])));
    assert_eq!(empty, Ok(Envelope::List { count: 0, records: Records::Games(vec![]) }));
    let failed = listed(Err(other("connection reset")));
    assert_eq!(status_of(&failed), 500);
    assert_eq!(
        failed,
        Err((
            StatusCode::InternalServerError,
            Envelope::Fault { status: FaultStatus::Error, message: "connection reset".to_string() }
        ))
    );
}

#[test]
fn bodies_and_kinds_have_their_words() {
    assert_eq!(Envelope::Row { record: Record::Game(catan()) }.status_word(), "success");
    assert_eq!(Envelope::List { count: 0, records: Records::Games(vec![]) }.status_word(), "ok");
    for (status, word) in [(FaultStatus::Error, "error"), (FaultStatus::Fail, "fail")] {
        assert_eq!(Envelope::Fault { status, message: String::new() }.status_word(), word);
    }
    let names = [
        (Entity::Game, "game", "games", "Game"),
        (Entity::Player, "player", "players", "Player"),
        (Entity::Play, "play", "plays", "Play"),
        (Entity::PlayParticipant, "play_participant", "play_participants", "Play participant"),
    ];
    for (entity, singular, plural, title) in names {
        assert_eq!(entity.singular_name(), singular);
        assert_eq!(entity.plural_name(), plural);
        assert_eq!(entity.title_name(), title);
    }
    assert_eq!(Record::Game(catan()).entity(), Entity::Game);
    assert_eq!(Records::PlayParticipants(vec![]).entity(), Entity::PlayParticipant);
    assert_eq!(Records::Games(vec![catan(), catan()]).len(), 2);
    assert_eq!(StatusCode::NotFound.as_u16(), 404);
    assert_eq!(StatusCode::Conflict.as_u16(), 409);
    assert_eq!(StatusCode::InternalServerError.as_u16(), 500);
}

#[test]
fn a_change_keeps_what_it_does_not_provide() {
    let none = UpdateGameSchema { name: None, creator_name: None };
    assert_eq!(none.apply(&catan()), catan());
    let both = UpdateGameSchema {
        name: Some("Azul".to_string()),
        creator_name: Some("Michael".to_string()),
    };
    assert_eq!(
        both.apply(&catan()),
        GameModel {
            id: 1,
            name: "Azul".to_string(),
            creator_name: "Michael".to_string(),
            created_at: 3
        }
    );
    let play = PlayModel { id: 1, game_id: 2, created_at: 3 };
    assert_eq!(
        PlaySchema { game_id: 9 }.apply(&play),
        PlayModel { id: 1, game_id: 9, created_at: 3 }
    );
    let row = PlayParticipantSchema { play_id: 1, player_id: 2 };
    let existing =
        game_tracker::model::PlayParticipantModel { play_id: row.play_id, player_id: row.player_id };
    let half = UpdatePlayParticipantSchema { play_id: None, player_id: Some(7) };
    assert_eq!(
        half.apply(&existing),
        game_tracker::model::PlayParticipantModel { play_id: 1, player_id: 7 }
    );
    assert!(!PlayerSchema { name: "Anna".to_string(), is_owner: None }.owner_flag());
    assert!(PlayerSchema { name: "Anna".to_string(), is_owner: Some(true) }.owner_flag());
    let _ = GameSchema { name: String::new(), creator_name: String::new() };
}

#[test]
fn the_routing_table_names_every_operation_once() {
    let router = create_router(AppState::new());
    assert_eq!(router.routes.len(), 20);
    let expected = [
        (Method::Post, "/api/games", Operation::CreateGame),
        (Method::Get, "/api/games", Operation::GameList),
        (Method::Get, "/api/games/{id}", Operation::GetGame),
        (Method::Delete, "/api/games/{id}", Operation::DeleteGame),
        (Method::Patch, "/api/games/{id}", Operation::UpdateGame),
        (Method::Post, "/api/players", Operation::CreatePlayer),
        (Method::Get, "/api/players", Operation::PlayerList),
        (Method::Get, "/api/players/{id}", Operation::GetPlayer),
        (Method::Delete, "/api/players/{id}", Operation::DeletePlayer),
        (Method::Patch, "/api/players/{id}", Operation::UpdatePlayer),
        (Method::Post, "/api/plays", Operation::CreatePlay),
        (Method::Get, "/api/plays", Operation::PlayList),
        (Method::Get, "/api/plays/{id}", Operation::GetPlay),
        (Method::Delete, "/api/plays/{id}", Operation::DeletePlay),
        (Method::Patch, "/api/plays/{id}", Operation::UpdatePlay),
        (Method::Post, "/api/playparticipants", Operation::CreatePlayParticipant),
        (Method::Get, "/api/playparticipants", Operation::PlayParticipantList),
        (Method::Get, "/api/plays/{play_id}/participants", Operation::GetPlayParticipants),
        (
            Method::Delete,
            "/api/plays/{play_id}/participants/{player_id}",
            Operation::DeletePlayParticipant,
        ),
        (
            Method::Patch,
            "/api/plays/{play_id}/participants/{player_id}",
            Operation::UpdatePlayParticipant,
        ),
    ];
    for (i, (method, path, operation)) in expected.iter().enumerate() {
        assert_eq!(router.routes[i].method, *method);
        assert_eq!(router.routes[i].path, *path);
        assert_eq!(router.routes[i].operation, *operation);
        assert_eq!(router.operation_for(*method, path), Some(*operation));
    }
    assert_eq!(router.operation_for(Method::Patch, "/api/games"), None);
    assert_eq!(router.operation_for(Method::Post, "/api/games/{id}"), None);
    assert_eq!(router.operation_for(Method::Get, "/api/unknown"), None);
    assert_eq!(router.operation_for(Method::Post, "/api/plays/{play_id}/participants"), None);
}
