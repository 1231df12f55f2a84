//! The reply that every operation gives: a row, a list of rows, or a fault
//! with a status code and a message.

use crate::failure::{FailureKind, FailureView, StoreFailure};
use crate::ident::{hyphenated, id_text};
use crate::model::{GameModel, GameRow, PlayModel, PlayParticipantModel, PlayerModel, PlayerRow};
use crate::ordering::views;
use vstd::prelude::*;
use vstd::string::StringExecFns;

verus! {

/// The four kinds of row.
#[derive(Clone, Copy, Debug, PartialEq, Eq, Structural)]
pub enum Entity {
    Game,
    Player,
    Play,
    PlayParticipant,
}

impl Entity {
    /// The name under which a reply holds one row of this kind.
    pub open spec fn singular(self) -> Seq<char> {
        match self {
            Entity::Game => "game"@,
            Entity::Player => "player"@,
            Entity::Play => "play"@,
            Entity::PlayParticipant => "play_participant"@,
        }
    }

    /// The name under which a reply holds a list of rows of this kind.
    pub open spec fn plural(self) -> Seq<char> {
        match self {
            Entity::Game => "games"@,
            Entity::Player => "players"@,
            Entity::Play => "plays"@,
            Entity::PlayParticipant => "play_participants"@,
        }
    }

    /// The name of this kind of row in a message.
    pub open spec fn title(self) -> Seq<char> {
        match self {
            Entity::Game => "Game"@,
            Entity::Player => "Player"@,
            Entity::Play => "Play"@,
            Entity::PlayParticipant => "Play participant"@,
        }
    }

    /// The name under which a reply holds one row of this kind.
    pub fn singular_name(self) -> (name: &'static str)
        ensures
            name@ == self.singular(),
    {
        match self {
            Entity::Game => "game",
            Entity::Player => "player",
            Entity::Play => "play",
            Entity::PlayParticipant => "play_participant",
        }
    }

    /// The name under which a reply holds a list of rows of this kind.
    pub fn plural_name(self) -> (name: &'static str)
        ensures
            name@ == self.plural(),
    {
        match self {
            Entity::Game => "games",
            Entity::Player => "players",
            Entity::Play => "plays",
            Entity::PlayParticipant => "play_participants",
        }
    }

    /// The name of this kind of row in a message.
    pub fn title_name(self) -> (name: &'static str)
        ensures
            name@ == self.title(),
    {
        match self {
            Entity::Game => "Game",
            Entity::Player => "Player",
            Entity::Play => "Play",
            Entity::PlayParticipant => "Play participant",
        }
    }
}

/// The key that a request names a row by.
#[derive(Clone, Copy, Debug, PartialEq, Eq, Structural)]
pub enum Key {
    /// The identifier of a game, a player or a play.
    Id(u128),
    /// The play and the player of a participant row.
    Pair(u128, u128),
}

impl Key {
    /// The key as a message shows it.
    pub open spec fn text(self) -> Seq<char> {
        match self {
            Key::Id(id) => hyphenated(id),
            Key::Pair(play_id, player_id) => "("@ + hyphenated(play_id) + ","@ + hyphenated(
                player_id,
            ) + ")"@,
        }
    }

    /// The key as a message shows it.
    pub fn to_text(self) -> (text: String)
        ensures
            text@ == self.text(),
    {
        match self {
            Key::Id(id) => id_text(id),
            Key::Pair(play_id, player_id) => {
                let play = id_text(play_id);
                let player = id_text(player_id);
                String::from_str("(").concat(play.as_str()).concat(",").concat(
                    player.as_str(),
                ).concat(")")
            },
        }
    }
}

/// The status code of a reply that reports a fault.
#[derive(Clone, Copy, Debug, PartialEq, Eq, Structural)]
pub enum StatusCode {
    /// No row has the key.
    NotFound,
    /// A uniqueness rule stands against the request.
    Conflict,
    /// The store failed in another way.
    InternalServerError,
}

impl StatusCode {
    /// The number of the status code.
    pub open spec fn number(self) -> u16 {
        match self {
            StatusCode::NotFound => 404,
            StatusCode::Conflict => 409,
            StatusCode::InternalServerError => 500,
        }
    }

    /// The number of the status code.
    pub fn as_u16(self) -> (code: u16)
        ensures
            code == self.number(),
    {
        match self {
            StatusCode::NotFound => 404,
            StatusCode::Conflict => 409,
            StatusCode::InternalServerError => 500,
        }
    }
}

/// The status word of a fault.
#[derive(Clone, Copy, Debug, PartialEq, Eq, Structural)]
pub enum FaultStatus {
    Error,
    Fail,
}

/// One row of any kind.
#[derive(Debug, PartialEq, Eq)]
pub enum Record {
    Game(GameModel),
    Player(PlayerModel),
    Play(PlayModel),
    PlayParticipant(PlayParticipantModel),
}

/// What a [`Record`] holds.
pub enum RecordView {
    Game(GameRow),
    Player(PlayerRow),
    Play(PlayModel),
    PlayParticipant(PlayParticipantModel),
}

impl View for Record {
    type V = RecordView;

    open spec fn view(&self) -> RecordView {
        match self {
            Record::Game(row) => RecordView::Game(row@),
            Record::Player(row) => RecordView::Player(row@),
            Record::Play(row) => RecordView::Play(*row),
            Record::PlayParticipant(row) => RecordView::PlayParticipant(*row),
        }
    }
}

impl RecordView {
    /// The kind of the row.
    pub open spec fn entity(self) -> Entity {
        match self {
            RecordView::Game(_) => Entity::Game,
            RecordView::Player(_) => Entity::Player,
            RecordView::Play(_) => Entity::Play,
            RecordView::PlayParticipant(_) => Entity::PlayParticipant,
        }
    }
}

impl Record {
    /// The kind of the row.
    pub fn entity(&self) -> (entity: Entity)
        ensures
            entity == self@.entity(),
    {
        match self {
            Record::Game(_) => Entity::Game,
            Record::Player(_) => Entity::Player,
            Record::Play(_) => Entity::Play,
            Record::PlayParticipant(_) => Entity::PlayParticipant,
        }
    }
}

/// Rows of one kind.
#[derive(Debug, PartialEq, Eq)]
pub enum Records {
    Games(Vec<GameModel>),
    Players(Vec<PlayerModel>),
    Plays(Vec<PlayModel>),
    PlayParticipants(Vec<PlayParticipantModel>),
}

/// What a [`Records`] holds.
pub enum RecordsView {
    Games(Seq<GameRow>),
    Players(Seq<PlayerRow>),
    Plays(Seq<PlayModel>),
    PlayParticipants(Seq<PlayParticipantModel>),
}

impl View for Records {
    type V = RecordsView;

    open spec fn view(&self) -> RecordsView {
        match self {
            Records::Games(rows) => RecordsView::Games(views(rows@)),
            Records::Players(rows) => RecordsView::Players(views(rows@)),
            Records::Plays(rows) => RecordsView::Plays(rows@),
            Records::PlayParticipants(rows) => RecordsView::PlayParticipants(rows@),
        }
    }
}

impl RecordsView {
    /// The kind of the rows.
    pub open spec fn entity(self) -> Entity {
        match self {
            RecordsView::Games(_) => Entity::Game,
            RecordsView::Players(_) => Entity::Player,
            RecordsView::Plays(_) => Entity::Play,
            RecordsView::PlayParticipants(_) => Entity::PlayParticipant,
        }
    }

    /// How many rows there are.
    pub open spec fn len(self) -> nat {
        match self {
            RecordsView::Games(rows) => rows.len(),
            RecordsView::Players(rows) => rows.len(),
            RecordsView::Plays(rows) => rows.len(),
            RecordsView::PlayParticipants(rows) => rows.len(),
        }
    }
}

impl Records {
    /// The kind of the rows.
    pub fn entity(&self) -> (entity: Entity)
        ensures
            entity == self@.entity(),
    {
        match self {
            Records::Games(_) => Entity::Game,
            Records::Players(_) => Entity::Player,
            Records::Plays(_) => Entity::Play,
            Records::PlayParticipants(_) => Entity::PlayParticipant,
        }
    }

    /// How many rows there are.
    pub fn len(&self) -> (count: usize)
        ensures
            count == self@.len(),
    {
        match self {
            Records::Games(rows) => rows.len(),
            Records::Players(rows) => rows.len(),
            Records::Plays(rows) => rows.len(),
            Records::PlayParticipants(rows) => rows.len(),
        }
    }
}

/// The body of a reply.
#[derive(Debug, PartialEq, Eq)]
pub enum Envelope {
    /// One row, under the status word `success` and, in `data`, the singular
    /// name of its kind.
    Row { record: Record },
    /// A list of rows, under the status word `ok`, with their count and
    /// under the plural name of their kind.
    List { count: usize, records: Records },
    /// A fault, under its status word, with a message.
    Fault { status: FaultStatus, message: String },
}

/// What an [`Envelope`] holds.
pub enum EnvelopeView {
    Row { record: RecordView },
    List { count: usize, records: RecordsView },
    Fault { status: FaultStatus, message: Seq<char> },
}

impl View for Envelope {
    type V = EnvelopeView;

    open spec fn view(&self) -> EnvelopeView {
        match self {
            Envelope::Row { record } => EnvelopeView::Row { record: record@ },
            Envelope::List { count, records } => EnvelopeView::List {
                count: *count,
                records: records@,
            },
            Envelope::Fault { status, message } => EnvelopeView::Fault {
                status: *status,
                message: message@,
            },
        }
    }
}

impl EnvelopeView {
    /// The status word of the body.
    pub open spec fn status(self) -> Seq<char> {
        match self {
            EnvelopeView::Row { .. } => "success"@,
            EnvelopeView::List { .. } => "ok"@,
            EnvelopeView::Fault { status: FaultStatus::Error, .. } => "error"@,
            EnvelopeView::Fault { status: FaultStatus::Fail, .. } => "fail"@,
        }
    }
}

impl Envelope {
    /// The status word of the body.
    pub fn status_word(&self) -> (word: &'static str)
        ensures
            word@ == self@.status(),
    {
        match self {
            Envelope::Row { .. } => "success",
            Envelope::List { .. } => "ok",
            Envelope::Fault { status: FaultStatus::Error, .. } => "error",
            Envelope::Fault { status: FaultStatus::Fail, .. } => "fail",
        }
    }
}

/// What a handler gives back: a body with a row or a list, or a status code
/// and a body with a fault.
pub type Reply = Result<Envelope, (StatusCode, Envelope)>;

/// What a [`Reply`] holds.
pub type ReplyView = Result<EnvelopeView, (StatusCode, EnvelopeView)>;

/// The view of a reply.
pub open spec fn reply_view(reply: Reply) -> ReplyView {
    match reply {
        Ok(body) => Ok(body@),
        Err((code, body)) => Err((code, body@)),
    }
}

/// The number of a reply's status code: 200 where it holds a row or a list.
pub open spec fn status_number(reply: ReplyView) -> u16 {
    match reply {
        Ok(_) => 200,
        Err((code, _)) => code.number(),
    }
}

/// The number of a reply's status code.
pub fn status_of(reply: &Reply) -> (code: u16)
    ensures
        code == status_number(reply_view(*reply)),
{
    match reply {
        Ok(_) => 200,
        Err((code, _)) => code.as_u16(),
    }
}

/// What a statement gave a handler, as views.
pub open spec fn record_outcome(outcome: Result<Record, StoreFailure>) -> Result<
    RecordView,
    FailureView,
> {
    match outcome {
        Ok(record) => Ok(record@),
        Err(failure) => Err(failure@),
    }
}

/// What a listing statement gave a handler, as views.
pub open spec fn records_outcome(outcome: Result<Records, StoreFailure>) -> Result<
    RecordsView,
    FailureView,
> {
    match outcome {
        Ok(records) => Ok(records@),
        Err(failure) => Err(failure@),
    }
}

/// A statement's result on games as the reply takes it.
pub fn game_outcome(result: Result<GameModel, StoreFailure>) -> (outcome: Result<
    Record,
    StoreFailure,
>)
    ensures
        match result {
            Ok(row) => outcome == Ok::<Record, StoreFailure>(Record::Game(row)),
            Err(failure) => outcome == Err::<Record, StoreFailure>(failure),
        },
{
    match result {
        Ok(row) => Ok(Record::Game(row)),
        Err(failure) => Err(failure),
    }
}

/// A statement's result on players as the reply takes it.
pub fn player_outcome(result: Result<PlayerModel, StoreFailure>) -> (outcome: Result<
    Record,
    StoreFailure,
>)
    ensures
        match result {
            Ok(row) => outcome == Ok::<Record, StoreFailure>(Record::Player(row)),
            Err(failure) => outcome == Err::<Record, StoreFailure>(failure),
        },
{
    match result {
        Ok(row) => Ok(Record::Player(row)),
        Err(failure) => Err(failure),
    }
}

/// A statement's result on plays as the reply takes it.
pub fn play_outcome(result: Result<PlayModel, StoreFailure>) -> (outcome: Result<
    Record,
    StoreFailure,
>)
    ensures
        match result {
            Ok(row) => outcome == Ok::<Record, StoreFailure>(Record::Play(row)),
            Err(failure) => outcome == Err::<Record, StoreFailure>(failure),
        },
{
    match result {
        Ok(row) => Ok(Record::Play(row)),
        Err(failure) => Err(failure),
    }
}

/// A statement's result on participant rows as the reply takes it.
pub fn participant_outcome(result: Result<PlayParticipantModel, StoreFailure>) -> (outcome: Result<
    Record,
    StoreFailure,
>)
    ensures
        match result {
            Ok(row) => outcome == Ok::<Record, StoreFailure>(Record::PlayParticipant(row)),
            Err(failure) => outcome == Err::<Record, StoreFailure>(failure),
        },
{
    match result {
        Ok(row) => Ok(Record::PlayParticipant(row)),
        Err(failure) => Err(failure),
    }
}

/// Why a row of this kind could not be created next to the rows that exist.
pub open spec fn conflict_message(entity: Entity, kind: FailureKind) -> Seq<char> {
    match entity {
        Entity::Game => "Game already exists"@,
        Entity::Player => if kind == FailureKind::OwnerViolation {
            "Only one owner is allowed"@
        } else {
            "Player name already exists"@
        },
        Entity::Play => "Play already exists"@,
        Entity::PlayParticipant => "Play participant already exists"@,
    }
}

/// The message for a key that names no row.
pub open spec fn not_found_message(entity: Entity, key: Key) -> Seq<char> {
    entity.title() + " with ID: "@ + key.text() + " not found"@
}

/// A failure of the store that no rule of the operations accounts for: the
/// status code 500 with the store's diagnostic text.
pub open spec fn store_fault(failure: FailureView) -> (StatusCode, EnvelopeView) {
    (
        StatusCode::InternalServerError,
        EnvelopeView::Fault { status: FaultStatus::Error, message: failure.detail },
    )
}

/// What a failed creation is answered with: a conflict where a uniqueness
/// rule was violated, and a failure of the store otherwise.
pub open spec fn create_fault(entity: Entity, failure: FailureView) -> (StatusCode, EnvelopeView) {
    if failure.kind == FailureKind::UniqueViolation || failure.kind
        == FailureKind::OwnerViolation {
        (
            StatusCode::Conflict,
            EnvelopeView::Fault {
                status: FaultStatus::Error,
                message: conflict_message(entity, failure.kind),
            },
        )
    } else {
        store_fault(failure)
    }
}

/// What a failed lookup by key is answered with: not found, under the given
/// status word, where no row has the key, and a failure of the store
/// otherwise.
pub open spec fn lookup_fault(
    entity: Entity,
    key: Key,
    status: FaultStatus,
    failure: FailureView,
) -> (StatusCode, EnvelopeView) {
    if failure.kind == FailureKind::RowNotFound {
        (StatusCode::NotFound, EnvelopeView::Fault { status, message: not_found_message(entity, key) })
    } else {
        store_fault(failure)
    }
}

/// The reply to a creation.
pub open spec fn created_reply(entity: Entity, outcome: Result<RecordView, FailureView>) -> ReplyView {
    match outcome {
        Ok(record) => Ok(EnvelopeView::Row { record }),
        Err(failure) => Err(create_fault(entity, failure)),
    }
}

/// The reply to a listing.
pub open spec fn listed_reply(outcome: Result<RecordsView, FailureView>) -> ReplyView {
    match outcome {
        Ok(records) => Ok(EnvelopeView::List { count: records.len() as usize, records }),
        Err(failure) => Err(store_fault(failure)),
    }
}

/// The reply to a lookup by key.
pub open spec fn fetched_reply(
    entity: Entity,
    key: Key,
    outcome: Result<RecordView, FailureView>,
) -> ReplyView {
    match outcome {
        Ok(record) => Ok(EnvelopeView::Row { record }),
        Err(failure) => Err(lookup_fault(entity, key, FaultStatus::Fail, failure)),
    }
}

/// The reply to a deletion.
pub open spec fn deleted_reply(
    entity: Entity,
    key: Key,
    outcome: Result<RecordView, FailureView>,
) -> ReplyView {
    match outcome {
        Ok(record) => Ok(EnvelopeView::Row { record }),
        Err(failure) => Err(lookup_fault(entity, key, FaultStatus::Error, failure)),
    }
}

/// The reply to the write of a change: every failure is one of the store.
pub open spec fn updated_reply(outcome: Result<RecordView, FailureView>) -> ReplyView {
    match outcome {
        Ok(record) => Ok(EnvelopeView::Row { record }),
        Err(failure) => Err(store_fault(failure)),
    }
}

/// The fault for a failure of the store.
fn store_fault_of(failure: StoreFailure) -> (fault: (StatusCode, Envelope))
    ensures
        (fault.0, fault.1@) == store_fault(failure@),
{
    (
        StatusCode::InternalServerError,
        Envelope::Fault { status: FaultStatus::Error, message: failure.detail },
    )
}

/// The fault for a failed lookup by key.
fn lookup_fault_of(entity: Entity, key: Key, status: FaultStatus, failure: StoreFailure) -> (fault:
    (StatusCode, Envelope))
    ensures
        (fault.0, fault.1@) == lookup_fault(entity, key, status, failure@),
{
    match failure.kind {
        FailureKind::RowNotFound => {
            let key_text = key.to_text();
            let message = String::from_str(entity.title_name()).concat(" with ID: ").concat(
                key_text.as_str(),
            ).concat(" not found");
            (StatusCode::NotFound, Envelope::Fault { status, message })
        },
        _ => store_fault_of(failure),
    }
}

/// The fault for a failed creation.
fn create_fault_of(entity: Entity, failure: StoreFailure) -> (fault: (StatusCode, Envelope))
    ensures
        (fault.0, fault.1@) == create_fault(entity, failure@),
{
    match failure.kind {
        FailureKind::UniqueViolation | FailureKind::OwnerViolation => {
            let text = match entity {
                Entity::Game => "Game already exists",
                Entity::Player => match failure.kind {
                    FailureKind::OwnerViolation => "Only one owner is allowed",
                    _ => "Player name already exists",
                },
                Entity::Play => "Play already exists",
                Entity::PlayParticipant => "Play participant already exists",
            };
            (
                StatusCode::Conflict,
                Envelope::Fault { status: FaultStatus::Error, message: String::from_str(text) },
            )
        },
        _ => store_fault_of(failure),
    }
}

/// The reply to a creation: the row, a conflict where a uniqueness rule was
/// violated, and a failure of the store otherwise.
pub fn created(entity: Entity, outcome: Result<Record, StoreFailure>) -> (reply: Reply)
    ensures
        reply_view(reply) == created_reply(entity, record_outcome(outcome)),
{
    match outcome {
        Ok(record) => Ok(Envelope::Row { record }),
        Err(failure) => Err(create_fault_of(entity, failure)),
    }
}

/// The reply to a listing: the rows with their count, or a failure of the
/// store.
pub fn listed(outcome: Result<Records, StoreFailure>) -> (reply: Reply)
    ensures
        reply_view(reply) == listed_reply(records_outcome(outcome)),
{
    match outcome {
        Ok(records) => {
            let count: usize = records.len();
            Ok(Envelope::List { count, records })
        },
        Err(failure) => Err(store_fault_of(failure)),
    }
}

/// The reply to a lookup by key: the row, not found under the status word
/// `fail`, or a failure of the store.
pub fn fetched(entity: Entity, key: Key, outcome: Result<Record, StoreFailure>) -> (reply: Reply)
    ensures
        reply_view(reply) == fetched_reply(entity, key, record_outcome(outcome)),
{
    match outcome {
        Ok(record) => Ok(Envelope::Row { record }),
        Err(failure) => Err(lookup_fault_of(entity, key, FaultStatus::Fail, failure)),
    }
}

/// The reply to a deletion: the row that was deleted, not found under the
/// status word `error`, or a failure of the store.
pub fn deleted(entity: Entity, key: Key, outcome: Result<Record, StoreFailure>) -> (reply: Reply)
    ensures
        reply_view(reply) == deleted_reply(entity, key, record_outcome(outcome)),
{
    match outcome {
        Ok(record) => Ok(Envelope::Row { record }),
        Err(failure) => Err(lookup_fault_of(entity, key, FaultStatus::Error, failure)),
    }
}

/// What the lookup that precedes a change gives: the row to change, or the
/// reply that ends the request, which is not found under the status word
/// `error` or a failure of the store.
pub fn found<M: View>(entity: Entity, key: Key, outcome: Result<M, StoreFailure>) -> (step: Result<
    M,
    (StatusCode, Envelope),
>)
    ensures
        match step {
            Ok(row) => outcome == Ok::<M, StoreFailure>(row),
            Err((code, body)) => outcome is Err && (code, body@) == lookup_fault(
                entity,
                key,
                FaultStatus::Error,
                outcome->Err_0@,
            ),
        },
{
    match outcome {
        Ok(row) => Ok(row),
        Err(failure) => Err(lookup_fault_of(entity, key, FaultStatus::Error, failure)),
    }
}

/// The reply to the write of a change: the row as it stands now, or a
/// failure of the store.
pub fn updated(outcome: Result<Record, StoreFailure>) -> (reply: Reply)
    ensures
        reply_view(reply) == updated_reply(record_outcome(outcome)),
{
    match outcome {
        Ok(record) => Ok(Envelope::Row { record }),
        Err(failure) => Err(store_fault_of(failure)),
    }
}

} // verus!
