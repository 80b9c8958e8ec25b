//! Who may do what with a lesson or a teacher: the levels of access, the
//! grants, and how a grant is resolved against the store.

use vstd::prelude::*;
use crate::error::{APIError, APIErrorView};
use crate::model::account::AccountID;
use crate::model::lesson::LessonID;
use crate::model::teacher::TeacherID;

verus! {

/// A level of access as the store holds it.
#[derive(Debug, Clone, Copy, PartialEq, Eq, Structural)]
pub enum PgPermissionType {
    R,
    RW,
}

/// A level of access. Writing includes reading; reading does not include
/// writing.
#[derive(Debug, Clone, Copy, PartialEq, Eq, Structural)]
pub enum PermissionType {
    Read,
    ReadWrite,
}

impl PgPermissionType {
    /// The level that the store holds as this.
    pub open spec fn level(self) -> PermissionType {
        match self {
            PgPermissionType::R => PermissionType::Read,
            PgPermissionType::RW => PermissionType::ReadWrite,
        }
    }

    /// The level that the store holds as this.
    pub fn into_level(self) -> (pt: PermissionType)
        ensures
            pt == self.level(),
    {
        match self {
            PgPermissionType::R => PermissionType::Read,
            PgPermissionType::RW => PermissionType::ReadWrite,
        }
    }
}

impl PermissionType {
    /// How the store holds the level.
    pub open spec fn stored(self) -> PgPermissionType {
        match self {
            PermissionType::Read => PgPermissionType::R,
            PermissionType::ReadWrite => PgPermissionType::RW,
        }
    }

    /// How the store holds the level.
    pub fn into_stored(self) -> (pt: PgPermissionType)
        ensures
            pt == self.stored(),
    {
        match self {
            PermissionType::Read => PgPermissionType::R,
            PermissionType::ReadWrite => PgPermissionType::RW,
        }
    }

    /// Whether this level is enough where `required` is asked for.
    pub open spec fn covers(self, required: PermissionType) -> bool {
        self == PermissionType::ReadWrite || required == PermissionType::Read
    }

    /// Whether this level is enough where `required` is asked for.
    pub fn allows(self, required: PermissionType) -> (res: bool)
        ensures
            res == self.covers(required),
    {
        match (self, required) {
            (PermissionType::ReadWrite, _) => true,
            (PermissionType::Read, PermissionType::Read) => true,
            (PermissionType::Read, PermissionType::ReadWrite) => false,
        }
    }

    /// The name of the level on the wire.
    pub open spec fn name_text(self) -> Seq<char> {
        match self {
            PermissionType::Read => "r"@,
            PermissionType::ReadWrite => "rw"@,
        }
    }

    pub fn name(self) -> (s: &'static str)
        ensures
            s@ == self.name_text(),
    {
        match self {
            PermissionType::Read => "r",
            PermissionType::ReadWrite => "rw",
        }
    }
}

/// Why no grant was resolved.
#[derive(Debug, Clone)]
pub enum PermissionError {
    /// The lesson or teacher is not in the store.
    EntityNotPresent,
    /// It is, and the account has no grant for it.
    PermissionNotPresent,
    /// The store failed; the text says how.
    Sqlx(String),
}

/// A `PermissionError` as a value.
pub enum PermissionErrorView {
    EntityNotPresent,
    PermissionNotPresent,
    Sqlx(Seq<char>),
}

impl View for PermissionError {
    type V = PermissionErrorView;

    open spec fn view(&self) -> PermissionErrorView {
        match self {
            PermissionError::EntityNotPresent => PermissionErrorView::EntityNotPresent,
            PermissionError::PermissionNotPresent => PermissionErrorView::PermissionNotPresent,
            PermissionError::Sqlx(text) => PermissionErrorView::Sqlx(text@),
        }
    }
}

impl PermissionErrorView {
    /// The error that a caller sees: a missing lesson or teacher does not
    /// exist, a missing grant is no read access, and a failure of the store
    /// is an internal error with the store's text. Only the last holds
    /// anything of the store.
    pub open spec fn api_error(self) -> APIErrorView {
        match self {
            PermissionErrorView::EntityNotPresent => APIErrorView::LessonDosNotExist,
            PermissionErrorView::PermissionNotPresent => APIErrorView::NoReadAccess,
            PermissionErrorView::Sqlx(text) => APIErrorView::InternalError { message: text },
        }
    }

    /// The message for people.
    pub open spec fn message(self) -> Seq<char> {
        match self {
            PermissionErrorView::EntityNotPresent => "Entity not present"@,
            PermissionErrorView::PermissionNotPresent => "Permission not present"@,
            PermissionErrorView::Sqlx(text) => "sqlx error occurred while fetching permission ("@
                + text + ")"@,
        }
    }
}

impl PermissionError {
    /// The message for people.
    pub fn message(&self) -> (s: String)
        ensures
            s@ == self@.message(),
    {
        match self {
            PermissionError::EntityNotPresent => "Entity not present".to_owned(),
            PermissionError::PermissionNotPresent => "Permission not present".to_owned(),
            PermissionError::Sqlx(text) => {
                let mut s = "sqlx error occurred while fetching permission (".to_owned();
                vstd::string::StringExecFns::append(&mut s, text.as_str());
                vstd::string::StringExecFns::append(&mut s, ")");
                s
            },
        }
    }
}

impl APIError {
    /// The error that a caller sees where no grant was resolved.
    pub fn from_permission_error(error: PermissionError) -> (e: APIError)
        ensures
            e@ == error@.api_error(),
    {
        match error {
            PermissionError::EntityNotPresent => APIError::LessonDosNotExist,
            PermissionError::PermissionNotPresent => APIError::NoReadAccess,
            PermissionError::Sqlx(text) => APIError::InternalError { message: text },
        }
    }
}

/// What the resolver asks the store next.
#[derive(Debug, Clone, Copy, PartialEq, Eq, Structural)]
pub enum StoreQuestion {
    /// Is there a row for the lesson or teacher?
    EntityExists,
    /// Which level does the grant of the account for it have, if there is
    /// one?
    GrantOf,
}

/// What the store says to a question.
#[derive(Debug, Clone)]
pub enum StoreAnswer {
    /// Whether there is a row for the lesson or teacher.
    Exists(bool),
    /// The level of the grant, if there is one.
    Grant(Option<PgPermissionType>),
    /// The store failed; the text says how.
    Failed(String),
}

/// A `StoreAnswer` as a value.
pub enum StoreAnswerView {
    Exists(bool),
    Grant(Option<PgPermissionType>),
    Failed(Seq<char>),
}

impl View for StoreAnswer {
    type V = StoreAnswerView;

    open spec fn view(&self) -> StoreAnswerView {
        match self {
            StoreAnswer::Exists(b) => StoreAnswerView::Exists(*b),
            StoreAnswer::Grant(g) => StoreAnswerView::Grant(*g),
            StoreAnswer::Failed(text) => StoreAnswerView::Failed(text@),
        }
    }
}

/// Where a resolution stands: which question is open, or how it ended.
#[derive(Debug)]
pub enum Resolution {
    /// The question is open.
    Asking(StoreQuestion),
    /// The resolution ended with this result.
    Finished(Result<PermissionType, PermissionError>),
}

/// A `Resolution` as a value.
pub enum ResolutionView {
    Asking(StoreQuestion),
    Finished(Result<PermissionType, PermissionErrorView>),
}

impl View for Resolution {
    type V = ResolutionView;

    open spec fn view(&self) -> ResolutionView {
        match self {
            Resolution::Asking(q) => ResolutionView::Asking(*q),
            Resolution::Finished(Ok(p)) => ResolutionView::Finished(Ok(*p)),
            Resolution::Finished(Err(e)) => ResolutionView::Finished(Err(e@)),
        }
    }
}

/// The text of the error for an answer that is not one to the open
/// question.
pub const OUT_OF_TURN: &'static str = "the store answered another question than the one asked";

/// How a resolution goes on when the store has answered the open question.
/// A missing row ends it with `EntityNotPresent` before any grant is looked
/// at; with a row, the grant is asked for, and a missing grant ends it with
/// `PermissionNotPresent`. A failure of the store ends it with the store's
/// text. An answer to another question than the open one ends it as a
/// failure of the store.
pub open spec fn next_resolution(question: StoreQuestion, answer: StoreAnswerView) -> ResolutionView {
    match (question, answer) {
        (_, StoreAnswerView::Failed(text)) => ResolutionView::Finished(
            Err(PermissionErrorView::Sqlx(text)),
        ),
        (StoreQuestion::EntityExists, StoreAnswerView::Exists(true)) => ResolutionView::Asking(
            StoreQuestion::GrantOf,
        ),
        (StoreQuestion::EntityExists, StoreAnswerView::Exists(false)) => ResolutionView::Finished(
            Err(PermissionErrorView::EntityNotPresent),
        ),
        (StoreQuestion::GrantOf, StoreAnswerView::Grant(Some(level))) => ResolutionView::Finished(
            Ok(level.level()),
        ),
        (StoreQuestion::GrantOf, StoreAnswerView::Grant(None)) => ResolutionView::Finished(
            Err(PermissionErrorView::PermissionNotPresent),
        ),
        _ => ResolutionView::Finished(Err(PermissionErrorView::Sqlx(OUT_OF_TURN@))),
    }
}

/// How a resolution begins: by asking whether the row is there.
pub fn begin_resolution() -> (r: Resolution)
    ensures
        r@ == ResolutionView::Asking(StoreQuestion::EntityExists),
{
    Resolution::Asking(StoreQuestion::EntityExists)
}

/// How a resolution goes on when the store has answered the open question.
pub fn resolve_step(question: StoreQuestion, answer: StoreAnswer) -> (r: Resolution)
    ensures
        r@ == next_resolution(question, answer@),
{
    match answer {
        StoreAnswer::Failed(text) => Resolution::Finished(Err(PermissionError::Sqlx(text))),
        StoreAnswer::Exists(exists) => match question {
            StoreQuestion::EntityExists => if exists {
                Resolution::Asking(StoreQuestion::GrantOf)
            } else {
                Resolution::Finished(Err(PermissionError::EntityNotPresent))
            },
            StoreQuestion::GrantOf => Resolution::Finished(
                Err(PermissionError::Sqlx(OUT_OF_TURN.to_owned())),
            ),
        },
        StoreAnswer::Grant(grant) => match question {
            StoreQuestion::GrantOf => match grant {
                Some(level) => Resolution::Finished(Ok(level.into_level())),
                None => Resolution::Finished(Err(PermissionError::PermissionNotPresent)),
            },
            StoreQuestion::EntityExists => Resolution::Finished(
                Err(PermissionError::Sqlx(OUT_OF_TURN.to_owned())),
            ),
        },
    }
}

/// What a store holds that a resolution reads: which lessons or teachers
/// there are, and the level of every grant, by account and by lesson or
/// teacher. No pair has more than one grant.
pub struct GrantStore {
    pub entities: Set<u128>,
    pub grants: Map<(AccountID, u128), PermissionType>,
}

impl GrantStore {
    /// What a store that does not fail says to a question about an account
    /// and a lesson or teacher.
    pub open spec fn answer(self, question: StoreQuestion, account_id: AccountID, entity: u128) -> StoreAnswerView {
        match question {
            StoreQuestion::EntityExists => StoreAnswerView::Exists(self.entities.contains(entity)),
            StoreQuestion::GrantOf => StoreAnswerView::Grant(
                if self.grants.contains_key((account_id, entity)) {
                    Some(self.grants[(account_id, entity)].stored())
                } else {
                    None
                },
            ),
        }
    }

    /// How a resolution ends against a store that does not fail: the first
    /// question is answered, and the second if the first led to it.
    pub open spec fn resolve(self, account_id: AccountID, entity: u128) -> Result<
        PermissionType,
        PermissionErrorView,
    > {
        match next_resolution(
            StoreQuestion::EntityExists,
            self.answer(StoreQuestion::EntityExists, account_id, entity),
        ) {
            ResolutionView::Finished(outcome) => outcome,
            ResolutionView::Asking(question) => match next_resolution(
                question,
                self.answer(question, account_id, entity),
            ) {
                ResolutionView::Finished(outcome) => outcome,
                ResolutionView::Asking(_) => Err(PermissionErrorView::Sqlx(OUT_OF_TURN@)),
            },
        }
    }

    /// The store after a lesson or teacher was made by `owner`: the row is
    /// there, and with it the owner's grant to read and write.
    pub open spec fn with_created(self, owner: AccountID, entity: u128) -> GrantStore {
        GrantStore {
            entities: self.entities.insert(entity),
            grants: self.grants.insert((owner, entity), PermissionType::ReadWrite),
        }
    }
}

/// A resolution against a store that does not fail ends in one of three
/// ways. Without the row it fails with `EntityNotPresent`, whether or not a
/// grant is there. With the row and without a grant of the account it fails
/// with `PermissionNotPresent`. With both it gives the level of the grant.
pub proof fn lemma_resolve(store: GrantStore, account_id: AccountID, entity: u128)
    ensures
        !store.entities.contains(entity) ==> store.resolve(account_id, entity) == Err::<
            PermissionType,
            PermissionErrorView,
        >(PermissionErrorView::EntityNotPresent),
        store.entities.contains(entity) && !store.grants.contains_key((account_id, entity))
            ==> store.resolve(account_id, entity) == Err::<PermissionType, PermissionErrorView>(
            PermissionErrorView::PermissionNotPresent,
        ),
        store.entities.contains(entity) && store.grants.contains_key((account_id, entity))
            ==> store.resolve(account_id, entity) == Ok::<PermissionType, PermissionErrorView>(
            store.grants[(account_id, entity)],
        ),
{
}

/// After a lesson or teacher was made, its owner resolves to reading and
/// writing, and an account without a grant to `PermissionNotPresent`.
pub proof fn lemma_created_resolves(
    store: GrantStore,
    owner: AccountID,
    other: AccountID,
    entity: u128,
)
    requires
        other != owner,
        !store.grants.contains_key((other, entity)),
    ensures
        store.with_created(owner, entity).resolve(owner, entity) == Ok::<
            PermissionType,
            PermissionErrorView,
        >(PermissionType::ReadWrite),
        store.with_created(owner, entity).resolve(other, entity) == Err::<
            PermissionType,
            PermissionErrorView,
        >(PermissionErrorView::PermissionNotPresent),
{
    lemma_resolve(store.with_created(owner, entity), owner, entity);
    lemma_resolve(store.with_created(owner, entity), other, entity);
}

/// A grant: a kind of record that says which level an account has for one
/// lesson or teacher, and where the store keeps such records.
pub trait EntityPermission: Sized + Copy {
    /// The identifier of what the grant is for.
    type EntityID: Copy;

    /// The level of the grant.
    spec fn level(&self) -> PermissionType;

    /// The grant with the given fields.
    spec fn granted(
        permission_type: PermissionType,
        entity_id: Self::EntityID,
        account_id: AccountID,
    ) -> Self;

    proof fn lemma_granted(
        permission_type: PermissionType,
        entity_id: Self::EntityID,
        account_id: AccountID,
    )
        ensures
            Self::granted(permission_type, entity_id, account_id).level() == permission_type,
    ;

    fn new(permission_type: PermissionType, entity_id: Self::EntityID, account_id: AccountID) -> (p:
        Self)
        ensures
            p == Self::granted(permission_type, entity_id, account_id),
    ;

    fn permission(&self) -> (level: PermissionType)
        ensures
            level == self.level(),
    ;

    /// The table of the lessons or teachers.
    spec fn entity_table_text() -> Seq<char>;

    /// The table of the grants.
    spec fn permission_table_text() -> Seq<char>;

    /// The column of the grants' table that holds the identifier of the
    /// lesson or teacher.
    spec fn column_name_text() -> Seq<char>;

    fn entity_table() -> (name: &'static str)
        ensures
            name@ == Self::entity_table_text(),
    ;

    fn permission_table() -> (name: &'static str)
        ensures
            name@ == Self::permission_table_text(),
    ;

    fn column_name() -> (name: &'static str)
        ensures
            name@ == Self::column_name_text(),
    ;

    /// The grant of an account for a lesson or teacher, from the level that
    /// was resolved; the error of the resolution where none was.
    fn of_entity(
        account_id: AccountID,
        entity_id: Self::EntityID,
        resolved: Result<PermissionType, PermissionError>,
    ) -> (res: Result<Self, PermissionError>)
        ensures
            match resolved {
                Ok(level) => res == Ok::<Self, PermissionError>(
                    Self::granted(level, entity_id, account_id),
                ),
                Err(e) => res matches Err(f) && f@ == e@,
            },
    {
        match resolved {
            Ok(level) => Ok(Self::new(level, entity_id, account_id)),
            Err(e) => Err(e),
        }
    }

    /// The level of the grant that a resolution has come to, once the store
    /// has answered the open question: see `next_resolution`.
    fn type_of_entity(question: StoreQuestion, answer: StoreAnswer) -> (r: Resolution)
        ensures
            r@ == next_resolution(question, answer@),
    {
        resolve_step(question, answer)
    }
}

/// The grant that the maker of a lesson or teacher gets for it, in the
/// transaction that makes it: to read and to write.
pub fn owner_grant<T: EntityPermission>(entity_id: T::EntityID, owner: AccountID) -> (grant: T)
    ensures
        grant == T::granted(PermissionType::ReadWrite, entity_id, owner),
{
    T::new(PermissionType::ReadWrite, entity_id, owner)
}

/// The grant of an account for a lesson.
#[derive(Debug, Clone, Copy, PartialEq, Eq, Structural)]
pub struct LessonPermission {
    pub permission_type: PermissionType,
    pub lesson_id: LessonID,
    pub account_id: AccountID,
}

/// The grant of an account for a teacher.
#[derive(Debug, Clone, Copy, PartialEq, Eq, Structural)]
pub struct TeacherPermission {
    pub permission_type: PermissionType,
    pub teacher_id: TeacherID,
    pub account_id: AccountID,
}

impl EntityPermission for LessonPermission {
    type EntityID = LessonID;

    open spec fn level(&self) -> PermissionType {
        self.permission_type
    }

    open spec fn granted(
        permission_type: PermissionType,
        entity_id: LessonID,
        account_id: AccountID,
    ) -> Self {
        LessonPermission { permission_type, lesson_id: entity_id, account_id }
    }

    proof fn lemma_granted(
        permission_type: PermissionType,
        entity_id: LessonID,
        account_id: AccountID,
    ) {
    }

    fn new(permission_type: PermissionType, entity_id: LessonID, account_id: AccountID) -> (p:
        Self) {
        LessonPermission { permission_type, lesson_id: entity_id, account_id }
    }

    fn permission(&self) -> (level: PermissionType) {
        self.permission_type
    }

    open spec fn entity_table_text() -> Seq<char> {
        "Lesson"@
    }

    open spec fn permission_table_text() -> Seq<char> {
        "LessonPermission"@
    }

    open spec fn column_name_text() -> Seq<char> {
        "lesson_id"@
    }

    fn entity_table() -> (name: &'static str) {
        "Lesson"
    }

    fn permission_table() -> (name: &'static str) {
        "LessonPermission"
    }

    fn column_name() -> (name: &'static str) {
        "lesson_id"
    }
}

impl EntityPermission for TeacherPermission {
    type EntityID = TeacherID;

    open spec fn level(&self) -> PermissionType {
        self.permission_type
    }

    open spec fn granted(
        permission_type: PermissionType,
        entity_id: TeacherID,
        account_id: AccountID,
    ) -> Self {
        TeacherPermission { permission_type, teacher_id: entity_id, account_id }
    }

    proof fn lemma_granted(
        permission_type: PermissionType,
        entity_id: TeacherID,
        account_id: AccountID,
    ) {
    }

    fn new(permission_type: PermissionType, entity_id: TeacherID, account_id: AccountID) -> (p:
        Self) {
        TeacherPermission { permission_type, teacher_id: entity_id, account_id }
    }

    fn permission(&self) -> (level: PermissionType) {
        self.permission_type
    }

    open spec fn entity_table_text() -> Seq<char> {
        "Teacher"@
    }

    open spec fn permission_table_text() -> Seq<char> {
        "TeacherPermission"@
    }

    open spec fn column_name_text() -> Seq<char> {
        "teacher_id"@
    }

    fn entity_table() -> (name: &'static str) {
        "Teacher"
    }

    fn permission_table() -> (name: &'static str) {
        "TeacherPermission"
    }

    fn column_name() -> (name: &'static str) {
        "teacher_id"
    }
}

} // verus!
