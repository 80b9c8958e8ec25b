use schedule_auth::error::APIError;
use schedule_auth::middleware::authentication::Authentication;
use schedule_auth::middleware::context::RequestContext;
use schedule_auth::middleware::lesson_permission::CheckLessonPermission;
use schedule_auth::middleware::permission::{authorize, CheckPermission};
use schedule_auth::middleware::teacher_permission::CheckTeacherPermission;
use schedule_auth::model::account::AccountID;
use schedule_auth::model::lesson::LessonID;
use schedule_auth::model::permission::{
    begin_resolution, owner_grant, resolve_step, EntityPermission, LessonPermission,
    PermissionError,
    PermissionType, PgPermissionType, Resolution, StoreAnswer, StoreQuestion, TeacherPermission,
};
use schedule_auth::model::statements::{
    exists_statement, grant_statement, insert_rows, insert_statement, lesson_update_statement,
    save_statement, teacher_update_statement, OccurrenceKind,
};
use schedule_auth::model::teacher::TeacherID;
use schedule_auth::model::templated_insert;
use schedule_auth::token::bearer::AuthorizationHeader;
use schedule_auth::token::{generate_token_pair_at, ApplicationToken, RefreshTokenID};
use std::collections::{HashMap, HashSet};

const SECRET: &str = "some-secret";
const U1: AccountID = AccountID(1);
const U2: AccountID = AccountID(2);
const R1: LessonID = LessonID(100);
const NOW: i64 = 1_600_000_000;

/// A store of lessons and grants.
struct Store {
    lessons: HashSet<u128>,
    grants: HashMap<(AccountID, u128), PermissionType>,
}

impl Store {
    fn new() -> Store {
        Store { lessons: HashSet::new(), grants: HashMap::new() }
    }

    fn create(&mut self, owner: AccountID, lesson: LessonID) {
        let grant: LessonPermission = owner_grant(lesson, owner);
        self.lessons.insert(grant.lesson_id.0);
        self.grants.insert((grant.account_id, grant.lesson_id.0), grant.permission_type);
    }

    fn answer(&self, question: StoreQuestion, account: AccountID, lesson: LessonID) -> StoreAnswer {
        match question {
            StoreQuestion::EntityExists => StoreAnswer::Exists(self.lessons.contains(&lesson.0)),
            StoreQuestion::GrantOf => StoreAnswer::Grant(
                self.grants.get(&(account, lesson.0)).map(|level| level.into_stored()),
            ),
        }
    }

    fn resolve(&self, account: AccountID, lesson: LessonID) -> Result<PermissionType, PermissionError> {
        let mut state = begin_resolution();
        loop {
            match state {
                Resolution::Asking(question) => {
                    state = LessonPermission::type_of_entity(
                        question,
                        self.answer(question, account, lesson),
                    );
                }
                Resolution::Finished(outcome) => return outcome,
            }
        }
    }
}

fn authenticated(account: AccountID) -> RequestContext<LessonPermission> {
    let (access, _) = generate_token_pair_at(account, RefreshTokenID(9), SECRET, NOW).unwrap();
    let header = AuthorizationHeader::Value(format!("Bearer {}", access.str_ref()));
    Authentication.call_at(RequestContext::new(), &header, SECRET, NOW).unwrap()
}

fn request(
    store: &Store,
    account: AccountID,
    lesson: LessonID,
    stage: &CheckPermission<LessonPermission>,
) -> Result<RequestContext<LessonPermission>, APIError> {
    let ctx = authenticated(account).with_entity(lesson);
    let (account, lesson) = stage.subject(&ctx)?;
    let resolved = store.resolve(account, lesson);
    stage.call(ctx, resolved)
}

#[test]
fn missing_lesson_comes_before_missing_grant() {
    let mut store = Store::new();
    assert!(matches!(store.resolve(U1, R1), Err(PermissionError::EntityNotPresent)));
    store.grants.insert((U1, R1.0), PermissionType::Read);
    assert!(matches!(store.resolve(U1, R1), Err(PermissionError::EntityNotPresent)));
    store.grants.clear();
    store.lessons.insert(R1.0);
    assert!(matches!(store.resolve(U1, R1), Err(PermissionError::PermissionNotPresent)));
    store.grants.insert((U1, R1.0), PermissionType::Read);
    assert!(matches!(store.resolve(U1, R1), Ok(PermissionType::Read)));
    assert!(matches!(store.resolve(U2, R1), Err(PermissionError::PermissionNotPresent)));
}

#[test]
fn resolution_steps() {
    assert!(matches!(begin_resolution(), Resolution::Asking(StoreQuestion::EntityExists)));
    assert!(matches!(
        resolve_step(StoreQuestion::EntityExists, StoreAnswer::Exists(true)),
        Resolution::Asking(StoreQuestion::GrantOf)
    ));
    assert!(matches!(
        resolve_step(StoreQuestion::EntityExists, StoreAnswer::Exists(false)),
        Resolution::Finished(Err(PermissionError::EntityNotPresent))
    ));
    assert!(matches!(
        resolve_step(StoreQuestion::GrantOf, StoreAnswer::Grant(None)),
        Resolution::Finished(Err(PermissionError::PermissionNotPresent))
    ));
    assert!(matches!(
        resolve_step(StoreQuestion::GrantOf, StoreAnswer::Grant(Some(PgPermissionType::R))),
        Resolution::Finished(Ok(PermissionType::Read))
    ));
    assert!(matches!(
        resolve_step(StoreQuestion::GrantOf, StoreAnswer::Grant(Some(PgPermissionType::RW))),
        Resolution::Finished(Ok(PermissionType::ReadWrite))
    ));
    for question in [StoreQuestion::EntityExists, StoreQuestion::GrantOf] {
        match resolve_step(question, StoreAnswer::Failed("timeout".to_string())) {
            Resolution::Finished(Err(PermissionError::Sqlx(text))) => assert_eq!(text, "timeout"),
            _ => panic!("no failure"),
        }
    }
    match resolve_step(StoreQuestion::GrantOf, StoreAnswer::Exists(true)) {
        Resolution::Finished(Err(PermissionError::Sqlx(text))) => {
            assert_eq!(text, "the store answered another question than the one asked")
        }
        _ => panic!("no failure"),
    }
    assert!(matches!(
        resolve_step(StoreQuestion::EntityExists, StoreAnswer::Grant(None)),
        Resolution::Finished(Err(PermissionError::Sqlx(_)))
    ));
}

#[test]
fn read_grant_reads_and_does_not_write() {
    let read = LessonPermission::new(PermissionType::Read, R1, U1);
    let write = LessonPermission::new(PermissionType::ReadWrite, R1, U1);
    assert!(matches!(
        authorize(Some(PermissionType::ReadWrite), Ok(read)),
        Err(APIError::NoWriteAccess)
    ));
    assert_eq!(authorize(Some(PermissionType::Read), Ok(read)).unwrap(), read);
    assert_eq!(authorize(None, Ok(read)).unwrap(), read);
    assert_eq!(authorize(Some(PermissionType::ReadWrite), Ok(write)).unwrap(), write);
    assert_eq!(authorize(Some(PermissionType::Read), Ok(write)).unwrap(), write);
    assert!(matches!(
        authorize::<LessonPermission>(
            Some(PermissionType::Read),
            Err(PermissionError::PermissionNotPresent)
        ),
        Err(APIError::NoReadAccess)
    ));
    assert!(matches!(
        authorize::<LessonPermission>(
            Some(PermissionType::ReadWrite),
            Err(PermissionError::PermissionNotPresent)
        ),
        Err(APIError::NoReadAccess)
    ));
    assert!(matches!(
        authorize::<LessonPermission>(None, Err(PermissionError::EntityNotPresent)),
        Err(APIError::LessonDosNotExist)
    ));
    assert!(PermissionType::ReadWrite.allows(PermissionType::Read));
    assert!(PermissionType::ReadWrite.allows(PermissionType::ReadWrite));
    assert!(PermissionType::Read.allows(PermissionType::Read));
    assert!(!PermissionType::Read.allows(PermissionType::ReadWrite));
}

#[test]
fn older_stages_decide_alike() {
    let read = LessonPermission::new(PermissionType::Read, R1, U1);
    assert!(matches!(
        CheckLessonPermission::new(PermissionType::ReadWrite).check(Ok(read)),
        Err(APIError::NoWriteAccess)
    ));
    assert_eq!(CheckLessonPermission::new(PermissionType::Read).check(Ok(read)).unwrap(), read);
    assert_eq!(CheckLessonPermission::default().check(Ok(read)).unwrap(), read);
    let read = TeacherPermission::new(PermissionType::Read, TeacherID(5), U1);
    assert!(matches!(
        CheckTeacherPermission::new(PermissionType::ReadWrite).check(Ok(read)),
        Err(APIError::NoWriteAccess)
    ));
    assert_eq!(CheckTeacherPermission::default().check(Ok(read)).unwrap(), read);
    assert!(matches!(
        CheckTeacherPermission::new(PermissionType::Read)
            .check(Err(PermissionError::PermissionNotPresent)),
        Err(APIError::NoReadAccess)
    ));
    assert_eq!(read.permission(), PermissionType::Read);
    assert_eq!(read.teacher_id, TeacherID(5));
}

#[test]
fn creator_writes_and_stranger_does_not_read() {
    let mut store = Store::new();
    store.create(U1, R1);
    let reading = CheckPermission::<LessonPermission>::new(PermissionType::Read);
    let writing = CheckPermission::<LessonPermission>::new(PermissionType::ReadWrite);
    assert!(matches!(request(&store, U2, R1, &reading), Err(APIError::NoReadAccess)));
    let ctx = request(&store, U1, R1, &writing).unwrap();
    let grant = ctx.permission().unwrap();
    assert_eq!(grant.permission_type, PermissionType::ReadWrite);
    assert_eq!(grant.lesson_id, R1);
    assert_eq!(grant.account_id, U1);
    assert_eq!(ctx.account_id().unwrap(), U1);
    assert_eq!(ctx.entity_id().unwrap(), R1);
    assert!(matches!(
        request(&store, U1, LessonID(101), &reading),
        Err(APIError::LessonDosNotExist)
    ));
    store.grants.insert((U2, R1.0), PermissionType::Read);
    assert!(matches!(request(&store, U2, R1, &writing), Err(APIError::NoWriteAccess)));
    assert!(request(&store, U2, R1, &reading).is_ok());
    assert!(request(&store, U2, R1, &CheckPermission::default()).is_ok());
}

#[test]
fn stages_ask_for_what_earlier_stages_left() {
    let empty: RequestContext<LessonPermission> = RequestContext::new();
    let stage = CheckPermission::<LessonPermission>::new(PermissionType::Read);
    assert_eq!(stage.permission_type(), Some(PermissionType::Read));
    assert_eq!(CheckPermission::<LessonPermission>::default().permission_type(), None);
    match stage.subject(&empty) {
        Err(APIError::InternalError { message }) => {
            assert_eq!(message, "Error encountered while processing authentication request")
        }
        _ => panic!("no internal error"),
    }
    match stage.subject(&authenticated(U1)) {
        Err(APIError::InternalError { message }) => {
            assert_eq!(message, "Error encountered while extracting parameters")
        }
        _ => panic!("no internal error"),
    }
    match authenticated(U1).permission() {
        Err(APIError::InternalError { message }) => {
            assert_eq!(message, "Error encountered while processing permission checks")
        }
        _ => panic!("no internal error"),
    }
    match empty.claim() {
        Err(APIError::InternalError { message }) => {
            assert_eq!(message, "Error encountered while extracting parameters")
        }
        _ => panic!("no internal error"),
    }
    assert!(matches!(
        stage.call(RequestContext::new(), Ok(PermissionType::ReadWrite)),
        Err(APIError::InternalError { .. })
    ));
    assert_eq!(authenticated(U1).claim().unwrap().inner.account_id, U1);
}

#[test]
fn authentication_stage_ends_a_request_without_a_token() {
    let ctx: RequestContext<LessonPermission> = RequestContext::new();
    assert!(matches!(
        Authentication.call_at(ctx, &AuthorizationHeader::Absent, SECRET, NOW),
        Err(APIError::NoTokenPresent)
    ));
    let ctx: RequestContext<LessonPermission> = RequestContext::new();
    let header = AuthorizationHeader::Value("Bearer no.such.token".to_string());
    assert!(matches!(Authentication.call(ctx, &header, SECRET), Err(APIError::InvalidToken)));
    let (access, _) = generate_token_pair_at(U1, RefreshTokenID(9), SECRET, NOW).unwrap();
    let header = AuthorizationHeader::Value(format!("Bearer {}", access.str_ref()));
    let ctx: RequestContext<TeacherPermission> = RequestContext::new();
    assert!(matches!(
        Authentication.call_at(ctx.with_entity(TeacherID(3)), &header, SECRET, NOW + 300),
        Err(APIError::TokenExpired)
    ));
    let ctx: RequestContext<TeacherPermission> = RequestContext::new();
    let ctx = Authentication.call_at(ctx.with_entity(TeacherID(3)), &header, SECRET, NOW).unwrap();
    assert_eq!(ctx.entity_id().unwrap(), TeacherID(3));
    assert_eq!(ctx.account_id().unwrap(), U1);
}

#[test]
fn grant_is_made_of_what_was_resolved() {
    let grant = TeacherPermission::of_entity(U1, TeacherID(4), Ok(PermissionType::Read)).unwrap();
    assert_eq!(grant, TeacherPermission { permission_type: PermissionType::Read, teacher_id: TeacherID(4), account_id: U1 });
    assert!(matches!(
        LessonPermission::of_entity(U1, R1, Err(PermissionError::EntityNotPresent)),
        Err(PermissionError::EntityNotPresent)
    ));
    assert_eq!(PgPermissionType::R.into_level(), PermissionType::Read);
    assert_eq!(PgPermissionType::RW.into_level(), PermissionType::ReadWrite);
    assert_eq!(PermissionType::Read.into_stored(), PgPermissionType::R);
    assert_eq!(PermissionType::ReadWrite.into_stored(), PgPermissionType::RW);
    assert_eq!(PermissionType::Read.name(), "r");
    assert_eq!(PermissionType::ReadWrite.name(), "rw");
}

#[test]
fn statements_for_grants() {
    assert_eq!(exists_statement::<LessonPermission>(), "SELECT EXISTS (SELECT FROM Lesson WHERE id = $1)");
    assert_eq!(exists_statement::<TeacherPermission>(), "SELECT EXISTS (SELECT FROM Teacher WHERE id = $1)");
    assert_eq!(
        grant_statement::<LessonPermission>(),
        "SELECT type FROM LessonPermission WHERE lesson_id = $1 AND account_id = $2"
    );
    assert_eq!(
        grant_statement::<TeacherPermission>(),
        "SELECT type FROM TeacherPermission WHERE teacher_id = $1 AND account_id = $2"
    );
    assert_eq!(
        save_statement::<LessonPermission>(),
        "INSERT INTO LessonPermission (type, lesson_id, account_id) VALUES ($1, $2, $3)"
    );
    assert_eq!(
        save_statement::<TeacherPermission>(),
        "INSERT INTO TeacherPermission (type, teacher_id, account_id) VALUES ($1, $2, $3)"
    );
    assert_eq!(LessonPermission::entity_table(), "Lesson");
    assert_eq!(TeacherPermission::column_name(), "teacher_id");
    assert_eq!(TeacherPermission::permission_table(), "TeacherPermission");
}

#[test]
fn rows_of_placeholders() {
    assert_eq!(templated_insert(3, 0), "($1, $2, $3)");
    assert_eq!(templated_insert(3, 1), "($4, $5, $6)");
    assert_eq!(templated_insert(1, 9), "($10)");
    assert_eq!(templated_insert(0, 5), "()");
    assert_eq!(templated_insert(2, 49), "($99, $100)");
    assert_eq!(insert_rows(2, 0), "");
    assert_eq!(insert_rows(2, 1), "($1, $2)");
    assert_eq!(insert_rows(2, 3), "($1, $2),($3, $4),($5, $6)");
    assert_eq!(insert_statement(OccurrenceKind::Single, 0), None);
    assert_eq!(
        insert_statement(OccurrenceKind::Single, 2).unwrap(),
        "INSERT INTO SingleOccurrence (occurs_at, lesson_id) VALUES ($1, $2),($3, $4)"
    );
    assert_eq!(
        insert_statement(OccurrenceKind::Daily, 1).unwrap(),
        "INSERT INTO LessonDailyRepeat (scheduled_time, lesson_id, start_date, end_date) VALUES ($1, $2, $3, $4)"
    );
    assert_eq!(
        insert_statement(OccurrenceKind::Weekly, 1).unwrap(),
        "INSERT INTO LessonWeeklyRepeat (every, week_day, scheduled_time, lesson_id, start_date, end_date) VALUES ($1, $2, $3, $4, $5, $6)"
    );
    assert_eq!(
        insert_statement(OccurrenceKind::Monthly, 2).unwrap(),
        "INSERT INTO LessonMonthlyRepeat (every, scheduled_time, lesson_id, start_date, end_date) VALUES ($1, $2, $3, $4, $5),($6, $7, $8, $9, $10)"
    );
    assert_eq!(OccurrenceKind::Weekly.columns(), 6);
    assert_eq!(
        OccurrenceKind::Daily.select_statement(),
        "SELECT scheduled_time, start_date, end_date FROM LessonDailyRepeat WHERE lesson_id = $1"
    );
    assert_eq!(
        OccurrenceKind::Monthly.delete_statement(),
        "DELETE FROM LessonMonthlyRepeat WHERE lesson_id = $1"
    );
}

#[test]
fn statements_for_changes() {
    assert_eq!(teacher_update_statement(false, false, false), None);
    assert_eq!(
        teacher_update_statement(true, false, false),
        Some("UPDATE Teacher SET first_name = $1 WHERE id = $2")
    );
    assert_eq!(
        teacher_update_statement(false, true, true),
        Some("UPDATE Teacher SET last_name = $1,account_id = $2 WHERE id = $3")
    );
    assert_eq!(
        teacher_update_statement(true, true, true),
        Some("UPDATE Teacher SET first_name = $1,last_name = $2,account_id = $3 WHERE id = $4")
    );
    assert_eq!(lesson_update_statement(false, false), None);
    assert_eq!(lesson_update_statement(true, false), Some("UPDATE Lesson SET title = $2 WHERE id = $1"));
    assert_eq!(
        lesson_update_statement(false, true),
        Some("UPDATE Lesson SET description = $2 WHERE id = $1")
    );
    assert_eq!(
        lesson_update_statement(true, true),
        Some("UPDATE Lesson SET title = $2, description = $3 WHERE id = $1")
    );
}

#[test]
fn maker_is_granted_reading_and_writing() {
    let grant: LessonPermission = owner_grant(R1, U1);
    assert_eq!(
        grant,
        LessonPermission { permission_type: PermissionType::ReadWrite, lesson_id: R1, account_id: U1 }
    );
    let grant: TeacherPermission = owner_grant(TeacherID(4), U2);
    assert_eq!(grant.permission(), PermissionType::ReadWrite);
    assert_eq!(grant.teacher_id, TeacherID(4));
    assert_eq!(grant.account_id, U2);
}
