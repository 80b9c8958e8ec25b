//! The statements that are sent to the store, as texts.

use vstd::prelude::*;
use vstd::string::StringExecFns;
use crate::encoding::bytes::{all_ascii, ascii_text, ascii_text_string};
use crate::model::permission::EntityPermission;
use crate::model::{push_templated_row, templated_row};

verus! {

/// The question whether a lesson or teacher is there.
pub open spec fn exists_statement_text<T: EntityPermission>() -> Seq<char> {
    "SELECT EXISTS (SELECT FROM "@ + T::entity_table_text() + " WHERE id = $1)"@
}

/// The question for the level of a grant.
pub open spec fn grant_statement_text<T: EntityPermission>() -> Seq<char> {
    "SELECT type FROM "@ + T::permission_table_text() + " WHERE "@ + T::column_name_text()
        + " = $1 AND account_id = $2"@
}

/// The statement that writes a grant.
pub open spec fn save_statement_text<T: EntityPermission>() -> Seq<char> {
    "INSERT INTO "@ + T::permission_table_text() + " (type, "@ + T::column_name_text()
        + ", account_id) VALUES ($1, $2, $3)"@
}

/// The question whether a lesson or teacher is there. Its parameter is the
/// identifier.
pub fn exists_statement<T: EntityPermission>() -> (sql: String)
    ensures
        sql@ == exists_statement_text::<T>(),
{
    let mut sql = "SELECT EXISTS (SELECT FROM ".to_owned();
    sql.append(T::entity_table());
    sql.append(" WHERE id = $1)");
    sql
}

/// The question for the level of a grant. Its parameters are the identifier
/// of the lesson or teacher and that of the account.
pub fn grant_statement<T: EntityPermission>() -> (sql: String)
    ensures
        sql@ == grant_statement_text::<T>(),
{
    let mut sql = "SELECT type FROM ".to_owned();
    sql.append(T::permission_table());
    sql.append(" WHERE ");
    sql.append(T::column_name());
    sql.append(" = $1 AND account_id = $2");
    sql
}

/// The statement that writes a grant. Its parameters are the level, the
/// identifier of the lesson or teacher and that of the account.
pub fn save_statement<T: EntityPermission>() -> (sql: String)
    ensures
        sql@ == save_statement_text::<T>(),
{
    let mut sql = "INSERT INTO ".to_owned();
    sql.append(T::permission_table());
    sql.append(" (type, ");
    sql.append(T::column_name());
    sql.append(", account_id) VALUES ($1, $2, $3)");
    sql
}

/// The ways a lesson can occur.
#[derive(Debug, Clone, Copy, PartialEq, Eq, Structural)]
pub enum OccurrenceKind {
    Single,
    Daily,
    Weekly,
    Monthly,
}

impl OccurrenceKind {
    /// How many columns a row of the kind has.
    pub open spec fn width(self) -> nat {
        match self {
            OccurrenceKind::Single => 2,
            OccurrenceKind::Daily => 4,
            OccurrenceKind::Weekly => 6,
            OccurrenceKind::Monthly => 5,
        }
    }

    /// How the statement that writes rows of the kind begins.
    pub open spec fn insert_head_text(self) -> Seq<char> {
        match self {
            OccurrenceKind::Single => "INSERT INTO SingleOccurrence (occurs_at, lesson_id) VALUES "@,
            OccurrenceKind::Daily => "INSERT INTO LessonDailyRepeat (scheduled_time, lesson_id, start_date, end_date) VALUES "@,
            OccurrenceKind::Weekly => "INSERT INTO LessonWeeklyRepeat (every, week_day, scheduled_time, lesson_id, start_date, end_date) VALUES "@,
            OccurrenceKind::Monthly => "INSERT INTO LessonMonthlyRepeat (every, scheduled_time, lesson_id, start_date, end_date) VALUES "@,
        }
    }

    /// The question for the rows of a lesson.
    pub open spec fn select_text(self) -> Seq<char> {
        match self {
            OccurrenceKind::Single => "SELECT occurs_at FROM SingleOccurrence WHERE lesson_id = $1"@,
            OccurrenceKind::Daily => "SELECT scheduled_time, start_date, end_date FROM LessonDailyRepeat WHERE lesson_id = $1"@,
            OccurrenceKind::Weekly => "SELECT every, week_day, scheduled_time, start_date, end_date FROM LessonWeeklyRepeat WHERE lesson_id = $1"@,
            OccurrenceKind::Monthly => "SELECT every, scheduled_time, start_date, end_date FROM LessonMonthlyRepeat WHERE lesson_id = $1"@,
        }
    }

    /// The statement that removes the rows of a lesson.
    pub open spec fn delete_text(self) -> Seq<char> {
        match self {
            OccurrenceKind::Single => "DELETE FROM SingleOccurrence WHERE lesson_id = $1"@,
            OccurrenceKind::Daily => "DELETE FROM LessonDailyRepeat WHERE lesson_id = $1"@,
            OccurrenceKind::Weekly => "DELETE FROM LessonWeeklyRepeat WHERE lesson_id = $1"@,
            OccurrenceKind::Monthly => "DELETE FROM LessonMonthlyRepeat WHERE lesson_id = $1"@,
        }
    }

    pub fn columns(self) -> (n: usize)
        ensures
            n == self.width(),
    {
        match self {
            OccurrenceKind::Single => 2,
            OccurrenceKind::Daily => 4,
            OccurrenceKind::Weekly => 6,
            OccurrenceKind::Monthly => 5,
        }
    }

    pub fn insert_head(self) -> (sql: &'static str)
        ensures
            sql@ == self.insert_head_text(),
    {
        match self {
            OccurrenceKind::Single => "INSERT INTO SingleOccurrence (occurs_at, lesson_id) VALUES ",
            OccurrenceKind::Daily => "INSERT INTO LessonDailyRepeat (scheduled_time, lesson_id, start_date, end_date) VALUES ",
            OccurrenceKind::Weekly => "INSERT INTO LessonWeeklyRepeat (every, week_day, scheduled_time, lesson_id, start_date, end_date) VALUES ",
            OccurrenceKind::Monthly => "INSERT INTO LessonMonthlyRepeat (every, scheduled_time, lesson_id, start_date, end_date) VALUES ",
        }
    }

    /// The question for the rows of a lesson. Its parameter is the
    /// identifier of the lesson.
    pub fn select_statement(self) -> (sql: &'static str)
        ensures
            sql@ == self.select_text(),
    {
        match self {
            OccurrenceKind::Single => "SELECT occurs_at FROM SingleOccurrence WHERE lesson_id = $1",
            OccurrenceKind::Daily => "SELECT scheduled_time, start_date, end_date FROM LessonDailyRepeat WHERE lesson_id = $1",
            OccurrenceKind::Weekly => "SELECT every, week_day, scheduled_time, start_date, end_date FROM LessonWeeklyRepeat WHERE lesson_id = $1",
            OccurrenceKind::Monthly => "SELECT every, scheduled_time, start_date, end_date FROM LessonMonthlyRepeat WHERE lesson_id = $1",
        }
    }

    /// The statement that removes the rows of a lesson. Its parameter is
    /// the identifier of the lesson.
    pub fn delete_statement(self) -> (sql: &'static str)
        ensures
            sql@ == self.delete_text(),
    {
        match self {
            OccurrenceKind::Single => "DELETE FROM SingleOccurrence WHERE lesson_id = $1",
            OccurrenceKind::Daily => "DELETE FROM LessonDailyRepeat WHERE lesson_id = $1",
            OccurrenceKind::Weekly => "DELETE FROM LessonWeeklyRepeat WHERE lesson_id = $1",
            OccurrenceKind::Monthly => "DELETE FROM LessonMonthlyRepeat WHERE lesson_id = $1",
        }
    }
}

/// The first `count` rows of an insert with `size` columns, with a comma
/// between each two.
pub open spec fn templated_rows(size: nat, count: nat) -> Seq<u8>
    decreases count,
{
    if count == 0 {
        Seq::empty()
    } else if count == 1 {
        templated_row(size, 0)
    } else {
        templated_rows(size, (count - 1) as nat) + seq![44u8] + templated_row(
            size,
            (count - 1) as nat,
        )
    }
}

/// The statement that writes `count` rows of a kind; none where there is
/// nothing to write.
pub open spec fn insert_statement_text(kind: OccurrenceKind, count: nat) -> Option<Seq<char>> {
    if count == 0 {
        None
    } else {
        Some(kind.insert_head_text() + ascii_text(templated_rows(kind.width(), count)))
    }
}

/// The first `count` rows of an insert with `size` columns, with a comma
/// between each two: for two columns and two rows, `($1, $2),($3, $4)`.
pub fn insert_rows(size: usize, count: usize) -> (rows: String)
    requires
        count * size <= u64::MAX,
    ensures
        rows@ == ascii_text(templated_rows(size as nat, count as nat)),
{
    let mut out: Vec<u8> = Vec::new();
    let mut i: usize = 0;
    while i < count
        invariant
            i <= count,
            count * size <= u64::MAX,
            out@ == templated_rows(size as nat, i as nat),
            all_ascii(out@),
        decreases count - i,
    {
        let ghost before = out@;
        if i > 0 {
            out.push(44u8);
        }
        assert(all_ascii(out@)) by {
            assert forall|k: int| 0 <= k < out@.len() implies #[trigger] out@[k] < 128 by {
                if k < before.len() {
                    assert(out@[k] == before[k]);
                }
            }
        }
        proof {
            assert(i * size + size <= count * size) by (nonlinear_arith)
                requires
                    i < count,
                    0 <= size,
            ;
        }
        push_templated_row(&mut out, size, i);
        proof {
            if i == 0 {
                assert(out@ =~= templated_rows(size as nat, 1));
            } else {
                assert(out@ =~= templated_rows(size as nat, (i + 1) as nat));
            }
        }
        i += 1;
    }
    ascii_text_string(out)
}

/// The statement that writes `count` rows of a kind; none where there is
/// nothing to write. The parameters are the columns of the rows, row by
/// row.
pub fn insert_statement(kind: OccurrenceKind, count: usize) -> (sql: Option<String>)
    requires
        count * 6 <= u64::MAX,
    ensures
        match insert_statement_text(kind, count as nat) {
            Some(text) => sql matches Some(s) && s@ == text,
            None => sql is None,
        },
{
    if count == 0 {
        return None;
    }
    let rows = insert_rows(kind.columns(), count);
    let mut sql = kind.insert_head().to_owned();
    sql.append(rows.as_str());
    Some(sql)
}

/// The statement that changes a teacher, by what is to be changed: the
/// first name, the last name, the account. None where nothing is. The
/// parameters are the new values in that order, then the identifier of the
/// teacher.
pub open spec fn teacher_update_text(first_name: bool, last_name: bool, account: bool) -> Option<
    Seq<char>,
> {
    match (first_name, last_name, account) {
        (false, false, false) => None,
        (true, false, false) => Some("UPDATE Teacher SET first_name = $1 WHERE id = $2"@),
        (false, true, false) => Some("UPDATE Teacher SET last_name = $1 WHERE id = $2"@),
        (false, false, true) => Some("UPDATE Teacher SET account_id = $1 WHERE id = $2"@),
        (true, true, false) => Some(
            "UPDATE Teacher SET first_name = $1,last_name = $2 WHERE id = $3"@,
        ),
        (true, false, true) => Some(
            "UPDATE Teacher SET first_name = $1,account_id = $2 WHERE id = $3"@,
        ),
        (false, true, true) => Some(
            "UPDATE Teacher SET last_name = $1,account_id = $2 WHERE id = $3"@,
        ),
        (true, true, true) => Some(
            "UPDATE Teacher SET first_name = $1,last_name = $2,account_id = $3 WHERE id = $4"@,
        ),
    }
}

/// The statement that changes a teacher.
pub fn teacher_update_statement(first_name: bool, last_name: bool, account: bool) -> (sql: Option<
    &'static str,
>)
    ensures
        match teacher_update_text(first_name, last_name, account) {
            Some(text) => sql matches Some(s) && s@ == text,
            None => sql is None,
        },
{
    match (first_name, last_name, account) {
        (false, false, false) => None,
        (true, false, false) => Some("UPDATE Teacher SET first_name = $1 WHERE id = $2"),
        (false, true, false) => Some("UPDATE Teacher SET last_name = $1 WHERE id = $2"),
        (false, false, true) => Some("UPDATE Teacher SET account_id = $1 WHERE id = $2"),
        (true, true, false) => Some(
            "UPDATE Teacher SET first_name = $1,last_name = $2 WHERE id = $3",
        ),
        (true, false, true) => Some(
            "UPDATE Teacher SET first_name = $1,account_id = $2 WHERE id = $3",
        ),
        (false, true, true) => Some(
            "UPDATE Teacher SET last_name = $1,account_id = $2 WHERE id = $3",
        ),
        (true, true, true) => Some(
            "UPDATE Teacher SET first_name = $1,last_name = $2,account_id = $3 WHERE id = $4",
        ),
    }
}

/// The statement that changes the title or the description of a lesson, by
/// what is to be changed. None where nothing is. The parameters are the
/// identifier of the lesson, then the new values: the title before the
/// description.
pub open spec fn lesson_update_text(title: bool, description: bool) -> Option<Seq<char>> {
    match (title, description) {
        (true, true) => Some("UPDATE Lesson SET title = $2, description = $3 WHERE id = $1"@),
        (true, false) => Some("UPDATE Lesson SET title = $2 WHERE id = $1"@),
        (false, true) => Some("UPDATE Lesson SET description = $2 WHERE id = $1"@),
        (false, false) => None,
    }
}

/// The statement that changes the title or the description of a lesson.
pub fn lesson_update_statement(title: bool, description: bool) -> (sql: Option<&'static str>)
    ensures
        match lesson_update_text(title, description) {
            Some(text) => sql matches Some(s) && s@ == text,
            None => sql is None,
        },
{
    match (title, description) {
        (true, true) => Some("UPDATE Lesson SET title = $2, description = $3 WHERE id = $1"),
        (true, false) => Some("UPDATE Lesson SET title = $2 WHERE id = $1"),
        (false, true) => Some("UPDATE Lesson SET description = $2 WHERE id = $1"),
        (false, false) => None,
    }
}

} // verus!
