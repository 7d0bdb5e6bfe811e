//! The decisions of local storage: which migrations run, which stored values are
//! readable, which requests may change stored records. The SQLite connection that carries
//! them out lives with the application.
use crate::civil_date::is_canonical_date_text;
use crate::dto::{
    id_error, CivilDateInput, DailyPageDto, NoteBody, NoteDto, NoteId, NoteTitle,
    PlannerLineDescription, PlannerLineDto, PlannerLineId, PlannerLineTitle, SiblingKey,
    TaskTemplateBody, TaskTemplateDto, TaskTemplateId, TaskTemplateTitle, TimeOfDayMinutes,
    validate_id, validate_sibling_key, sibling_key_error, time_error, is_hyphenated_uuid, is_hex_byte,
    optional_description_text, optional_id_text, same_line, same_template,
};
use crate::error::{error_for, AppError, AppErrorCode};
use outline::stored_time;
use std::path::PathBuf;
use std::time::{Duration, SystemTime, UNIX_EPOCH};
use vstd::prelude::*;
use vstd::string::{StrSliceExecFns, StringExecFns};
use vstd::utf8::{encode_utf8, is_ascii_chars, is_ascii_chars_encode_utf8};

pub mod migrations;
pub mod outline;
pub mod templates;

pub use migrations::DATABASE_VERSION;

verus! {

pub const DATABASE_FILE_NAME: &'static str = "notes-planner.sqlite3";

/// The tables whose columns can be inspected.
pub enum TableName {
    DailyPages,
    UndatedNotes,
}

impl TableName {
    /// The SQL name of the table.
    pub fn sql_name(&self) -> (name: &'static str)
        ensures
            self is DailyPages ==> name@ == "daily_pages"@,
            self is UndatedNotes ==> name@ == "undated_notes"@,
    {
        match self {
            TableName::DailyPages => "daily_pages",
            TableName::UndatedNotes => "undated_notes",
        }
    }
}

/// A character with ASCII capitals folded to lower case.
pub open spec fn ascii_folded(c: char) -> char {
    if 'A' <= c <= 'Z' {
        ((c as u32) + 32) as char
    } else {
        c
    }
}

fn fold_ascii(c: char) -> (folded: char)
    ensures
        folded == ascii_folded(c),
{
    if 'A' <= c && c <= 'Z' {
        ((c as u8) + 32) as char
    } else {
        c
    }
}

/// Whether the journal mode that SQLite reports is write-ahead logging, `wal` in any case.
pub fn journal_mode_is_wal(mode: &str) -> (wal: bool)
    ensures
        wal == (mode@.len() == 3 && ascii_folded(mode@[0]) == 'w' && ascii_folded(mode@[1]) == 'a'
            && ascii_folded(mode@[2]) == 'l'),
{
    if mode.unicode_len() != 3 {
        return false;
    }
    fold_ascii(mode.get_char(0)) == 'w' && fold_ascii(mode.get_char(1)) == 'a' && fold_ascii(
        mode.get_char(2),
    ) == 'l'
}

#[verifier::external_type_specification]
#[verifier::external_body]
pub struct ExPathBuf(PathBuf);

/// How a database is opened: where, up to which schema version, and which failures are
/// injected for testing recovery.
pub struct DatabaseOptions {
    pub path: PathBuf,
    pub target_version: u32,
    pub injected_migration_failure: Option<u32>,
    pub injected_migration_failure_after_first_statement: Option<u32>,
    pub injected_write_failure: bool,
    pub injected_template_delete_failure: bool,
}

impl DatabaseOptions {
    /// The options for opening `path` at the current schema version, with no failures.
    pub fn for_path(path: PathBuf) -> (options: Self)
        ensures
            options.path == path,
            options.target_version == DATABASE_VERSION,
            options.injected_migration_failure is None,
            options.injected_migration_failure_after_first_statement is None,
            !options.injected_write_failure,
            !options.injected_template_delete_failure,
    {
        Self {
            path,
            target_version: DATABASE_VERSION,
            injected_migration_failure: None,
            injected_migration_failure_after_first_statement: None,
            injected_write_failure: false,
            injected_template_delete_failure: false,
        }
    }

    /// Stops migration at `target_version`.
    pub fn with_target_version(self, target_version: u32) -> (options: Self)
        ensures
            options == (Self { target_version, ..self }),
    {
        let mut options = self;
        options.target_version = target_version;
        options
    }

    /// Makes migration `version` fail before it runs.
    pub fn with_injected_migration_failure(self, version: u32) -> (options: Self)
        ensures
            options == (Self { injected_migration_failure: Some(version), ..self }),
    {
        let mut options = self;
        options.injected_migration_failure = Some(version);
        options
    }

    /// Makes migration `version` fail after its first statement.
    pub fn with_injected_migration_failure_after_first_statement(self, version: u32) -> (options:
        Self)
        ensures
            options == (Self {
                injected_migration_failure_after_first_statement: Some(version),
                ..self
            }),
    {
        let mut options = self;
        options.injected_migration_failure_after_first_statement = Some(version);
        options
    }

    /// Makes the daily-page write fail before it commits.
    pub fn with_injected_write_failure(self) -> (options: Self)
        ensures
            options == (Self { injected_write_failure: true, ..self }),
    {
        let mut options = self;
        options.injected_write_failure = true;
        options
    }

    /// Makes template deletion fail before it commits.
    pub fn with_injected_template_delete_failure(self) -> (options: Self)
        ensures
            options == (Self { injected_template_delete_failure: true, ..self }),
    {
        let mut options = self;
        options.injected_template_delete_failure = true;
        options
    }
}

// ---------------------------------------------------------------------------
// Timestamps
// ---------------------------------------------------------------------------
#[verifier::external_type_specification]
#[verifier::external_body]
pub struct ExSystemTime(SystemTime);

/// Reads the system clock: `SystemTime::now()`. Nothing is stated of the time it gives.
#[verifier::external_body]
pub(crate) fn system_now() -> (now: SystemTime) {
    SystemTime::now()
}

/// `SystemTime::duration_since(UNIX_EPOCH)`: the time elapsed since the epoch, `None` for a
/// time before it. Nothing is stated of the result, which depends on the clock.
#[verifier::external_body]
pub(crate) fn elapsed_since_unix_epoch(time: SystemTime) -> (elapsed: Option<Duration>) {
    match time.duration_since(UNIX_EPOCH) {
        Ok(elapsed) => Some(elapsed),
        Err(_) => None,
    }
}

/// `Duration::as_millis`: the whole milliseconds of a duration. Nothing is stated of the
/// value, which depends on the clock that measured the duration.
#[verifier::external_body]
fn whole_millis(elapsed: Duration) -> (millis: u128) {
    elapsed.as_millis()
}

/// A stored timestamp from milliseconds since the epoch: a clock before the epoch, or one
/// beyond what `i64` holds, is a write failure.
pub fn timestamp_from_millis(millis: Option<u128>) -> (result: Result<i64, AppError>)
    ensures
        result == match millis {
            Some(m) => if m <= i64::MAX {
                Ok::<i64, AppError>(m as i64)
            } else {
                Err(error_for(AppErrorCode::StorageWriteFailed))
            },
            None => Err(error_for(AppErrorCode::StorageWriteFailed)),
        },
{
    match millis {
        Some(m) => {
            if m <= 9_223_372_036_854_775_807u128 {
                Ok(m as i64)
            } else {
                Err(AppError::storage_write_failed())
            }
        },
        None => Err(AppError::storage_write_failed()),
    }
}

/// The current time in milliseconds since the epoch, for record timestamps.
pub fn now_ms() -> (result: Result<i64, AppError>)
    ensures
        result matches Ok(ms) ==> ms >= 0,
        result matches Err(e) ==> e == error_for(AppErrorCode::StorageWriteFailed),
{
    let millis = match elapsed_since_unix_epoch(system_now()) {
        Some(elapsed) => Some(whole_millis(elapsed)),
        None => None,
    };
    timestamp_from_millis(millis)
}

/// `Duration::as_secs`: the whole seconds of a duration. Nothing is stated of the value,
/// which depends on the clock that measured the duration.
#[verifier::external_body]
pub(crate) fn whole_seconds(elapsed: Duration) -> (seconds: u64) {
    elapsed.as_secs()
}

// ---------------------------------------------------------------------------
// Record identifiers
// ---------------------------------------------------------------------------
/// `getrandom::fill` on sixteen bytes: the system's random bytes, `None` when the system
/// cannot give any. The bytes are random; nothing is stated of them.
#[verifier::external_body]
fn random_bytes() -> (bytes: Option<[u8; 16]>) {
    let mut bytes = [0u8; 16];
    match getrandom::fill(&mut bytes) {
        Ok(()) => Some(bytes),
        Err(_) => None,
    }
}

/// The lower-case hexadecimal digit of `n`, for `0 <= n < 16`.
pub open spec fn lower_hex_digit(n: int) -> char {
    if n < 10 {
        (48 + n) as char
    } else {
        (87 + n) as char
    }
}

/// The bytes of the random (version 4) UUID built from sixteen random bytes: the version
/// nibble of byte 6 set to 4, the variant bits of byte 8 set to RFC 4122, the rest kept.
pub open spec fn version_4_bytes(bytes: Seq<u8>) -> Seq<u8> {
    bytes.update(6, (bytes[6] & 0x0f) | 0x40).update(8, (bytes[8] & 0x3f) | 0x80)
}

/// Two lower-case hexadecimal digits per byte, the high half first.
pub open spec fn lower_hex(bytes: Seq<u8>) -> Seq<char> {
    Seq::new(
        2 * bytes.len(),
        |i: int|
            lower_hex_digit(
                if i % 2 == 0 {
                    bytes[i / 2] / 16
                } else {
                    bytes[i / 2] % 16
                } as int,
            ),
    )
}

/// Thirty-two digits in groups of 8, 4, 4, 4 and 12, with hyphens between the groups.
pub open spec fn hyphenated_groups(digits: Seq<char>) -> Seq<char> {
    digits.subrange(0, 8) + seq!['-'] + digits.subrange(8, 12) + seq!['-'] + digits.subrange(
        12,
        16,
    ) + seq!['-'] + digits.subrange(16, 20) + seq!['-'] + digits.subrange(20, 32)
}

/// The text of the random UUID built from sixteen random bytes.
pub open spec fn random_uuid_text_of(bytes: Seq<u8>) -> Seq<char> {
    hyphenated_groups(lower_hex(version_4_bytes(bytes)))
}

/// Calls `uuid::Builder::from_random_bytes(bytes).into_uuid()` and formats the UUID with
/// `to_string()`. The builder sets the version and variant bits; `Display` prints the
/// bytes in order as lower-case hexadecimal, hyphenated 8-4-4-4-12.
#[verifier::external_body]
fn uuid_text_from_random(bytes: [u8; 16]) -> (text: String)
    ensures
        text@ == random_uuid_text_of(bytes@),
{
    uuid::Builder::from_random_bytes(bytes).into_uuid().to_string()
}

/// The text of a random UUID is spelt as a hyphenated UUID.
proof fn lemma_random_uuid_text_is_hyphenated(bytes: Seq<u8>)
    requires
        bytes.len() == 16,
    ensures
        is_hyphenated_uuid(encode_utf8(random_uuid_text_of(bytes))),
        random_uuid_text_of(bytes).len() == 36,
{
    let h = lower_hex(version_4_bytes(bytes));
    let t = random_uuid_text_of(bytes);
    assert(h.len() == 32);
    assert forall|j: int| 0 <= j < 32 implies is_hex_byte(#[trigger] h[j] as u8) && '\0'
        <= h[j] <= '\u{7f}' by {
        let v = version_4_bytes(bytes);
        let n: int = if j % 2 == 0 {
            v[j / 2] / 16
        } else {
            v[j / 2] % 16
        } as int;
        assert(0 <= n < 16);
    }
    let expected = Seq::new(
        36,
        |i: int|
            if i == 8 || i == 13 || i == 18 || i == 23 {
                '-'
            } else if i < 8 {
                h[i]
            } else if i < 13 {
                h[i - 1]
            } else if i < 18 {
                h[i - 2]
            } else if i < 23 {
                h[i - 3]
            } else {
                h[i - 4]
            },
    );
    assert(t =~= expected);
    assert(is_ascii_chars(t));
    is_ascii_chars_encode_utf8(t);
    let e = encode_utf8(t);
    assert forall|i: int| 0 <= i < 36 implies if i == 8 || i == 13 || i == 18 || i == 23 {
        #[trigger] e[i] == 45
    } else {
        is_hex_byte(e[i])
    } by {
        assert(t[i] as u8 == e[i]);
    }
}

/// A fresh identifier for a new note, planner line or template: a random UUID, which the
/// identifier checks accept. A system that gives no random bytes fails the write.
pub fn new_record_id() -> (result: Result<String, AppError>)
    ensures
        result matches Ok(id) ==> id_error(id@, false) is None && id_error(id@, true) is None,
        result matches Err(e) ==> e == error_for(AppErrorCode::StorageWriteFailed),
{
    let bytes = match random_bytes() {
        Some(bytes) => bytes,
        None => return Err(AppError::storage_write_failed()),
    };
    let id = uuid_text_from_random(bytes);
    proof {
        lemma_random_uuid_text_is_hyphenated(bytes@);
    }
    Ok(id)
}

// ---------------------------------------------------------------------------
// Checks made before a stored record is touched
// ---------------------------------------------------------------------------
/// A local time checked for storage: refused from 1440 minutes on, stored as an integer.
pub fn checked_time(value: Option<TimeOfDayMinutes>) -> (result: Result<Option<i64>, AppError>)
    ensures
        time_error(value) is Some ==> result == Err::<Option<i64>, AppError>(
            error_for(AppErrorCode::InvalidTimeOfDay),
        ),
        time_error(value) is None ==> result == Ok::<Option<i64>, AppError>(
            match value {
                Some(minutes) => Some(minutes.0 as i64),
                None => None,
            },
        ),
{
    match value {
        Some(minutes) => {
            if minutes.0 >= 1440 {
                Err(AppError::invalid_time_of_day())
            } else {
                Ok(Some(minutes.0 as i64))
            }
        },
        None => Ok(None),
    }
}

/// A planner-line identifier must be a UUID.
pub fn checked_identifier(id: &PlannerLineId) -> (result: Result<(), AppError>)
    ensures
        result is Ok <==> id_error(id.0@, false) is None,
        result matches Err(e) ==> e == error_for(AppErrorCode::InvalidIdentifier),
{
    validate_id(id.0.as_str(), false)
}

/// A template identifier must be a UUID.
pub fn checked_id(id: &str) -> (result: Result<(), AppError>)
    ensures
        result is Ok <==> id_error(id@, false) is None,
        result matches Err(e) ==> e == error_for(AppErrorCode::InvalidIdentifier),
{
    validate_id(id, false)
}

/// A sibling key must be non-empty ASCII letters and digits.
pub fn checked_key(key: &str) -> (result: Result<(), AppError>)
    ensures
        result is Ok <==> sibling_key_error(key@) is None,
        result matches Err(e) ==> e == error_for(AppErrorCode::InvalidSiblingKey),
{
    validate_sibling_key(key)
}

// ---------------------------------------------------------------------------
// Reading stored rows
// ---------------------------------------------------------------------------
/// A stored local time read back: it must fit the 16-bit minutes type.
pub fn read_time(value: Option<i64>) -> (result: Result<Option<TimeOfDayMinutes>, AppError>)
    ensures
        result == match value {
            Some(m) => if 0 <= m <= u16::MAX {
                Ok::<Option<TimeOfDayMinutes>, AppError>(Some(TimeOfDayMinutes(m as u16)))
            } else {
                Err(error_for(AppErrorCode::StorageReadFailed))
            },
            None => Ok(None),
        },
{
    match value {
        Some(minutes) => {
            if 0 <= minutes && minutes <= 65535 {
                Ok(Some(TimeOfDayMinutes(minutes as u16)))
            } else {
                Err(AppError::storage_read_failed())
            }
        },
        None => Ok(None),
    }
}

/// A stored date read back: it must still be a canonical civil date.
pub fn read_date(value: &str) -> (result: Result<CivilDateInput, AppError>)
    ensures
        result is Ok <==> is_canonical_date_text(value@),
        result matches Ok(date) ==> date@ == Some(value@),
        result matches Err(e) ==> e == error_for(AppErrorCode::StorageReadFailed),
{
    match CivilDateInput::parse(value) {
        Ok(date) => Ok(date),
        Err(_) => Err(AppError::storage_read_failed()),
    }
}

/// A daily page from its stored row.
pub fn daily_page_from_row(date: &str, content: String, created_at_ms: i64, updated_at_ms: i64) -> (result:
    Result<DailyPageDto, AppError>)
    ensures
        result is Ok <==> is_canonical_date_text(date@),
        result matches Ok(page) ==> page.date@ == Some(date@) && page.content == content
            && page.created_at_ms == created_at_ms && page.updated_at_ms == updated_at_ms,
        result matches Err(e) ==> e == error_for(AppErrorCode::StorageReadFailed),
{
    let date = read_date(date)?;
    Ok(DailyPageDto { date, content, created_at_ms, updated_at_ms })
}

/// The page that a first read of a day creates: empty, created and updated at `timestamp`.
pub fn empty_daily_page(date: &str, timestamp: i64) -> (result: Result<DailyPageDto, AppError>)
    ensures
        result is Ok <==> is_canonical_date_text(date@),
        result matches Ok(page) ==> page.date@ == Some(date@) && page.content@ == Seq::<
            char,
        >::empty() && page.created_at_ms == timestamp && page.updated_at_ms == timestamp,
        result matches Err(e) ==> e == error_for(AppErrorCode::InvalidDate),
{
    let date = CivilDateInput::parse(date)?;
    Ok(DailyPageDto { date, content: String::new(), created_at_ms: timestamp, updated_at_ms: timestamp })
}

/// A note from its stored row.
pub fn note_from_row(id: String, title: String, body: String) -> (note: NoteDto)
    ensures
        note.id.0 == id,
        note.title.0 == title,
        note.body.0 == body,
{
    NoteDto { id: NoteId(id), title: NoteTitle(title), body: NoteBody(body) }
}

/// The column values of one stored planner line.
#[derive(Debug)]
pub struct StoredLine {
    pub id: String,
    pub date: String,
    pub parent_id: Option<String>,
    pub sibling_key: String,
    pub title: String,
    pub description: Option<String>,
    pub time_of_day_minutes: Option<i64>,
    pub is_collapsed: i64,
}

/// The column values of one stored task template.
#[derive(Debug)]
pub struct StoredTemplate {
    pub id: String,
    pub title: String,
    pub body: String,
    pub time_of_day_minutes: Option<i64>,
}

pub open spec fn optional_text_of(value: Option<String>) -> Option<Seq<char>> {
    match value {
        Some(text) => Some(text@),
        None => None,
    }
}

/// Columns `row` hold the planner line `line`: the same texts, the date's canonical text,
/// the time as its minutes, the collapsed flag as a non-zero integer.
pub open spec fn line_stored_as(row: StoredLine, line: PlannerLineDto) -> bool {
    &&& row.id@ == line.id.0@
    &&& line.date@ == Some(row.date@)
    &&& optional_text_of(row.parent_id) == optional_id_text(line.parent_id)
    &&& row.sibling_key@ == line.sibling_key.0@
    &&& row.title@ == line.title.0@
    &&& optional_text_of(row.description) == optional_description_text(line.description)
    &&& row.time_of_day_minutes == stored_time(line.time_of_day_minutes)
    &&& (row.is_collapsed != 0) == line.is_collapsed
}

/// Columns `row` hold the task template `template`.
pub open spec fn template_stored_as(row: StoredTemplate, template: TaskTemplateDto) -> bool {
    &&& row.id@ == template.id.0@
    &&& row.title@ == template.title.0@
    &&& row.body@ == template.body.0@
    &&& row.time_of_day_minutes == stored_time(template.time_of_day_minutes)
}

/// A stored row can be read as a line: its date is canonical and its time fits the
/// minutes type.
pub open spec fn line_row_readable(row: StoredLine) -> bool {
    &&& is_canonical_date_text(row.date@)
    &&& (row.time_of_day_minutes matches Some(m) ==> 0 <= m <= u16::MAX)
}

fn stored_minutes(value: Option<TimeOfDayMinutes>) -> (stored: Option<i64>)
    ensures
        stored == stored_time(value),
{
    match value {
        Some(minutes) => Some(minutes.0 as i64),
        None => None,
    }
}

/// The columns that a planner line is stored in; a line without a valid date cannot be
/// stored.
pub fn line_columns(line: &PlannerLineDto) -> (result: Result<StoredLine, AppError>)
    ensures
        result is Ok <==> line.date@ is Some,
        result matches Ok(row) ==> line_stored_as(row, *line) && line_row_readable(row),
        result matches Err(e) ==> e == error_for(AppErrorCode::InvalidDate),
{
    let date = match &line.date {
        CivilDateInput::Valid(date) => {
            date.lemma_canonical();
            date.as_str()
        },
        CivilDateInput::Invalid => return Err(AppError::invalid_date()),
    };
    Ok(StoredLine {
        id: line.id.0.clone(),
        date: String::from_str(date),
        parent_id: match &line.parent_id {
            Some(parent) => Some(parent.0.clone()),
            None => None,
        },
        sibling_key: line.sibling_key.0.clone(),
        title: line.title.0.clone(),
        description: match &line.description {
            Some(description) => Some(description.0.clone()),
            None => None,
        },
        time_of_day_minutes: stored_minutes(line.time_of_day_minutes),
        is_collapsed: if line.is_collapsed {
            1
        } else {
            0
        },
    })
}

/// The columns that a task template is stored in.
pub fn template_columns(template: &TaskTemplateDto) -> (row: StoredTemplate)
    ensures
        template_stored_as(row, *template),
{
    StoredTemplate {
        id: template.id.0.clone(),
        title: template.title.0.clone(),
        body: template.body.0.clone(),
        time_of_day_minutes: stored_minutes(template.time_of_day_minutes),
    }
}

/// A planner line from its stored row; a stored date that is not canonical, or a stored
/// time outside the minutes type, makes the row unreadable.
pub fn planner_line_from_row(row: StoredLine) -> (result: Result<PlannerLineDto, AppError>)
    ensures
        result is Ok <==> line_row_readable(row),
        result matches Ok(line) ==> {
            &&& line_stored_as(row, line)
            &&& line.id.0 == row.id
            &&& line.parent_id == match row.parent_id {
                Some(p) => Some(PlannerLineId(p)),
                None => None,
            }
            &&& line.sibling_key.0 == row.sibling_key
            &&& line.title.0 == row.title
            &&& line.description == match row.description {
                Some(d) => Some(PlannerLineDescription(d)),
                None => None,
            }
        },
        result matches Err(e) ==> e == error_for(AppErrorCode::StorageReadFailed),
{
    let StoredLine {
        id,
        date,
        parent_id,
        sibling_key,
        title,
        description,
        time_of_day_minutes,
        is_collapsed,
    } = row;
    let date = read_date(date.as_str())?;
    let time_of_day_minutes = read_time(time_of_day_minutes)?;
    Ok(PlannerLineDto {
        id: PlannerLineId(id),
        date,
        parent_id: match parent_id {
            Some(parent) => Some(PlannerLineId(parent)),
            None => None,
        },
        sibling_key: SiblingKey(sibling_key),
        title: PlannerLineTitle(title),
        description: match description {
            Some(text) => Some(PlannerLineDescription(text)),
            None => None,
        },
        time_of_day_minutes,
        is_collapsed: is_collapsed != 0,
    })
}

/// A task template from its stored row; a stored time outside the minutes type makes the
/// row unreadable.
pub fn task_template_from_row(row: StoredTemplate) -> (result: Result<TaskTemplateDto, AppError>)
    ensures
        result is Ok <==> (row.time_of_day_minutes matches Some(m) ==> 0 <= m <= u16::MAX),
        result matches Ok(template) ==> {
            &&& template_stored_as(row, template)
            &&& template.id.0 == row.id
            &&& template.title.0 == row.title
            &&& template.body.0 == row.body
        },
        result matches Err(e) ==> e == error_for(AppErrorCode::StorageReadFailed),
{
    let StoredTemplate { id, title, body, time_of_day_minutes } = row;
    let time_of_day_minutes = read_time(time_of_day_minutes)?;
    Ok(TaskTemplateDto {
        id: TaskTemplateId(id),
        title: TaskTemplateTitle(title),
        body: TaskTemplateBody(body),
        time_of_day_minutes,
    })
}

/// Reading is faithful to storing: a line read back from the columns that another line was
/// stored in has that line's contents, field by field. (That the columns of a line with a
/// valid date can be read at all is part of the contract of `line_columns`.)
pub proof fn lemma_stored_line_reads_back(row: StoredLine, line: PlannerLineDto, read: PlannerLineDto)
    requires
        line_stored_as(row, line),
        line_stored_as(row, read),
    ensures
        same_line(read, line),
{
}

/// Reading is faithful to storing: a template read back from the columns that another
/// template was stored in has that template's contents, field by field.
pub proof fn lemma_stored_template_reads_back(
    row: StoredTemplate,
    template: TaskTemplateDto,
    read: TaskTemplateDto,
)
    requires
        template_stored_as(row, template),
        template_stored_as(row, read),
    ensures
        same_template(read, template),
{
}

/// An update or delete that matched no row (or more than one) reports the record as gone.
pub fn single_row_changed(changed_rows: usize) -> (result: Result<(), AppError>)
    ensures
        result is Ok <==> changed_rows == 1,
        result matches Err(e) ==> e == error_for(AppErrorCode::StorageNotFound),
{
    if changed_rows != 1 {
        Err(AppError::storage_not_found())
    } else {
        Ok(())
    }
}

/// After the page upsert ran and before it commits: an injected failure abandons it.
pub fn page_write_outcome(injected_failure: bool) -> (result: Result<(), AppError>)
    ensures
        injected_failure ==> result == Err::<(), AppError>(
            error_for(AppErrorCode::StorageWriteFailed),
        ),
        !injected_failure ==> result == Ok::<(), AppError>(()),
{
    if injected_failure {
        Err(AppError::storage_write_failed())
    } else {
        Ok(())
    }
}

} // verus!
