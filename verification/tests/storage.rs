use notes_planner_desktop::{
    dto::{
        CivilDateInput, PlannerLineDescription, PlannerLineDto, PlannerLineId, PlannerLineTitle,
        SetPlannerLineTimeRequest, SiblingKey, TaskTemplateBody, TaskTemplateDto, TaskTemplateId,
        TaskTemplateTitle, TimeOfDayMinutes,
    },
    error::AppErrorCode,
    storage::{
        checked_id, checked_identifier, checked_key, checked_time, daily_page_from_row,
        empty_daily_page, journal_mode_is_wal,
        migrations::{check_target, first_statement, migration_plan, MigrationAction},
        new_record_id,
        note_from_row, now_ms, outline::check_line_time, page_write_outcome,
        planner_line_from_row, read_time, line_columns, template_columns, StoredLine,
        StoredTemplate, single_row_changed, task_template_from_row,
        timestamp_from_millis, DatabaseOptions, TableName, DATABASE_FILE_NAME, DATABASE_VERSION,
    },
};
use std::path::PathBuf;

use MigrationAction::{Commit, Fail, RunFirstStatement, RunScript, SetVersion};

fn options() -> DatabaseOptions {
    DatabaseOptions::for_path(PathBuf::from("/tmp/planner.sqlite3"))
}

#[test]
fn options_default_to_the_current_version_without_failures() {
    let options = options();
    assert_eq!(options.path, PathBuf::from("/tmp/planner.sqlite3"));
    assert_eq!(options.target_version, DATABASE_VERSION);
    assert_eq!(options.injected_migration_failure, None);
    assert_eq!(options.injected_migration_failure_after_first_statement, None);
    assert!(!options.injected_write_failure);
    assert!(!options.injected_template_delete_failure);
    let changed = options
        .with_target_version(3)
        .with_injected_migration_failure(2)
        .with_injected_migration_failure_after_first_statement(4)
        .with_injected_write_failure()
        .with_injected_template_delete_failure();
    assert_eq!(changed.target_version, 3);
    assert_eq!(changed.injected_migration_failure, Some(2));
    assert_eq!(changed.injected_migration_failure_after_first_statement, Some(4));
    assert!(changed.injected_write_failure);
    assert!(changed.injected_template_delete_failure);
    assert_eq!(DATABASE_VERSION, 7);
    assert_eq!(DATABASE_FILE_NAME, "notes-planner.sqlite3");
}

#[test]
fn a_fresh_database_runs_every_migration_in_order() {
    let plan = migration_plan(&options(), 0);
    let mut expected = Vec::new();
    for version in 1..=7 {
        expected.push(RunScript(version));
        expected.push(SetVersion(version));
    }
    expected.push(Commit);
    assert_eq!(plan, expected);
}

#[test]
fn a_version_one_database_upgrades_from_migration_two() {
    let plan = migration_plan(&options(), 1);
    assert_eq!(plan.first(), Some(&RunScript(2)));
    assert_eq!(plan.len(), 13);
    assert_eq!(plan.last(), Some(&Commit));
    assert_eq!(migration_plan(&options(), 7), vec![Commit]);
}

#[test]
fn injected_migration_failures_abandon_the_transaction() {
    let failing = options().with_injected_migration_failure(2);
    assert_eq!(migration_plan(&failing, 1), vec![Fail]);
    let failing_v4 = options().with_injected_migration_failure(4);
    assert_eq!(
        migration_plan(&failing_v4, 3),
        vec![Fail]
    );
    let after_first = options().with_injected_migration_failure_after_first_statement(4);
    assert_eq!(migration_plan(&after_first, 3), vec![RunFirstStatement(4), Fail]);
    let later = options().with_injected_migration_failure(6);
    assert_eq!(
        migration_plan(&later, 4),
        vec![RunScript(5), SetVersion(5), Fail]
    );
    // a failure for a migration that does not run changes nothing
    let outside = options().with_injected_migration_failure(2);
    assert_eq!(migration_plan(&outside, 6), vec![RunScript(7), SetVersion(7), Commit]);
}

#[test]
fn a_newer_database_or_an_unknown_target_is_refused() {
    assert_eq!(migration_plan(&options().with_target_version(1), 2), vec![Fail]);
    assert_eq!(
        check_target(&options().with_target_version(8)).unwrap_err().code,
        AppErrorCode::StorageMigrationFailed
    );
    assert_eq!(check_target(&options()), Ok(()));
    let stopped = options().with_target_version(2);
    assert_eq!(
        migration_plan(&stopped, 0),
        vec![RunScript(1), SetVersion(1), RunScript(2), SetVersion(2), Commit]
    );
}

#[test]
fn table_names_are_the_sql_names() {
    assert_eq!(TableName::DailyPages.sql_name(), "daily_pages");
    assert_eq!(TableName::UndatedNotes.sql_name(), "undated_notes");
}

#[test]
fn timestamps_are_milliseconds_that_fit_i64() {
    assert_eq!(timestamp_from_millis(Some(1_725_029_869_000)), Ok(1_725_029_869_000));
    assert_eq!(timestamp_from_millis(Some(i64::MAX as u128)), Ok(i64::MAX));
    assert_eq!(
        timestamp_from_millis(Some(i64::MAX as u128 + 1)).unwrap_err().code,
        AppErrorCode::StorageWriteFailed
    );
    assert_eq!(
        timestamp_from_millis(None).unwrap_err().code,
        AppErrorCode::StorageWriteFailed
    );
    assert!(now_ms().unwrap() > 1_600_000_000_000);
}

#[test]
fn stored_times_and_keys_are_checked() {
    assert_eq!(checked_time(Some(TimeOfDayMinutes(0))), Ok(Some(0)));
    assert_eq!(checked_time(Some(TimeOfDayMinutes(1439))), Ok(Some(1439)));
    assert_eq!(checked_time(None), Ok(None));
    assert_eq!(
        checked_time(Some(TimeOfDayMinutes(1440))).unwrap_err().code,
        AppErrorCode::InvalidTimeOfDay
    );
    assert_eq!(read_time(Some(571)), Ok(Some(TimeOfDayMinutes(571))));
    assert_eq!(read_time(Some(65_535)), Ok(Some(TimeOfDayMinutes(65_535))));
    assert_eq!(read_time(Some(-1)).unwrap_err().code, AppErrorCode::StorageReadFailed);
    assert_eq!(read_time(Some(65_536)).unwrap_err().code, AppErrorCode::StorageReadFailed);
    assert_eq!(checked_key("aV0"), Ok(()));
    assert_eq!(checked_key("").unwrap_err().code, AppErrorCode::InvalidSiblingKey);
    assert_eq!(checked_id("not-a-uuid").unwrap_err().code, AppErrorCode::InvalidIdentifier);
    assert_eq!(
        checked_identifier(&PlannerLineId("018e8c7b-7f10-7cc4-8a76-50d7f8df3b11".to_owned())),
        Ok(())
    );
    let request = SetPlannerLineTimeRequest {
        id: PlannerLineId("nope".to_owned()),
        time_of_day_minutes: Some(TimeOfDayMinutes(5000)),
    };
    assert_eq!(check_line_time(&request).unwrap_err().code, AppErrorCode::InvalidIdentifier);
}

#[test]
fn an_unread_day_becomes_an_empty_page_with_one_timestamp() {
    let page = empty_daily_page("2026-03-29", 1_000).expect("valid page should lazily create");
    assert_eq!(page.date.as_str().unwrap(), "2026-03-29");
    assert_eq!(page.content, "");
    assert_eq!(page.created_at_ms, page.updated_at_ms);
    assert_eq!(page.created_at_ms, 1_000);
    assert_eq!(empty_daily_page("2026-02-30", 1).unwrap_err().code, AppErrorCode::InvalidDate);
}

fn stored_line(date: &str, minutes: Option<i64>, collapsed: i64) -> StoredLine {
    StoredLine {
        id: "id".to_owned(),
        date: date.to_owned(),
        parent_id: Some("parent".to_owned()),
        sibling_key: "aV".to_owned(),
        title: "title".to_owned(),
        description: None,
        time_of_day_minutes: minutes,
        is_collapsed: collapsed,
    }
}

fn stored_template(minutes: Option<i64>) -> StoredTemplate {
    StoredTemplate {
        id: "i".to_owned(),
        title: "t".to_owned(),
        body: "b".to_owned(),
        time_of_day_minutes: minutes,
    }
}

#[test]
fn stored_rows_read_back_exactly() {
    let page = daily_page_from_row("2026-07-30", "plan".to_owned(), 1, 2).unwrap();
    assert_eq!(page.date.as_str().unwrap(), "2026-07-30");
    assert_eq!((page.content.as_str(), page.created_at_ms, page.updated_at_ms), ("plan", 1, 2));
    assert_eq!(
        daily_page_from_row("2026-7-30", String::new(), 1, 1).unwrap_err().code,
        AppErrorCode::StorageReadFailed
    );
    let note = note_from_row("n".to_owned(), "t".to_owned(), "b".to_owned());
    assert_eq!((note.id.0.as_str(), note.title.0.as_str(), note.body.0.as_str()), ("n", "t", "b"));
    let line = planner_line_from_row(stored_line("2026-07-30", Some(571), 1)).unwrap();
    assert_eq!(line.parent_id, Some(PlannerLineId("parent".to_owned())));
    assert_eq!(line.time_of_day_minutes, Some(TimeOfDayMinutes(571)));
    assert!(line.is_collapsed);
    assert_eq!(line.description, None);
    assert_eq!(
        planner_line_from_row(stored_line("x", None, 0)).unwrap_err().code,
        AppErrorCode::StorageReadFailed
    );
    let template = task_template_from_row(stored_template(None)).unwrap();
    assert_eq!(template.time_of_day_minutes, None);
    assert_eq!(
        task_template_from_row(stored_template(Some(-5))).unwrap_err().code,
        AppErrorCode::StorageReadFailed
    );
}

#[test]
fn writes_report_missing_rows_and_injected_failures() {
    assert_eq!(single_row_changed(1), Ok(()));
    assert_eq!(single_row_changed(0).unwrap_err().code, AppErrorCode::StorageNotFound);
    assert_eq!(single_row_changed(2).unwrap_err().code, AppErrorCode::StorageNotFound);
    assert_eq!(page_write_outcome(false), Ok(()));
    assert_eq!(page_write_outcome(true).unwrap_err().code, AppErrorCode::StorageWriteFailed);
}

#[test]
fn new_record_ids_are_hyphenated_uuids_that_the_checks_accept() {
    let first = new_record_id().unwrap();
    let second = new_record_id().unwrap();
    assert_eq!(first.len(), 36);
    assert_eq!(first.as_bytes()[8], b'-');
    assert!(checked_id(&first).is_ok());
    assert!(checked_identifier(&PlannerLineId(second.clone())).is_ok());
    assert_ne!(first, second);
}

#[test]
fn the_first_statement_ends_before_the_first_semicolon() {
    assert_eq!(
        first_statement("ALTER TABLE a RENAME COLUMN x TO y;\nALTER TABLE a ADD COLUMN z TEXT;"),
        Ok("ALTER TABLE a RENAME COLUMN x TO y")
    );
    assert_eq!(first_statement(";rest"), Ok(""));
    assert_eq!(first_statement("é;ü;"), Ok("é"));
    assert_eq!(
        first_statement("CREATE INDEX i ON t (c)").unwrap_err().code,
        AppErrorCode::StorageMigrationFailed
    );
}

#[test]
fn write_ahead_logging_is_recognised_in_any_case() {
    assert!(journal_mode_is_wal("wal"));
    assert!(journal_mode_is_wal("WAL"));
    assert!(journal_mode_is_wal("Wal"));
    assert!(!journal_mode_is_wal("delete"));
    assert!(!journal_mode_is_wal("wal "));
    assert!(!journal_mode_is_wal("wa"));
    assert!(!journal_mode_is_wal(""));
}

#[test]
fn a_stored_line_and_template_read_back_unchanged() {
    let line = PlannerLineDto {
        id: PlannerLineId("018e8c7b-7f10-7cc4-8a76-50d7f8df3b11".to_owned()),
        date: CivilDateInput::parse("2026-07-30").unwrap(),
        parent_id: None,
        sibling_key: SiblingKey("aV".to_owned()),
        title: PlannerLineTitle("  heading 🧪".to_owned()),
        description: Some(PlannerLineDescription("second line\n".to_owned())),
        time_of_day_minutes: Some(TimeOfDayMinutes(1439)),
        is_collapsed: true,
    };
    let columns = line_columns(&line).unwrap();
    assert_eq!(columns.date, "2026-07-30");
    assert_eq!(columns.time_of_day_minutes, Some(1439));
    assert_eq!(columns.is_collapsed, 1);
    assert_eq!(planner_line_from_row(columns).unwrap(), line);
    let undated = PlannerLineDto { date: CivilDateInput::Invalid, ..line };
    assert_eq!(line_columns(&undated).unwrap_err().code, AppErrorCode::InvalidDate);

    let template = TaskTemplateDto {
        id: TaskTemplateId("550e8400-e29b-41d4-a716-446655440000".to_owned()),
        title: TaskTemplateTitle("Review launch checklist".to_owned()),
        body: TaskTemplateBody("Confirm desktop launch".to_owned()),
        time_of_day_minutes: Some(TimeOfDayMinutes(720)),
    };
    let columns = template_columns(&template);
    assert_eq!(columns.time_of_day_minutes, Some(720));
    assert_eq!(task_template_from_row(columns).unwrap(), template);
}

#[test]
fn an_injected_failure_outside_the_run_still_reaches_the_target() {
    let options = options().with_target_version(5).with_injected_migration_failure(2);
    let plan = migration_plan(&options, 3);
    assert_eq!(plan, vec![RunScript(4), SetVersion(4), RunScript(5), SetVersion(5), Commit]);
    let options = options.with_injected_migration_failure_after_first_statement(7);
    assert_eq!(
        migration_plan(&options, 3),
        vec![RunScript(4), SetVersion(4), RunScript(5), SetVersion(5), Commit]
    );
}

#[test]
fn a_random_identifier_carries_the_version_and_variant_digits() {
    for _ in 0..8 {
        let id = new_record_id().unwrap();
        assert_eq!(id.as_bytes()[14], b'4');
        assert!(matches!(id.as_bytes()[19], b'8' | b'9' | b'a' | b'b'));
        assert_eq!(id, id.to_lowercase());
    }
}
