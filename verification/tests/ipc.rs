use notes_planner_desktop::{
    dto::{
        CivilDateInput, CreateNoteRequest, CreateTaskTemplateRequest, DeleteNoteRequest,
        DeleteTaskTemplateRequest, GetDailyPageRequest, InsertTaskTemplateCopyRequest, NoteBody,
        NoteId, NoteTitle, PlannerLineId, SaveDailyPageRequest, SiblingKey, TaskTemplateBody,
        TaskTemplateId, TaskTemplateTitle, UpdateNoteRequest, UpdateTaskTemplateRequest,
    },
    error::{AppError, AppErrorCode},
    ipc::{
        parse_create_note_request, parse_create_task_template_request, parse_delete_note_request,
        parse_delete_task_template_request, parse_get_daily_page_request,
        parse_insert_task_template_copy_request, parse_save_daily_page_request,
        parse_update_note_request, parse_update_task_template_request,
    },
};

// A payload that did not decode reaches the boundary as `None`. Malformed JSON is shown
// below not to be JSON at all. A payload with an unknown field is refused while decoding,
// by the payload shapes of the desktop application (`deny_unknown_fields`), which these
// tests do not run: for such payloads the tests check only what the boundary answers for
// a payload that did not decode. A date text decodes to an invalid date when it is not a
// canonical day.

/// Whether a payload text is not JSON at all, so that it can reach the boundary only as a
/// payload that did not decode.
fn is_malformed_json(payload: &str) -> bool {
    serde_json::from_str::<serde_json::Value>(payload).is_err()
}

fn error_code<T: std::fmt::Debug>(result: Result<T, AppError>) -> AppErrorCode {
    result.unwrap_err().code
}

fn date_input(text: &str) -> CivilDateInput {
    CivilDateInput::from_payload_text(text)
}

fn note(title: &str, body: &str) -> CreateNoteRequest {
    CreateNoteRequest { title: NoteTitle(title.to_owned()), body: NoteBody(body.to_owned()) }
}

fn note_update(id: &str, title: &str, body: &str) -> UpdateNoteRequest {
    UpdateNoteRequest {
        id: NoteId(id.to_owned()),
        title: NoteTitle(title.to_owned()),
        body: NoteBody(body.to_owned()),
    }
}

fn template(title: &str, body: &str, minutes: Option<u16>) -> CreateTaskTemplateRequest {
    CreateTaskTemplateRequest {
        title: TaskTemplateTitle(title.to_owned()),
        body: TaskTemplateBody(body.to_owned()),
        time_of_day_minutes: minutes,
    }
}

fn template_update(id: &str, title: &str, body: &str, minutes: Option<u16>) -> UpdateTaskTemplateRequest {
    UpdateTaskTemplateRequest {
        id: TaskTemplateId(id.to_owned()),
        title: TaskTemplateTitle(title.to_owned()),
        body: TaskTemplateBody(body.to_owned()),
        time_of_day_minutes: minutes,
    }
}

const TEMPLATE_ID: &str = "550e8400-e29b-41d4-a716-446655440000";

#[test]
fn rejects_malformed_daily_page_payloads_before_command_execution() {
    // malformed JSON and an unknown field do not decode
    assert!(is_malformed_json("{\"date\":"));
    let get_malformed = error_code(parse_get_daily_page_request(None));
    let get_unknown = error_code(parse_get_daily_page_request(None));
    // impossible, UTC and offset dates decode as invalid dates
    let get_invalid_date = error_code(parse_get_daily_page_request(Some(GetDailyPageRequest {
        date: date_input("2026-02-30"),
    })));
    let get_utc_date = error_code(parse_get_daily_page_request(Some(GetDailyPageRequest {
        date: date_input("2026-07-30T00:00:00Z"),
    })));
    let get_offset_date = error_code(parse_get_daily_page_request(Some(GetDailyPageRequest {
        date: date_input("2026-07-30T00:00:00+01:00"),
    })));
    let save_malformed = error_code(parse_save_daily_page_request(None));
    let save_unknown = error_code(parse_save_daily_page_request(None));
    let save_invalid_date = error_code(parse_save_daily_page_request(Some(SaveDailyPageRequest {
        date: date_input("2026-02-30"),
        content: "plan".to_owned(),
    })));

    assert_eq!(get_malformed, AppErrorCode::InvalidPayload);
    assert_eq!(get_unknown, AppErrorCode::InvalidPayload);
    assert_eq!(get_invalid_date, AppErrorCode::InvalidDate);
    assert_eq!(get_utc_date, AppErrorCode::InvalidDate);
    assert_eq!(get_offset_date, AppErrorCode::InvalidDate);
    assert_eq!(save_malformed, AppErrorCode::InvalidPayload);
    assert_eq!(save_unknown, AppErrorCode::InvalidPayload);
    assert_eq!(save_invalid_date, AppErrorCode::InvalidDate);
}

#[test]
fn rejects_malformed_note_payloads_before_command_execution() {
    assert!(is_malformed_json("{\"id\":"));
    let create_malformed = error_code(parse_create_note_request(None));
    let create_unknown_error = error_code(parse_create_note_request(None));
    let update_malformed = error_code(parse_update_note_request(None));
    let update_unknown_error = error_code(parse_update_note_request(None));
    let delete_malformed = error_code(parse_delete_note_request(None));
    let delete_unknown_error = error_code(parse_delete_note_request(None));

    assert_eq!(create_malformed, AppErrorCode::InvalidPayload);
    assert_eq!(create_unknown_error, AppErrorCode::InvalidPayload);
    assert_eq!(update_malformed, AppErrorCode::InvalidPayload);
    assert_eq!(update_unknown_error, AppErrorCode::InvalidPayload);
    assert_eq!(delete_malformed, AppErrorCode::InvalidPayload);
    assert_eq!(delete_unknown_error, AppErrorCode::InvalidPayload);
}

#[test]
fn accepts_exact_note_limits_and_rejects_the_next_character() {
    let accepted_create = note(&"t".repeat(200), &"b".repeat(10_000));
    let rejected_title = note(&"t".repeat(201), "ok");
    let accepted_update = note_update("note-1", &"t".repeat(200), &"b".repeat(10_000));
    let rejected_body = note_update("note-1", "ok", &"b".repeat(10_001));
    let accepted_daily_page = SaveDailyPageRequest {
        date: date_input("2026-02-28"),
        content: "p".repeat(10_000),
    };
    let rejected_daily_page = SaveDailyPageRequest {
        date: date_input("2026-02-28"),
        content: "p".repeat(10_001),
    };

    let accepted_create_request = parse_create_note_request(Some(accepted_create.clone()));
    let rejected_title_error = error_code(parse_create_note_request(Some(rejected_title)));
    let accepted_update_request = parse_update_note_request(Some(accepted_update));
    let rejected_body_error = error_code(parse_update_note_request(Some(rejected_body)));
    let accepted_daily_page_request = parse_save_daily_page_request(Some(accepted_daily_page));
    let rejected_daily_page_error =
        error_code(parse_save_daily_page_request(Some(rejected_daily_page)));

    assert_eq!(accepted_create_request.unwrap(), accepted_create);
    assert_eq!(rejected_title_error, AppErrorCode::TitleTooLong);
    assert!(accepted_update_request.is_ok());
    assert_eq!(rejected_body_error, AppErrorCode::BodyTooLong);
    assert!(accepted_daily_page_request.is_ok());
    assert_eq!(rejected_daily_page_error, AppErrorCode::BodyTooLong);
}

#[test]
fn rejects_malformed_task_template_requests_before_storage_access() {
    assert!(is_malformed_json("{\"title\":"));
    let create_malformed = error_code(parse_create_task_template_request(None));
    let create_unknown_error = error_code(parse_create_task_template_request(None));
    let update_malformed = error_code(parse_update_task_template_request(None));
    let update_unknown_error = error_code(parse_update_task_template_request(None));
    let delete_malformed = error_code(parse_delete_task_template_request(None));
    let delete_unknown_error = error_code(parse_delete_task_template_request(None));
    let insert_malformed = error_code(parse_insert_task_template_copy_request(None));
    let insert_unknown_error = error_code(parse_insert_task_template_copy_request(None));

    assert_eq!(create_malformed, AppErrorCode::InvalidPayload);
    assert_eq!(create_unknown_error, AppErrorCode::InvalidPayload);
    assert_eq!(update_malformed, AppErrorCode::InvalidPayload);
    assert_eq!(update_unknown_error, AppErrorCode::InvalidPayload);
    assert_eq!(delete_malformed, AppErrorCode::InvalidPayload);
    assert_eq!(delete_unknown_error, AppErrorCode::InvalidPayload);
    assert_eq!(insert_malformed, AppErrorCode::InvalidPayload);
    assert_eq!(insert_unknown_error, AppErrorCode::InvalidPayload);
}

#[test]
fn rejects_invalid_task_template_identifiers_and_minutes() {
    let update_id_error = error_code(parse_update_task_template_request(Some(template_update(
        "not-a-uuid", "ok", "ok", Some(0),
    ))));
    let delete_id_error = error_code(parse_delete_task_template_request(Some(
        DeleteTaskTemplateRequest { id: TaskTemplateId("not-a-uuid".to_owned()) },
    )));
    let insert_id_error = error_code(parse_insert_task_template_copy_request(Some(
        InsertTaskTemplateCopyRequest {
            template_id: TaskTemplateId("not-a-uuid".to_owned()),
            date: date_input("2026-07-30"),
            parent_id: None,
            sibling_key: SiblingKey("a".to_owned()),
        },
    )));
    let create_time_error =
        error_code(parse_create_task_template_request(Some(template("ok", "ok", Some(1440)))));
    let update_time_error = error_code(parse_update_task_template_request(Some(template_update(
        TEMPLATE_ID, "ok", "ok", Some(1440),
    ))));

    assert_eq!(update_id_error, AppErrorCode::InvalidIdentifier);
    assert_eq!(delete_id_error, AppErrorCode::InvalidIdentifier);
    assert_eq!(insert_id_error, AppErrorCode::InvalidIdentifier);
    assert_eq!(create_time_error, AppErrorCode::InvalidTimeOfDay);
    assert_eq!(update_time_error, AppErrorCode::InvalidTimeOfDay);
}

#[test]
fn rejects_oversized_task_template_title_and_body() {
    let create_title_error =
        error_code(parse_create_task_template_request(Some(template(&"t".repeat(201), "ok", None))));
    let create_body_error = error_code(parse_create_task_template_request(Some(template(
        "ok",
        &"b".repeat(10_001),
        None,
    ))));
    let update_title_error = error_code(parse_update_task_template_request(Some(template_update(
        TEMPLATE_ID,
        &"t".repeat(201),
        "ok",
        None,
    ))));
    let update_body_error = error_code(parse_update_task_template_request(Some(template_update(
        TEMPLATE_ID,
        "ok",
        &"b".repeat(10_001),
        None,
    ))));

    assert_eq!(create_title_error, AppErrorCode::TitleTooLong);
    assert_eq!(create_body_error, AppErrorCode::BodyTooLong);
    assert_eq!(update_title_error, AppErrorCode::TitleTooLong);
    assert_eq!(update_body_error, AppErrorCode::BodyTooLong);
}

#[test]
fn limits_count_characters_not_bytes() {
    let emoji_title = "🗒".repeat(200);
    assert!(emoji_title.len() > 200);
    assert!(parse_create_note_request(Some(note(&emoji_title, "ok"))).is_ok());
    let too_many = "é".repeat(201);
    assert_eq!(
        error_code(parse_create_note_request(Some(note(&too_many, "ok")))),
        AppErrorCode::TitleTooLong
    );
}

#[test]
fn title_is_checked_before_body() {
    assert_eq!(
        error_code(parse_create_note_request(Some(note(&"t".repeat(201), &"b".repeat(10_001))))),
        AppErrorCode::TitleTooLong
    );
}

#[test]
fn valid_requests_pass_unchanged() {
    let get = GetDailyPageRequest { date: date_input("2026-02-28") };
    assert_eq!(parse_get_daily_page_request(Some(get.clone())).unwrap(), get);
    let delete = DeleteNoteRequest { id: NoteId("anything".to_owned()) };
    assert_eq!(parse_delete_note_request(Some(delete.clone())).unwrap(), delete);
    let insert = InsertTaskTemplateCopyRequest {
        template_id: TaskTemplateId(TEMPLATE_ID.to_owned()),
        date: date_input("2026-07-30"),
        parent_id: Some(PlannerLineId("018e8c7b-7f10-7cc4-8a76-50d7f8df3b11".to_owned())),
        sibling_key: SiblingKey("aZ09".to_owned()),
    };
    assert_eq!(parse_insert_task_template_copy_request(Some(insert.clone())).unwrap(), insert);
}

#[test]
fn identifiers_take_every_uuid_spelling() {
    for id in [
        "550e8400-e29b-41d4-a716-446655440000",
        "550E8400-E29B-41D4-A716-446655440000",
        "550e8400e29b41d4a716446655440000",
        "{550e8400-e29b-41d4-a716-446655440000}",
        "urn:uuid:550e8400-e29b-41d4-a716-446655440000",
        "URN:UUID:550e8400-e29b-41d4-a716-446655440000",
    ] {
        let request = DeleteTaskTemplateRequest { id: TaskTemplateId(id.to_owned()) };
        assert!(parse_delete_task_template_request(Some(request)).is_ok(), "{id}");
    }
    for id in [
        "",
        "550e8400-e29b-41d4-a716-44665544000",
        "550e8400-e29b-41d4-a716-44665544000g",
        "550e8400_e29b_41d4_a716_446655440000",
        "(550e8400-e29b-41d4-a716-446655440000)",
        "urn:uuix:550e8400-e29b-41d4-a716-446655440000",
    ] {
        let request = DeleteTaskTemplateRequest { id: TaskTemplateId(id.to_owned()) };
        assert_eq!(
            error_code(parse_delete_task_template_request(Some(request))),
            AppErrorCode::InvalidIdentifier,
            "{id}"
        );
    }
}
