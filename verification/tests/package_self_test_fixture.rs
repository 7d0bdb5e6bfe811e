use notes_planner_desktop::{
    dto::{
        CivilDateInput, NoteBody, NoteDto, NoteId, NoteTitle, PlannerLineDescription,
        PlannerLineDto, PlannerLineId, PlannerLineTitle, SiblingKey, TaskTemplateBody,
        TaskTemplateDto, TaskTemplateId, TaskTemplateTitle, TimeOfDayMinutes,
    },
    error::AppErrorCode,
    package_self_test::{
        check_final_fixture, check_reopened_fixture, fixture_outline, lines_match, FIXTURE_DATE,
        LEGACY_PROSE, NOTE_BODY, NOTE_TITLE, TEMPLATE_BODY, TEMPLATE_TITLE,
    },
};

fn line(n: u32, parent: Option<u32>, key: &str, title: &str) -> PlannerLineDto {
    PlannerLineDto {
        id: PlannerLineId(format!("00000000-0000-4000-8000-{n:012}")),
        date: CivilDateInput::parse(FIXTURE_DATE).unwrap(),
        parent_id: parent.map(|p| PlannerLineId(format!("00000000-0000-4000-8000-{p:012}"))),
        sibling_key: SiblingKey(key.to_owned()),
        title: PlannerLineTitle(title.to_owned()),
        description: None,
        time_of_day_minutes: None,
        is_collapsed: false,
    }
}

struct Fixture {
    root: PlannerLineDto,
    child: PlannerLineDto,
    copied: PlannerLineDto,
    later: PlannerLineDto,
    note: NoteDto,
    template: TaskTemplateDto,
}

fn fixture() -> Fixture {
    let mut child = line(2, Some(1), "aV", "child");
    child.description = Some(PlannerLineDescription("child description".to_owned()));
    child.time_of_day_minutes = Some(TimeOfDayMinutes(571));
    let mut copied = line(3, Some(1), "z", TEMPLATE_TITLE);
    copied.description = Some(PlannerLineDescription(TEMPLATE_BODY.to_owned()));
    copied.time_of_day_minutes = Some(TimeOfDayMinutes(720));
    Fixture {
        root: line(1, None, "a", "root"),
        child,
        copied,
        later: line(4, None, "z", "later root"),
        note: NoteDto {
            id: NoteId("note".to_owned()),
            title: NoteTitle(NOTE_TITLE.to_owned()),
            body: NoteBody(NOTE_BODY.to_owned()),
        },
        template: TaskTemplateDto {
            id: TaskTemplateId("template".to_owned()),
            title: TaskTemplateTitle(TEMPLATE_TITLE.to_owned()),
            body: TaskTemplateBody(TEMPLATE_BODY.to_owned()),
            time_of_day_minutes: Some(TimeOfDayMinutes(720)),
        },
    }
}

#[test]
fn the_expected_outline_has_the_root_collapsed() {
    let f = fixture();
    let outline = fixture_outline(&f.root, &f.child, &f.copied, &f.later);
    assert_eq!(outline.len(), 4);
    assert!(outline[0].is_collapsed);
    assert_eq!(outline[0].id, f.root.id);
    assert_eq!(outline[1], f.child);
    assert_eq!(outline[2], f.copied);
    assert_eq!(outline[3], f.later);
}

#[test]
fn an_intact_reopened_fixture_passes() {
    let f = fixture();
    let expected = fixture_outline(&f.root, &f.child, &f.copied, &f.later);
    let other_note = NoteDto {
        id: NoteId("other".to_owned()),
        title: NoteTitle("x".to_owned()),
        body: NoteBody("y".to_owned()),
    };
    let notes = vec![other_note, f.note.clone()];
    assert_eq!(
        check_reopened_fixture(
            &f.copied,
            &LEGACY_PROSE.to_owned(),
            &notes,
            &f.note,
            &expected.clone(),
            &expected,
            &vec![f.template.clone()],
            &f.template,
        ),
        Ok(())
    );
    assert_eq!(check_final_fixture(&Vec::new(), &expected.clone(), &expected), Ok(()));
}

#[test]
fn any_change_to_the_reopened_fixture_is_a_read_failure() {
    let f = fixture();
    let expected = fixture_outline(&f.root, &f.child, &f.copied, &f.later);
    let templates = vec![f.template.clone()];
    let notes = vec![f.note.clone()];
    let prose = LEGACY_PROSE.to_owned();

    let trimmed = LEGACY_PROSE.trim().to_owned();
    let result = check_reopened_fixture(
        &f.copied, &trimmed, &notes, &f.note, &expected, &expected, &templates, &f.template,
    );
    assert_eq!(result.unwrap_err().code, AppErrorCode::StorageReadFailed);

    let mut changed_note = f.note.clone();
    changed_note.body = NoteBody("changed".to_owned());
    let result = check_reopened_fixture(
        &f.copied, &prose, &vec![changed_note, f.note.clone()], &f.note, &expected, &expected,
        &templates, &f.template,
    );
    assert!(result.is_err());

    let reordered = vec![expected[0].clone(), expected[2].clone(), expected[1].clone(), expected[3].clone()];
    assert!(!lines_match(&reordered, &expected));
    let result = check_reopened_fixture(
        &f.copied, &prose, &notes, &f.note, &reordered, &expected, &templates, &f.template,
    );
    assert!(result.is_err());

    let mut uncopied = f.copied.clone();
    uncopied.description = None;
    let result = check_reopened_fixture(
        &uncopied, &prose, &notes, &f.note, &expected, &expected, &templates, &f.template,
    );
    assert!(result.is_err());

    let result = check_reopened_fixture(
        &f.copied, &prose, &notes, &f.note, &expected, &expected, &Vec::new(), &f.template,
    );
    assert!(result.is_err());

    assert_eq!(
        check_final_fixture(&templates, &expected.clone(), &expected).unwrap_err().code,
        AppErrorCode::StorageReadFailed
    );
}
