use notes_planner_desktop::{
    dto::{
        CivilDateInput, CreatePlannerLineRequest, MovePlannerLineRequest, PlannerLineDto,
        PlannerLineId, PlannerLineTitle, SetPlannerLineTimeRequest, SiblingKey, TimeOfDayMinutes,
    },
    error::AppErrorCode,
    outline::{arrange_outline, ids_are_distinct},
    storage::outline::{
        after_moved_line, after_new_parent, ancestor_step, begin_move, check_line_time,
        check_new_line_parent, check_new_planner_line, created_planner_line, next_ancestor, MoveCheck,
    },
};

fn date(value: &str) -> CivilDateInput {
    CivilDateInput::parse(value).expect("test date should parse")
}

fn id(n: u32) -> PlannerLineId {
    PlannerLineId(format!("00000000-0000-4000-8000-{n:012}"))
}

fn line(id_value: PlannerLineId, day: &str, parent: Option<PlannerLineId>, key: &str, title: &str) -> PlannerLineDto {
    PlannerLineDto {
        id: id_value,
        date: date(day),
        parent_id: parent,
        sibling_key: SiblingKey(key.to_owned()),
        title: PlannerLineTitle(title.to_owned()),
        description: None,
        time_of_day_minutes: None,
        is_collapsed: false,
    }
}

fn ids(lines: &[PlannerLineDto]) -> Vec<PlannerLineId> {
    lines.iter().map(|line| line.id.clone()).collect()
}

#[test]
fn lists_tree_depth_first_in_binary_fractional_sibling_order() {
    let root = line(id(1), "2026-07-30", None, "a", "root");
    let later_root = line(id(2), "2026-07-30", None, "z", "later root");
    let mut child = line(id(3), "2026-07-30", Some(id(1)), "aV", "child");
    child.time_of_day_minutes = Some(TimeOfDayMinutes(571));
    let grandchild = line(id(4), "2026-07-30", Some(id(3)), "aV0", "grandchild");
    let rows = vec![grandchild.clone(), later_root.clone(), child.clone(), root.clone()];

    let lines = arrange_outline(&rows);

    assert_eq!(ids(&lines), vec![id(1), id(3), id(4), id(2)]);
    assert_eq!(lines[1].time_of_day_minutes, Some(TimeOfDayMinutes(571)));
    assert_eq!(lines, vec![root, child, grandchild, later_root]);
}

#[test]
fn outline_orders_keys_by_bytes_then_identifiers() {
    // 'B' (0x42) sorts before 'a' (0x61); equal keys fall back to the identifier.
    let rows = vec![
        line(id(5), "2026-07-30", None, "a", "lower"),
        line(id(2), "2026-07-30", None, "B", "upper"),
        line(id(9), "2026-07-30", None, "a0", "longer"),
        line(id(1), "2026-07-30", None, "a", "lower, smaller id"),
    ];
    assert_eq!(ids(&arrange_outline(&rows)), vec![id(2), id(1), id(5), id(9)]);
}

#[test]
fn outline_leaves_out_orphans_and_cycles() {
    let rows = vec![
        line(id(1), "2026-07-30", None, "a", "root"),
        line(id(2), "2026-07-30", Some(id(99)), "a", "orphan"),
        line(id(3), "2026-07-30", Some(id(4)), "a", "cycle one"),
        line(id(4), "2026-07-30", Some(id(3)), "b", "cycle two"),
        line(id(5), "2026-07-30", Some(id(2)), "a", "orphan child"),
        line(id(6), "2026-07-30", Some(id(1)), "b", "child"),
    ];
    assert_eq!(ids(&arrange_outline(&rows)), vec![id(1), id(6)]);
    assert!(arrange_outline(&Vec::new()).is_empty());
}

#[test]
fn outline_keeps_each_subtree_together() {
    let rows = vec![
        line(id(1), "2026-07-30", None, "b", "second root"),
        line(id(2), "2026-07-30", None, "a", "first root"),
        line(id(3), "2026-07-30", Some(id(2)), "z", "late child of first"),
        line(id(4), "2026-07-30", Some(id(1)), "a", "child of second"),
        line(id(5), "2026-07-30", Some(id(2)), "c", "early child of first"),
        line(id(6), "2026-07-30", Some(id(5)), "a", "grandchild"),
    ];
    assert_eq!(
        ids(&arrange_outline(&rows)),
        vec![id(2), id(5), id(6), id(3), id(1), id(4)]
    );
}

#[test]
fn moving_a_line_under_its_descendant_is_refused() {
    let root = line(id(1), "2026-07-30", None, "a", "root");
    let child = line(id(2), "2026-07-30", Some(id(1)), "b", "child");
    let request = MovePlannerLineRequest {
        id: root.id.clone(),
        parent_id: Some(child.id.clone()),
        sibling_key: SiblingKey("c".to_owned()),
    };

    begin_move(&request).expect("identifier and key are valid");
    let next = after_moved_line(&request, &Some(root.clone())).expect("line exists");
    assert_eq!(next, MoveCheck::CheckParent(child.id.clone()));
    after_new_parent(&request, &root, &Some(child.clone())).expect("same day, another line");
    let mut cursor = Some(child.id.clone());
    assert_eq!(ancestor_step(&request, &cursor), Ok(true));
    cursor = next_ancestor(&Some(child.clone()));
    let refusal = ancestor_step(&request, &cursor).expect_err("cycle must fail");

    assert_eq!(refusal.code, AppErrorCode::InvalidPlannerLineParent);
}

#[test]
fn moving_under_another_day_or_onto_itself_is_refused() {
    let child = line(id(2), "2026-07-30", Some(id(1)), "b", "child");
    let other_day = line(id(3), "2026-07-31", None, "a", "other");
    let cross_day = MovePlannerLineRequest {
        id: child.id.clone(),
        parent_id: Some(other_day.id.clone()),
        sibling_key: SiblingKey("c".to_owned()),
    };
    assert_eq!(
        after_new_parent(&cross_day, &child, &Some(other_day)).unwrap_err().code,
        AppErrorCode::InvalidPlannerLineParent
    );
    let onto_itself = MovePlannerLineRequest {
        id: child.id.clone(),
        parent_id: Some(child.id.clone()),
        sibling_key: SiblingKey("c".to_owned()),
    };
    assert_eq!(
        after_new_parent(&onto_itself, &child, &Some(child.clone())).unwrap_err().code,
        AppErrorCode::InvalidPlannerLineParent
    );
    assert_eq!(
        after_new_parent(&onto_itself, &child, &None).unwrap_err().code,
        AppErrorCode::InvalidPlannerLineParent
    );
}

#[test]
fn moving_a_missing_line_or_to_the_top_level() {
    let request = MovePlannerLineRequest {
        id: id(7),
        parent_id: None,
        sibling_key: SiblingKey("A".to_owned()),
    };
    assert_eq!(
        after_moved_line(&request, &None).unwrap_err().code,
        AppErrorCode::StorageNotFound
    );
    let existing = line(id(7), "2026-07-30", Some(id(1)), "a", "line");
    assert_eq!(after_moved_line(&request, &Some(existing)), Ok(MoveCheck::Write));
    assert_eq!(ancestor_step(&request, &None), Ok(false));
    let bad_key = MovePlannerLineRequest { sibling_key: SiblingKey("a!".to_owned()), ..request };
    assert_eq!(begin_move(&bad_key).unwrap_err().code, AppErrorCode::InvalidSiblingKey);
}

#[test]
fn a_new_line_needs_a_valid_time_and_a_same_day_parent() {
    let request = CreatePlannerLineRequest {
        date: date("2026-07-30"),
        parent_id: None,
        sibling_key: SiblingKey("d".to_owned()),
        title: PlannerLineTitle("invalid time".to_owned()),
        description: None,
        time_of_day_minutes: Some(TimeOfDayMinutes(1440)),
    };
    assert_eq!(
        check_new_planner_line(&request).unwrap_err().code,
        AppErrorCode::InvalidTimeOfDay
    );
    let timed = CreatePlannerLineRequest {
        time_of_day_minutes: Some(TimeOfDayMinutes(571)),
        ..request
    };
    assert_eq!(check_new_planner_line(&timed), Ok(Some(571)));
    let parent = line(id(1), "2026-07-31", None, "a", "other day");
    assert_eq!(
        check_new_line_parent(&timed.date, &Some(parent)).unwrap_err().code,
        AppErrorCode::InvalidPlannerLineParent
    );
    assert_eq!(
        check_new_line_parent(&timed.date, &None).unwrap_err().code,
        AppErrorCode::InvalidPlannerLineParent
    );
    let same_day = line(id(1), "2026-07-30", None, "a", "same day");
    assert_eq!(check_new_line_parent(&timed.date, &Some(same_day)), Ok(()));
    let created = created_planner_line(id(8), &timed);
    assert_eq!(created.id, id(8));
    assert_eq!(created.title, timed.title);
    assert_eq!(created.time_of_day_minutes, Some(TimeOfDayMinutes(571)));
    assert!(!created.is_collapsed);
}

#[test]
fn identifiers_are_checked_for_repeats() {
    let day = "2026-07-30";
    let distinct = vec![line(id(1), day, None, "a", "one"), line(id(2), day, None, "b", "two")];
    assert!(ids_are_distinct(&distinct));
    assert!(ids_are_distinct(&Vec::new()));
    let repeated = vec![
        line(id(1), day, None, "a", "one"),
        line(id(2), day, None, "b", "two"),
        line(id(1), day, None, "c", "again"),
    ];
    assert!(!ids_are_distinct(&repeated));
}

#[test]
fn rejects_cycles_cross_day_moves_and_invalid_time() {
    let root = line(id(1), "2026-07-30", None, "a", "root");
    let child = line(id(2), "2026-07-30", Some(id(1)), "b", "child");
    let other_day = line(id(3), "2026-07-31", None, "a", "other");

    let cycle = MovePlannerLineRequest {
        id: root.id.clone(),
        parent_id: Some(child.id.clone()),
        sibling_key: SiblingKey("c".to_owned()),
    };
    begin_move(&cycle).expect("identifier and key are valid");
    assert_eq!(
        after_moved_line(&cycle, &Some(root.clone())),
        Ok(MoveCheck::CheckParent(child.id.clone()))
    );
    after_new_parent(&cycle, &root, &Some(child.clone())).expect("same day, another line");
    assert_eq!(ancestor_step(&cycle, &Some(child.id.clone())), Ok(true));
    let cycle_error = ancestor_step(&cycle, &next_ancestor(&Some(child.clone())))
        .expect_err("cycle must fail");

    let cross_day = MovePlannerLineRequest {
        id: child.id.clone(),
        parent_id: Some(other_day.id.clone()),
        sibling_key: SiblingKey("c".to_owned()),
    };
    let cross_day_error = after_new_parent(&cross_day, &child, &Some(other_day.clone()))
        .expect_err("cross-day parent must fail");

    let invalid_time = check_new_planner_line(&CreatePlannerLineRequest {
        date: date("2026-07-30"),
        parent_id: None,
        sibling_key: SiblingKey("d".to_owned()),
        title: PlannerLineTitle("invalid time".to_owned()),
        description: None,
        time_of_day_minutes: Some(TimeOfDayMinutes(1440)),
    });

    assert_eq!(cycle_error.code, AppErrorCode::InvalidPlannerLineParent);
    assert_eq!(cross_day_error.code, AppErrorCode::InvalidPlannerLineParent);
    assert_eq!(
        invalid_time.expect_err("time must fail").code,
        AppErrorCode::InvalidTimeOfDay
    );
    assert_eq!(
        ids(&arrange_outline(&vec![child.clone(), root.clone()])),
        vec![root.id.clone(), child.id.clone()]
    );
}

#[test]
fn moves_reorders_collapses_and_clears_time() {
    let first = line(id(1), "2026-07-30", None, "a", "first");
    let mut second = line(id(2), "2026-07-30", None, "z", "second");
    let mut child = line(id(3), "2026-07-30", Some(id(1)), "a", "child");
    child.time_of_day_minutes = Some(TimeOfDayMinutes(571));

    let request = MovePlannerLineRequest {
        id: child.id.clone(),
        parent_id: Some(second.id.clone()),
        sibling_key: SiblingKey("A".to_owned()),
    };
    begin_move(&request).expect("move is well formed");
    assert_eq!(
        after_moved_line(&request, &Some(child.clone())),
        Ok(MoveCheck::CheckParent(second.id.clone()))
    );
    after_new_parent(&request, &child, &Some(second.clone())).expect("same-day parent");
    assert_eq!(ancestor_step(&request, &Some(second.id.clone())), Ok(true));
    assert_eq!(ancestor_step(&request, &next_ancestor(&Some(second.clone()))), Ok(false));
    child.parent_id = request.parent_id.clone();
    child.sibling_key = request.sibling_key.clone();
    second.is_collapsed = true;
    let clear = SetPlannerLineTimeRequest { id: child.id.clone(), time_of_day_minutes: None };
    assert_eq!(check_line_time(&clear), Ok(None));
    child.time_of_day_minutes = None;

    let lines = arrange_outline(&vec![child.clone(), second.clone(), first.clone()]);
    assert_eq!(ids(&lines), vec![first.id.clone(), second.id.clone(), child.id.clone()]);
    assert!(lines[1].is_collapsed);
    assert_eq!(lines[2].parent_id, Some(second.id));
    assert_eq!(lines[2].time_of_day_minutes, None);
}
