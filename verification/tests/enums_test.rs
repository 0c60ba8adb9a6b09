use menahel::enums::{get_max_task_level, TaskLevel, TaskStatus};

#[test]
fn task_level_round_trip() {
    for level in [TaskLevel::Major, TaskLevel::Minor, TaskLevel::Trivial] {
        assert_eq!(TaskLevel::from_int(level.to_int()).unwrap(), level);
    }
    assert_eq!(TaskLevel::Minor.to_int(), 1);
    assert_eq!(get_max_task_level(), 2);
}

#[test]
fn task_level_invalid() {
    let e = TaskLevel::from_int(7).unwrap_err();
    assert_eq!(e, "[TaskLevelInvalid] Invalid task level: (Level = 7)");
    let e = TaskLevel::from_int(-12).unwrap_err();
    assert_eq!(e, "[TaskLevelInvalid] Invalid task level: (Level = -12)");
}

#[test]
fn task_status_codes() {
    assert_eq!(TaskStatus::from_short_string("rv").unwrap(), TaskStatus::Reviewing);
    assert_eq!(TaskStatus::Done.to_short_string(), "dn");
    assert_eq!(TaskStatus::from_int(3).unwrap(), TaskStatus::Cancelled);
    assert_eq!(
        TaskStatus::from_short_string("xx").unwrap_err(),
        "[TaskStatusInvalid] Invalid task status: (Status = xx)"
    );
}
