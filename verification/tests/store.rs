use github_project_manager::project::ProjectRecord;
use github_project_manager::selection::{flags_of, selected_indices};
use github_project_manager::store::{
    PersistenceError, ProjectStore, RegistrationError, RepositoryProbe,
};
use serde_json::Value;

fn record(path: &str, name: &str, notes: &str) -> ProjectRecord {
    ProjectRecord::new(path.to_string(), name.to_string(), notes.to_string())
}

fn four() -> ProjectStore {
    ProjectStore::from_records(vec![
        record("/r/a", "a", ""),
        record("/r/b", "b", "second"),
        record("/r/c", "c", ""),
        record("/r/d", "d", "fourth"),
    ])
}

fn names(store: &ProjectStore) -> Vec<String> {
    store.records().iter().map(|r| r.name.clone()).collect()
}

#[test]
fn register_rejects_a_path_that_is_no_repository() {
    let mut store = four();
    let before = store.snapshot();
    let result = store.register(&record("/nowhere", "x", "n"), RepositoryProbe::Unopenable);
    assert_eq!(result, Err(RegistrationError::NotARepository));
    assert_eq!(store.snapshot(), before);
    assert_eq!(store.len(), 4);
}

#[test]
fn register_rejects_a_repository_without_origin() {
    let mut store = ProjectStore::new();
    let result = store.register(&record("/r/a", "a", ""), RepositoryProbe::MissingOrigin);
    assert_eq!(result, Err(RegistrationError::NoOriginRemote));
    assert!(store.is_empty());
}

#[test]
fn register_rejects_an_empty_path_whatever_the_rest() {
    for probe in [
        RepositoryProbe::Unopenable,
        RepositoryProbe::MissingOrigin,
        RepositoryProbe::HasOrigin,
    ] {
        for notes in ["", "some notes"] {
            let mut store = ProjectStore::new();
            let result = store.register(&record("", "a", notes), probe);
            assert_eq!(result, Err(RegistrationError::EmptyField));
            assert!(store.is_empty());
        }
    }
}

#[test]
fn register_rejects_an_empty_name_whatever_the_rest() {
    for probe in [
        RepositoryProbe::Unopenable,
        RepositoryProbe::MissingOrigin,
        RepositoryProbe::HasOrigin,
    ] {
        for notes in ["", "some notes"] {
            let mut store = ProjectStore::new();
            let result = store.register(&record("/r/a", "", notes), probe);
            assert_eq!(result, Err(RegistrationError::EmptyField));
            assert!(store.is_empty());
        }
    }
}

#[test]
fn register_rejects_both_fields_empty() {
    let mut store = ProjectStore::new();
    let result = store.register(&record("", "", "n"), RepositoryProbe::HasOrigin);
    assert_eq!(result, Err(RegistrationError::EmptyField));
}

#[test]
fn register_accepts_empty_notes() {
    let mut store = ProjectStore::new();
    let result = store.register(&record("/r/a", "a", ""), RepositoryProbe::HasOrigin);
    assert_eq!(result, Ok(()));
    assert_eq!(store.len(), 1);
    assert_eq!(store.get(0), Some(&record("/r/a", "a", "")));
    assert_eq!(store.get(1), None);
}

#[test]
fn register_keeps_insertion_order_and_allows_duplicates() {
    let mut store = ProjectStore::new();
    for name in ["one", "two", "one", "three"] {
        let result = store.register(&record("/same", name, ""), RepositoryProbe::HasOrigin);
        assert_eq!(result, Ok(()));
    }
    assert_eq!(names(&store), vec!["one", "two", "one", "three"]);
}

#[test]
fn a_failed_registration_between_two_good_ones_leaves_no_trace() {
    let mut store = ProjectStore::new();
    assert!(store.register(&record("/r/a", "a", ""), RepositoryProbe::HasOrigin).is_ok());
    assert!(store.register(&record("/r/x", "x", ""), RepositoryProbe::Unopenable).is_err());
    assert!(store.register(&record("/r/b", "b", ""), RepositoryProbe::HasOrigin).is_ok());
    assert_eq!(names(&store), vec!["a", "b"]);
}

#[test]
fn restore_without_an_image_is_empty() {
    let store = ProjectStore::restore(None);
    assert!(store.is_empty());
    assert_eq!(store.len(), 0);
}

#[test]
fn restore_takes_the_records_as_read_without_checking_them() {
    let store = ProjectStore::restore(Some(vec![record("", "", ""), record("/r/a", "a", "")]));
    assert_eq!(store.len(), 2);
    assert_eq!(store.get(0), Some(&record("", "", "")));
}

#[test]
fn snapshot_restored_gives_the_same_records_in_order() {
    let mut store = ProjectStore::new();
    let wanted = vec![
        record("/r/a", "a", "first"),
        record("/r/b", "b", ""),
        record("/r/c", "c", "third"),
    ];
    for candidate in &wanted {
        assert!(store.register(candidate, RepositoryProbe::HasOrigin).is_ok());
    }
    let reloaded = ProjectStore::restore(Some(store.snapshot()));
    assert_eq!(reloaded.records(), &wanted);
}

#[test]
fn durable_image_round_trip_keeps_insertion_order() {
    let mut store = ProjectStore::new();
    let wanted = vec![
        record("/r/a", "a", "first \"quoted\""),
        record("/r/b", "项目", ""),
        record("/r/c", "c", "line\nbreak"),
    ];
    for candidate in &wanted {
        assert!(store.register(candidate, RepositoryProbe::HasOrigin).is_ok());
    }
    let mut array = Vec::new();
    for r in store.snapshot() {
        let mut object = serde_json::Map::new();
        object.insert("path".to_string(), Value::String(r.path));
        object.insert("name".to_string(), Value::String(r.name));
        object.insert("notes".to_string(), Value::String(r.notes));
        array.push(Value::Object(object));
    }
    let image = serde_json::to_string_pretty(&Value::Array(array)).unwrap();

    let parsed: Value = serde_json::from_str(&image).unwrap();
    let mut read = Vec::new();
    for item in parsed.as_array().unwrap() {
        read.push(record(
            item["path"].as_str().unwrap(),
            item["name"].as_str().unwrap(),
            item["notes"].as_str().unwrap(),
        ));
    }
    let reloaded = ProjectStore::restore(Some(read));
    assert_eq!(reloaded.records(), &wanted);
}

#[test]
fn removing_indices_1_and_3_of_four_leaves_0_and_2() {
    let mut store = four();
    store.remove(&vec![1, 3]);
    assert_eq!(store.records(), &vec![record("/r/a", "a", ""), record("/r/c", "c", "")]);
}

#[test]
fn remove_reads_the_indices_as_a_set() {
    let mut store = four();
    store.remove(&vec![3, 1, 3, 1, 1]);
    assert_eq!(names(&store), vec!["a", "c"]);
}

#[test]
fn remove_skips_indices_beyond_the_end() {
    let mut store = four();
    store.remove(&vec![4, 17, usize::MAX]);
    assert_eq!(names(&store), vec!["a", "b", "c", "d"]);
    store.remove(&vec![9, 0]);
    assert_eq!(names(&store), vec!["b", "c", "d"]);
}

#[test]
fn remove_with_no_index_changes_nothing() {
    let mut store = four();
    store.remove(&vec![]);
    assert_eq!(names(&store), vec!["a", "b", "c", "d"]);
}

#[test]
fn remove_everything() {
    let mut store = four();
    store.remove(&vec![0, 1, 2, 3]);
    assert!(store.is_empty());
    store.remove(&vec![0]);
    assert!(store.is_empty());
}

#[test]
fn remove_flagged_removes_what_is_checked() {
    let mut store = four();
    store.remove_flagged(&vec![true, false, false, true]);
    assert_eq!(names(&store), vec!["b", "c"]);
}

#[test]
fn remove_flagged_with_shorter_or_longer_flags() {
    let mut store = four();
    store.remove_flagged(&vec![false, true]);
    assert_eq!(names(&store), vec!["a", "c", "d"]);
    store.remove_flagged(&vec![false, false, true, true, true, true]);
    assert_eq!(names(&store), vec!["a", "c"]);
}

#[test]
fn select_follows_the_order_of_the_indices() {
    let store = four();
    let picked: Vec<String> = store.select(&vec![2, 0, 7, 2]).into_iter().map(|r| r.name).collect();
    assert_eq!(picked, vec!["c", "a", "c"]);
    assert_eq!(store.len(), 4);
}

#[test]
fn set_notes_changes_the_notes_only() {
    let mut store = four();
    store.set_notes(1, "rewritten".to_string());
    assert_eq!(store.get(1), Some(&record("/r/b", "b", "rewritten")));
    assert_eq!(store.get(0), Some(&record("/r/a", "a", "")));
    store.set_notes(4, "nobody".to_string());
    assert_eq!(store.len(), 4);
    assert_eq!(store.get(3), Some(&record("/r/d", "d", "fourth")));
}

#[test]
fn selected_indices_are_the_flagged_positions_ascending() {
    assert_eq!(selected_indices(&vec![false, true, true, false, true]), vec![1, 2, 4]);
    assert_eq!(selected_indices(&vec![]), Vec::<usize>::new());
    assert_eq!(selected_indices(&vec![false, false]), Vec::<usize>::new());
}

#[test]
fn flags_of_marks_the_named_positions() {
    assert_eq!(flags_of(&vec![3, 0, 3, 8], 5), vec![true, false, false, true, false]);
    assert_eq!(flags_of(&vec![1], 0), Vec::<bool>::new());
}

#[test]
fn flags_and_indices_name_the_same_records() {
    let flags = vec![true, false, true, false];
    let mut by_flags = four();
    by_flags.remove_flagged(&flags);
    let mut by_indices = four();
    by_indices.remove(&selected_indices(&flags));
    assert_eq!(by_flags.records(), by_indices.records());
}

#[test]
fn registration_error_messages() {
    let candidate = record("/r/a", "demo", "n");
    assert_eq!(RegistrationError::EmptyField.message_text(&candidate), "项目路径和名称不能为空");
    assert_eq!(
        RegistrationError::NotARepository.message_text(&candidate),
        "项目路径 /r/a 不存在或不是一个有效的Git仓库"
    );
    assert_eq!(
        RegistrationError::NoOriginRemote.message_text(&candidate),
        "项目 demo 不是一个有效的Git仓库或没有origin远程仓库"
    );
}

#[test]
fn persistence_error_message_carries_the_reason() {
    let error = PersistenceError::WriteFailed("disk full".to_string());
    assert_eq!(error.message_text(), "无法保存配置文件: disk full");
}

#[test]
fn has_required_fields_looks_at_path_and_name_only() {
    assert!(record("/r/a", "a", "").has_required_fields());
    assert!(!record("", "a", "n").has_required_fields());
    assert!(!record("/r/a", "", "n").has_required_fields());
}
