use cycle_planner::error::{ErrorKind, StoreError};
use cycle_planner::ident::Ambient;
use cycle_planner::model::{CycleData, CycleMeta, IndexData};
use cycle_planner::cycle_store::{empty_cycle_data, ensure_cycle_data, save_cycle_data};
use cycle_planner::index_store::{
    create_cycle, find_cycle, import_cycle, load_index, lookup_cycle, position, select_cycle,
};
use serde_json::Value;
use std::path::Path;

fn entry(id: &str, name: &str, folder: &str) -> CycleMeta {
    CycleMeta {
        id: id.to_string(),
        name: name.to_string(),
        created_at: "1700000000".to_string(),
        folder_path: folder.to_string(),
    }
}

fn two_cycles() -> IndexData {
    IndexData {
        cycles: vec![entry("cycle_a", "Spring", "/plans/spring"), entry("cycle_b", "Fall", "/plans/fall")],
        selected_cycle_id: Some("cycle_a".to_string()),
    }
}

fn ambient(random: u64) -> Ambient {
    Ambient { random, unix_seconds: 1_750_000_000, verbatim_paths: false }
}

fn content(id: &str, name: &str, created_at: &str) -> CycleData {
    CycleData {
        id: id.to_string(),
        name: name.to_string(),
        created_at: created_at.to_string(),
        goals: vec![Value::from("ship"), Value::from(3)],
        works: vec![Value::from(vec![Value::from(true), Value::Null])],
        tasks: vec![],
    }
}

#[test]
fn load_index_without_a_file_is_empty() {
    let index = load_index(None, &ambient(1));
    assert!(index.cycles.is_empty());
    assert_eq!(index.selected_cycle_id, None);
    assert_eq!(index, IndexData::empty());
    assert_eq!(index, IndexData::default());
}

#[test]
fn load_index_normalizes_folder_paths() {
    let stored = IndexData {
        cycles: vec![
            entry("cycle_a", "Spring", r"\\?\C:\plans\spring"),
            entry("cycle_b", "Fall", r"\\?\UNC\nas\plans\fall"),
            entry("cycle_c", "Next", "/plans/next"),
        ],
        selected_cycle_id: Some("cycle_b".to_string()),
    };
    let verbatim = Ambient { random: 0, unix_seconds: 0, verbatim_paths: true };
    let index = load_index(Some(stored.clone()), &verbatim);
    assert_eq!(index.cycles.len(), 3);
    assert_eq!(index.cycles[0], entry("cycle_a", "Spring", r"C:\plans\spring"));
    assert_eq!(index.cycles[1], entry("cycle_b", "Fall", r"\\nas\plans\fall"));
    assert_eq!(index.cycles[2], entry("cycle_c", "Next", "/plans/next"));
    assert_eq!(index.selected_cycle_id, Some("cycle_b".to_string()));
    let plain = load_index(Some(stored.clone()), &ambient(0));
    assert_eq!(plain, stored);
}

#[test]
fn find_cycle_returns_the_first_match() {
    let mut index = two_cycles();
    index.cycles.push(entry("cycle_a", "Shadow", "/plans/shadow"));
    assert_eq!(find_cycle(&index, "cycle_a"), Some(entry("cycle_a", "Spring", "/plans/spring")));
    assert_eq!(find_cycle(&index, "cycle_b"), Some(entry("cycle_b", "Fall", "/plans/fall")));
    assert_eq!(find_cycle(&index, "cycle_c"), None);
    assert_eq!(find_cycle(&index, ""), None);
    assert_eq!(position(&index, "cycle_a"), Some(0));
    assert_eq!(position(&index, "cycle_b"), Some(1));
    assert_eq!(position(&index, "cycle"), None);
    assert_eq!(find_cycle(&IndexData::empty(), "cycle_a"), None);
}

#[test]
fn lookup_cycle_fails_with_not_found() {
    let index = two_cycles();
    assert_eq!(lookup_cycle(&index, "cycle_b"), Ok(entry("cycle_b", "Fall", "/plans/fall")));
    assert_eq!(lookup_cycle(&index, "missing"), Err(StoreError::CycleNotFound));
}

#[test]
fn select_cycle_sets_the_selection() {
    let mut index = two_cycles();
    assert_eq!(select_cycle(&mut index, "cycle_b"), Ok(()));
    assert_eq!(index.selected_cycle_id, Some("cycle_b".to_string()));
    assert_eq!(index.cycles, two_cycles().cycles);
}

#[test]
fn select_cycle_with_unknown_id_leaves_the_index() {
    let mut index = two_cycles();
    assert_eq!(select_cycle(&mut index, "cycle_zzz"), Err(StoreError::SelectionNotFound));
    assert_eq!(index, two_cycles());
    let mut empty = IndexData::empty();
    assert_eq!(select_cycle(&mut empty, "cycle_a"), Err(StoreError::SelectionNotFound));
    assert_eq!(empty, IndexData::empty());
}

#[test]
fn create_cycle_adds_and_selects_the_first_cycle() {
    let mut index = IndexData::empty();
    let created =
        create_cycle(&mut index, "My Plan!! 2024".to_string(), "/plans", true, &ambient(0xabcdef123456))
            .unwrap();
    let meta = &created.record.meta;
    assert_eq!(meta.id, "cycle_abcdef123456");
    assert_eq!(meta.name, "My Plan!! 2024");
    assert_eq!(meta.created_at, "1750000000");
    let expected_folder = Path::new("/plans").join("My_Plan___2024_123456");
    assert_eq!(Path::new(&created.directory), expected_folder);
    assert_eq!(Path::new(&meta.folder_path), expected_folder);
    assert_eq!(created.record.data, empty_cycle_data(meta));
    assert!(created.record.data.goals.is_empty());
    assert!(created.record.data.works.is_empty());
    assert!(created.record.data.tasks.is_empty());
    assert_eq!(created.record.data.id, meta.id);
    assert_eq!(created.record.data.name, meta.name);
    assert_eq!(created.record.data.created_at, meta.created_at);
    assert_eq!(index.cycles, vec![meta.clone()]);
    assert_eq!(index.selected_cycle_id, Some(meta.id.clone()));
}

#[test]
fn create_cycle_folder_name_has_a_six_character_suffix() {
    let mut index = IndexData::empty();
    let created =
        create_cycle(&mut index, "My Plan!! 2024".to_string(), "base", true, &Ambient::capture())
            .unwrap();
    let directory = Path::new(&created.directory);
    assert_eq!(directory.parent(), Some(Path::new("base")));
    let folder = directory.file_name().unwrap().to_str().unwrap();
    let suffix = folder.strip_prefix("My_Plan___2024_").expect("sanitized name and underscore");
    assert_eq!(suffix.chars().count(), 6);
    assert!(created.record.meta.id.ends_with(suffix));
}

#[test]
fn create_cycle_suffix_of_a_short_id_is_its_tail() {
    let mut index = IndexData::empty();
    let created = create_cycle(&mut index, "x".to_string(), "p", true, &ambient(0x5)).unwrap();
    assert_eq!(created.record.meta.id, "cycle_5");
    assert_eq!(Path::new(&created.directory), Path::new("p").join("x_ycle_5"));
}

#[test]
fn create_cycle_keeps_an_existing_selection() {
    let mut index = two_cycles();
    let created = create_cycle(&mut index, "Third".to_string(), "/plans", true, &ambient(0x77)).unwrap();
    assert_eq!(index.cycles.len(), 3);
    assert_eq!(index.cycles[0], two_cycles().cycles[0]);
    assert_eq!(index.cycles[1], two_cycles().cycles[1]);
    assert_eq!(index.cycles[2], created.record.meta);
    assert_eq!(index.selected_cycle_id, Some("cycle_a".to_string()));
}

#[test]
fn create_cycle_never_reuses_an_id() {
    let mut index = two_cycles();
    let created = create_cycle(&mut index, "Clash".to_string(), "/plans", true, &ambient(0xa)).unwrap();
    assert_eq!(created.record.meta.id, "cycle_c");
    assert_eq!(find_cycle(&index, "cycle_c"), Some(created.record.meta.clone()));
    let loaded = ensure_cycle_data(&created.record.meta, Some(created.record.data.clone()));
    assert!(loaded.data.goals.is_empty() && loaded.data.works.is_empty() && loaded.data.tasks.is_empty());
    assert!(!loaded.write_back);
    for round in 0..20 {
        let before: Vec<String> = index.cycles.iter().map(|c| c.id.clone()).collect();
        let next = create_cycle(&mut index, format!("n{}", round), "/plans", true, &ambient(0xa)).unwrap();
        assert!(!before.contains(&next.record.meta.id));
    }
}

#[test]
fn create_cycle_rejects_an_invalid_parent() {
    let mut index = two_cycles();
    let failed = create_cycle(&mut index, "Plan".to_string(), "/nowhere", false, &ambient(1));
    assert_eq!(failed, Err(StoreError::InvalidParentFolder));
    assert_eq!(index, two_cycles());
}

#[test]
fn create_cycle_shows_the_folder_without_verbatim_prefix() {
    let mut index = IndexData::empty();
    let verbatim = Ambient { random: 0x1234567, unix_seconds: 5, verbatim_paths: true };
    let created = create_cycle(&mut index, "P".to_string(), r"\\?\C:\plans", true, &verbatim).unwrap();
    let joined = Path::new(r"\\?\C:\plans").join("P_234567");
    assert_eq!(Path::new(&created.directory), joined);
    let shown = joined.to_str().unwrap().strip_prefix(r"\\?\").unwrap().to_string();
    assert_eq!(created.record.meta.folder_path, shown);
    assert_eq!(created.record.meta.created_at, "5");
}

#[test]
fn import_cycle_without_a_file_fails() {
    let mut index = two_cycles();
    assert_eq!(
        import_cycle(&mut index, "/plans/none", None, &ambient(1)),
        Err(StoreError::CycleFileNotFound)
    );
    assert_eq!(index, two_cycles());
}

#[test]
fn import_cycle_appends_and_selects_a_new_cycle() {
    let mut index = two_cycles();
    let stored = content("cycle_x", "Imported", "1600000000");
    let record = import_cycle(&mut index, "/plans/x", Some(stored.clone()), &ambient(1)).unwrap();
    assert_eq!(record.data, stored);
    assert_eq!(
        record.meta,
        CycleMeta {
            id: "cycle_x".to_string(),
            name: "Imported".to_string(),
            created_at: "1600000000".to_string(),
            folder_path: "/plans/x".to_string(),
        }
    );
    assert_eq!(index.cycles.len(), 3);
    assert_eq!(index.cycles[2], record.meta);
    assert_eq!(index.selected_cycle_id, Some("cycle_x".to_string()));
}

#[test]
fn import_cycle_updates_a_known_cycle_in_place() {
    let mut index = two_cycles();
    let stored = content("cycle_a", "Renamed", "1600000001");
    let record = import_cycle(&mut index, "/moved/spring", Some(stored), &ambient(1)).unwrap();
    assert_eq!(index.cycles.len(), 2);
    assert_eq!(index.cycles[0], record.meta);
    assert_eq!(index.cycles[0].name, "Renamed");
    assert_eq!(index.cycles[0].folder_path, "/moved/spring");
    assert_eq!(index.cycles[0].created_at, "1600000001");
    assert_eq!(index.cycles[1], two_cycles().cycles[1]);
    assert_eq!(index.selected_cycle_id, Some("cycle_a".to_string()));
}

#[test]
fn import_cycle_twice_is_idempotent() {
    let mut index = two_cycles();
    let stored = content("", "", "");
    let first = import_cycle(&mut index, "/plans/new", Some(stored), &ambient(0xb)).unwrap();
    let once = index.clone();
    assert_eq!(once.cycles.len(), 3);
    let later = Ambient { random: 99, unix_seconds: 1_800_000_000, verbatim_paths: false };
    let second = import_cycle(&mut index, "/plans/new", Some(first.data.clone()), &later).unwrap();
    assert_eq!(index, once);
    assert_eq!(second, first);
}

#[test]
fn import_cycle_fills_empty_fields() {
    let mut index = two_cycles();
    let record = import_cycle(&mut index, "/plans/new", Some(content("", "", "")), &ambient(0xb)).unwrap();
    assert_eq!(record.data.id, "cycle_c");
    assert_eq!(record.data.name, "Imported Cycle");
    assert_eq!(record.data.created_at, "1750000000");
    assert_eq!(record.data.goals, content("", "", "").goals);
    assert_eq!(record.data.works, content("", "", "").works);
    assert_eq!(record.meta.id, "cycle_c");
    assert_eq!(record.meta.name, "Imported Cycle");
    assert_eq!(record.meta.created_at, "1750000000");
    let mut other = two_cycles();
    let kept = import_cycle(&mut other, "/p", Some(content("", "Own", "")), &ambient(0x10)).unwrap();
    assert_eq!(kept.data.id, "cycle_10");
    assert_eq!(kept.data.name, "Own");
}

#[test]
fn import_cycle_normalizes_the_folder() {
    let mut index = IndexData::empty();
    let verbatim = Ambient { random: 1, unix_seconds: 2, verbatim_paths: true };
    let record =
        import_cycle(&mut index, r"\\?\D:\plans\x", Some(content("cycle_x", "X", "1")), &verbatim).unwrap();
    assert_eq!(record.meta.folder_path, r"D:\plans\x");
    assert_eq!(index.cycles[0].folder_path, r"D:\plans\x");
}

#[test]
fn ensure_cycle_data_heals_a_missing_file() {
    let cycle = entry("cycle_a", "Spring", "/plans/spring");
    let ensured = ensure_cycle_data(&cycle, None);
    assert!(ensured.write_back);
    assert_eq!(
        ensured.data,
        CycleData {
            id: "cycle_a".to_string(),
            name: "Spring".to_string(),
            created_at: "1700000000".to_string(),
            goals: vec![],
            works: vec![],
            tasks: vec![],
        }
    );
}

#[test]
fn ensure_cycle_data_fills_empty_fields_from_the_entry() {
    let cycle = entry("cycle_a", "Spring", "/plans/spring");
    let ensured = ensure_cycle_data(&cycle, Some(content("", "", "")));
    assert!(!ensured.write_back);
    assert_eq!(ensured.data.id, "cycle_a");
    assert_eq!(ensured.data.name, "Spring");
    assert_eq!(ensured.data.created_at, "1700000000");
    assert_eq!(ensured.data.goals, content("", "", "").goals);
    let kept = ensure_cycle_data(&cycle, Some(content("other", "Other", "7")));
    assert_eq!(kept.data, content("other", "Other", "7"));
}

#[test]
fn save_cycle_data_forces_id_and_name() {
    let index = two_cycles();
    let record = save_cycle_data(&index, "cycle_b", content("forged", "Forged", "42")).unwrap();
    assert_eq!(record.meta, two_cycles().cycles[1]);
    assert_eq!(record.data.id, "cycle_b");
    assert_eq!(record.data.name, "Fall");
    assert_eq!(record.data.created_at, "42");
    assert_eq!(record.data.goals, content("", "", "").goals);
    assert_eq!(record.data.works, content("", "", "").works);
    assert_eq!(record.data.tasks, content("", "", "").tasks);
    let defaulted = save_cycle_data(&index, "cycle_b", content("x", "y", "")).unwrap();
    assert_eq!(defaulted.data.created_at, "1700000000");
}

#[test]
fn save_cycle_data_for_an_unknown_cycle_fails() {
    let index = two_cycles();
    assert_eq!(
        save_cycle_data(&index, "cycle_q", content("cycle_q", "Q", "1")),
        Err(StoreError::CycleNotFound)
    );
}

#[test]
fn saved_content_loads_back() {
    let index = two_cycles();
    let record = save_cycle_data(&index, "cycle_a", content("forged", "Forged", "")).unwrap();
    let cycle = lookup_cycle(&index, "cycle_a").unwrap();
    let loaded = ensure_cycle_data(&cycle, Some(record.data.clone()));
    assert!(!loaded.write_back);
    assert_eq!(loaded.data, record.data);
    assert_eq!(loaded.data.id, "cycle_a");
    assert_eq!(loaded.data.name, "Spring");
    assert_eq!(loaded.data.goals, content("", "", "").goals);
}

#[test]
fn payload_survives_the_json_round_trip() {
    let index = two_cycles();
    let record = save_cycle_data(&index, "cycle_a", content("", "", "9")).unwrap();
    let text = serde_json::to_string(&record.data.goals).unwrap();
    let back: Vec<Value> = serde_json::from_str(&text).unwrap();
    assert_eq!(back, record.data.goals);
    assert_eq!(text, "[\"ship\",3]");
}

#[test]
fn store_errors_have_kind_and_message() {
    assert_eq!(StoreError::SelectionNotFound.kind(), ErrorKind::NotFound);
    assert_eq!(StoreError::CycleFileNotFound.kind(), ErrorKind::NotFound);
    assert_eq!(StoreError::CycleNotFound.kind(), ErrorKind::NotFound);
    assert_eq!(StoreError::InvalidParentFolder.kind(), ErrorKind::InvalidInput);
    assert_eq!(StoreError::SelectionNotFound.message(), "Selected Cycle does not exist.");
    assert_eq!(
        StoreError::InvalidParentFolder.message(),
        "The selected parent folder is not valid."
    );
    assert_eq!(StoreError::CycleFileNotFound.message(), "cycle_data.json was not found.");
    assert_eq!(StoreError::CycleNotFound.message(), "Cycle was not found.");
}
