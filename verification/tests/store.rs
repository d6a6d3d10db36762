use vocab_store::database::{new_word, seed_image_name, seed_setting, seed_word, Database};
use vocab_store::paths::{AppPaths, PlatformDirs};
use vocab_store::records::{StoreError, SystemSetting, VocabularyRecord};
use vocab_store::rules::{assert_mutable, check_capacity, needs_insert, needs_seed, rows_changed};

fn paths() -> AppPaths {
    let mut dirs = PlatformDirs::unresolved();
    dirs.app_data_dir = Some("/data/app".to_string());
    let mut paths = AppPaths::new();
    paths.init(&dirs);
    paths
}

fn word(text: &str) -> VocabularyRecord {
    VocabularyRecord {
        id: None,
        word: text.to_string(),
        translation: format!("{}-translated", text),
        image_path: format!("/data/app/images/{}.png", text),
        phonetic: Some(format!("/{}/", text)),
        example: Some(format!("An example with {}.", text)),
        color: None,
        is_default: false,
    }
}

fn ids(records: &Vec<VocabularyRecord>) -> Vec<i64> {
    let mut out = Vec::new();
    for r in records {
        out.push(r.id.unwrap());
    }
    out
}

fn value_of(setting: Option<SystemSetting>) -> Option<String> {
    match setting {
        Some(s) => Some(s.value),
        None => None,
    }
}

#[test]
fn new_store_holds_the_default_word() {
    let db = Database::new(&paths());
    let all = db.get_all_vocabulary();
    assert_eq!(all.len(), 1);
    assert_eq!(all[0].id, Some(1));
    assert_eq!(all[0].word, "☆");
    assert_eq!(all[0].translation, "礼袋");
    assert_eq!(all[0].image_path, "/data/app/images/lidai.jpg");
    assert_eq!(all[0].phonetic, None);
    assert_eq!(all[0].example, None);
    assert_eq!(all[0].color, Some("#ffbad8".to_string()));
    assert!(all[0].is_default);
}

#[test]
fn new_store_has_the_default_word_active() {
    let db = Database::new(&paths());
    assert_eq!(ids(&db.get_active_words()), vec![1]);
}

#[test]
fn new_store_holds_the_default_setting() {
    let db = Database::new(&paths());
    let all = db.get_all_system_settings();
    assert_eq!(all.len(), 1);
    assert_eq!(all[0].key, "max_prize_draws");
    assert_eq!(all[0].value, "1");
    assert_eq!(all[0].description, Some("普通奖品最多抽取次数".to_string()));
}

#[test]
fn empty_store_holds_nothing() {
    let db = Database::empty();
    assert_eq!(db.get_all_vocabulary().len(), 0);
    assert_eq!(db.get_active_words().len(), 0);
    assert_eq!(db.get_all_system_settings().len(), 0);
}

#[test]
fn add_gives_increasing_ids_and_ignores_the_given_one() {
    let mut db = Database::new(&paths());
    let mut first = word("apple");
    first.id = Some(77);
    assert_eq!(db.add_vocabulary(first), Ok(2));
    assert_eq!(db.add_vocabulary(word("pear")), Ok(3));
    let got = db.get_vocabulary_by_id(2).unwrap();
    assert_eq!(got.id, Some(2));
    assert_eq!(got.word, "apple");
    assert_eq!(got.translation, "apple-translated");
    assert_eq!(got.phonetic, Some("/apple/".to_string()));
    assert!(!got.is_default);
    assert!(db.get_vocabulary_by_id(77).is_none());
}

#[test]
fn ids_are_not_given_twice() {
    let mut db = Database::new(&paths());
    assert_eq!(db.add_vocabulary(word("apple")), Ok(2));
    assert_eq!(db.delete_vocabulary(2), Ok(true));
    assert_eq!(db.add_vocabulary(word("pear")), Ok(3));
}

#[test]
fn same_word_may_be_added_twice() {
    let mut db = Database::new(&paths());
    assert_eq!(db.add_vocabulary(word("apple")), Ok(2));
    assert_eq!(db.add_vocabulary(word("apple")), Ok(3));
    assert_eq!(db.get_all_vocabulary().len(), 3);
}

#[test]
fn get_by_id_of_a_missing_record_is_none() {
    let db = Database::new(&paths());
    assert!(db.get_vocabulary_by_id(42).is_none());
}

#[test]
fn deleted_record_is_absent() {
    let mut db = Database::new(&paths());
    let id = db.add_vocabulary(word("apple")).unwrap();
    assert!(db.get_vocabulary_by_id(id).is_some());
    assert_eq!(db.delete_vocabulary(id), Ok(true));
    assert!(db.get_vocabulary_by_id(id).is_none());
    assert_eq!(ids(&db.get_all_vocabulary()), vec![1]);
}

#[test]
fn delete_of_a_missing_record_is_false() {
    let mut db = Database::new(&paths());
    assert_eq!(db.delete_vocabulary(42), Ok(false));
    assert_eq!(db.get_all_vocabulary().len(), 1);
}

#[test]
fn delete_takes_the_word_out_of_the_active_set() {
    let mut db = Database::new(&paths());
    let a = db.add_vocabulary(word("apple")).unwrap();
    let b = db.add_vocabulary(word("pear")).unwrap();
    assert_eq!(db.add_active_word(a), Ok(true));
    assert_eq!(db.add_active_word(b), Ok(true));
    assert_eq!(db.delete_vocabulary(a), Ok(true));
    assert_eq!(ids(&db.get_active_words()), vec![b, 1]);
}

#[test]
fn default_record_cannot_be_deleted() {
    let mut db = Database::new(&paths());
    assert_eq!(db.delete_vocabulary(1), Err(StoreError::ProtectedRecord));
    assert!(db.get_vocabulary_by_id(1).is_some());
    assert_eq!(ids(&db.get_active_words()), vec![1]);
}

#[test]
fn default_record_cannot_be_edited() {
    let mut db = Database::new(&paths());
    let r = db.update_vocabulary(
        1,
        "x".to_string(),
        "y".to_string(),
        "/z.png".to_string(),
        Some("#000000".to_string()),
    );
    assert_eq!(r, Err(StoreError::ProtectedRecord));
    let r = db.update_vocabulary(1, String::new(), String::new(), String::new(), None);
    assert_eq!(r, Err(StoreError::ProtectedRecord));
    let got = db.get_vocabulary_by_id(1).unwrap();
    assert_eq!(got.word, "☆");
    assert_eq!(got.translation, "礼袋");
    assert_eq!(got.color, Some("#ffbad8".to_string()));
}

#[test]
fn default_record_cannot_be_recoloured() {
    let mut db = Database::new(&paths());
    assert_eq!(
        db.update_vocabulary_color(1, "#123456".to_string()),
        Err(StoreError::ProtectedRecord)
    );
    assert_eq!(db.get_vocabulary_by_id(1).unwrap().color, Some("#ffbad8".to_string()));
}

#[test]
fn default_record_takes_a_new_image() {
    let mut db = Database::new(&paths());
    assert!(db.update_vocabulary_image(1, "/data/app/images/new.png".to_string()));
    let got = db.get_vocabulary_by_id(1).unwrap();
    assert_eq!(got.image_path, "/data/app/images/new.png");
    assert_eq!(got.word, "☆");
    assert!(got.is_default);
}

#[test]
fn record_added_as_default_is_protected() {
    let mut db = Database::new(&paths());
    let mut seed = word("seed");
    seed.is_default = true;
    let id = db.add_vocabulary(seed).unwrap();
    assert_eq!(db.delete_vocabulary(id), Err(StoreError::ProtectedRecord));
    assert_eq!(db.add_active_word(id), Err(StoreError::ProtectedRecord));
    assert_eq!(db.remove_active_word(id), Err(StoreError::ProtectedRecord));
}

#[test]
fn update_overwrites_four_fields_and_keeps_the_rest() {
    let mut db = Database::new(&paths());
    let id = db.add_vocabulary(word("apple")).unwrap();
    let r = db.update_vocabulary(
        id,
        "apfel".to_string(),
        "apple (de)".to_string(),
        "/data/app/images/apfel.png".to_string(),
        Some("#00ff00".to_string()),
    );
    assert_eq!(r, Ok(true));
    let got = db.get_vocabulary_by_id(id).unwrap();
    assert_eq!(got.id, Some(id));
    assert_eq!(got.word, "apfel");
    assert_eq!(got.translation, "apple (de)");
    assert_eq!(got.image_path, "/data/app/images/apfel.png");
    assert_eq!(got.color, Some("#00ff00".to_string()));
    assert_eq!(got.phonetic, Some("/apple/".to_string()));
    assert_eq!(got.example, Some("An example with apple.".to_string()));
    assert!(!got.is_default);
}

#[test]
fn update_can_clear_the_colour() {
    let mut db = Database::new(&paths());
    let id = db.add_vocabulary(word("apple")).unwrap();
    assert_eq!(db.update_vocabulary_color(id, "#112233".to_string()), Ok(true));
    let r = db.update_vocabulary(id, "a".to_string(), "b".to_string(), "c".to_string(), None);
    assert_eq!(r, Ok(true));
    assert_eq!(db.get_vocabulary_by_id(id).unwrap().color, None);
}

#[test]
fn update_of_a_missing_record_is_false() {
    let mut db = Database::new(&paths());
    let r = db.update_vocabulary(9, "a".to_string(), "b".to_string(), "c".to_string(), None);
    assert_eq!(r, Ok(false));
    assert_eq!(db.update_vocabulary_color(9, "#112233".to_string()), Ok(false));
    assert!(!db.update_vocabulary_image(9, "/x.png".to_string()));
    assert_eq!(db.get_all_vocabulary().len(), 1);
}

#[test]
fn update_color_changes_only_the_colour() {
    let mut db = Database::new(&paths());
    let id = db.add_vocabulary(word("apple")).unwrap();
    let other = db.add_vocabulary(word("pear")).unwrap();
    assert_eq!(db.update_vocabulary_color(id, "#112233".to_string()), Ok(true));
    let got = db.get_vocabulary_by_id(id).unwrap();
    assert_eq!(got.color, Some("#112233".to_string()));
    assert_eq!(got.word, "apple");
    assert_eq!(got.image_path, "/data/app/images/apple.png");
    assert_eq!(db.get_vocabulary_by_id(other).unwrap().color, None);
}

#[test]
fn update_image_changes_only_the_image() {
    let mut db = Database::new(&paths());
    let id = db.add_vocabulary(word("apple")).unwrap();
    assert!(db.update_vocabulary_image(id, "/new.gif".to_string()));
    let got = db.get_vocabulary_by_id(id).unwrap();
    assert_eq!(got.image_path, "/new.gif");
    assert_eq!(got.word, "apple");
    assert_eq!(got.translation, "apple-translated");
}

#[test]
fn active_words_come_most_recent_first() {
    let mut db = Database::new(&paths());
    let a = db.add_vocabulary(word("A")).unwrap();
    let b = db.add_vocabulary(word("B")).unwrap();
    let c = db.add_vocabulary(word("C")).unwrap();
    assert_eq!(db.add_active_word(a), Ok(true));
    assert_eq!(db.add_active_word(b), Ok(true));
    assert_eq!(db.add_active_word(c), Ok(true));
    let active = db.get_active_words();
    assert_eq!(ids(&active), vec![c, b, a, 1]);
    assert_eq!(active[0].word, "C");
    assert_eq!(active[1].word, "B");
    assert_eq!(active[2].word, "A");
    assert_eq!(active[3].word, "☆");
}

#[test]
fn adding_an_active_word_again_moves_it_to_the_front() {
    let mut db = Database::new(&paths());
    let a = db.add_vocabulary(word("A")).unwrap();
    let b = db.add_vocabulary(word("B")).unwrap();
    assert_eq!(db.add_active_word(a), Ok(true));
    assert_eq!(db.add_active_word(b), Ok(true));
    assert_eq!(db.add_active_word(a), Ok(true));
    assert_eq!(ids(&db.get_active_words()), vec![a, b, 1]);
}

#[test]
fn sixth_active_word_is_refused() {
    let mut db = Database::new(&paths());
    let mut added = Vec::new();
    for i in 0..5 {
        added.push(db.add_vocabulary(word(&format!("w{}", i))).unwrap());
    }
    for i in 0..4 {
        assert_eq!(db.add_active_word(added[i]), Ok(true));
    }
    assert_eq!(db.get_active_words().len(), 5);
    assert_eq!(db.add_active_word(added[4]), Err(StoreError::CapacityExceeded));
    assert_eq!(db.get_active_words().len(), 5);
    assert_eq!(ids(&db.get_active_words()), vec![added[3], added[2], added[1], added[0], 1]);
}

#[test]
fn five_other_words_fill_the_active_set() {
    let mut db = Database::empty();
    let mut added = Vec::new();
    for i in 0..6 {
        added.push(db.add_vocabulary(word(&format!("w{}", i))).unwrap());
    }
    for i in 0..5 {
        assert_eq!(db.add_active_word(added[i]), Ok(true));
    }
    assert_eq!(db.add_active_word(added[5]), Err(StoreError::CapacityExceeded));
    assert_eq!(db.get_active_words().len(), 5);
}

#[test]
fn full_active_set_refuses_a_word_that_is_active() {
    let mut db = Database::new(&paths());
    let mut added = Vec::new();
    for i in 0..4 {
        added.push(db.add_vocabulary(word(&format!("w{}", i))).unwrap());
        assert_eq!(db.add_active_word(added[i]), Ok(true));
    }
    assert_eq!(db.add_active_word(added[0]), Err(StoreError::CapacityExceeded));
}

#[test]
fn room_comes_back_when_a_word_leaves() {
    let mut db = Database::new(&paths());
    let mut added = Vec::new();
    for i in 0..5 {
        added.push(db.add_vocabulary(word(&format!("w{}", i))).unwrap());
    }
    for i in 0..4 {
        assert_eq!(db.add_active_word(added[i]), Ok(true));
    }
    assert_eq!(db.remove_active_word(added[1]), Ok(true));
    assert_eq!(db.add_active_word(added[4]), Ok(true));
    assert_eq!(ids(&db.get_active_words()), vec![added[4], added[3], added[2], added[0], 1]);
}

#[test]
fn default_word_cannot_be_added_to_the_active_set() {
    let mut db = Database::new(&paths());
    assert_eq!(db.add_active_word(1), Err(StoreError::ProtectedRecord));
    assert_eq!(ids(&db.get_active_words()), vec![1]);
}

#[test]
fn default_word_is_refused_before_the_capacity_is_looked_at() {
    let mut db = Database::new(&paths());
    for i in 0..4 {
        let id = db.add_vocabulary(word(&format!("w{}", i))).unwrap();
        assert_eq!(db.add_active_word(id), Ok(true));
    }
    assert_eq!(db.add_active_word(1), Err(StoreError::ProtectedRecord));
}

#[test]
fn default_word_cannot_be_removed_from_the_active_set() {
    let mut db = Database::new(&paths());
    assert_eq!(db.remove_active_word(1), Err(StoreError::ProtectedRecord));
    assert_eq!(ids(&db.get_active_words()), vec![1]);
}

#[test]
fn word_without_record_cannot_be_made_active() {
    let mut db = Database::new(&paths());
    assert_eq!(db.add_active_word(42), Err(StoreError::Persistence));
    assert_eq!(ids(&db.get_active_words()), vec![1]);
}

#[test]
fn remove_says_whether_the_word_was_active() {
    let mut db = Database::new(&paths());
    let a = db.add_vocabulary(word("A")).unwrap();
    assert_eq!(db.remove_active_word(a), Ok(false));
    assert_eq!(db.add_active_word(a), Ok(true));
    assert_eq!(db.remove_active_word(a), Ok(true));
    assert_eq!(db.remove_active_word(a), Ok(false));
    assert_eq!(db.remove_active_word(42), Ok(false));
    assert_eq!(ids(&db.get_active_words()), vec![1]);
}

#[test]
fn setting_twice_keeps_the_last_value() {
    let mut db = Database::new(&paths());
    assert_eq!(db.update_system_setting("k", "v1"), Ok(true));
    assert_eq!(db.update_system_setting("k", "v2"), Ok(true));
    assert_eq!(value_of(db.get_system_setting("k")), Some("v2".to_string()));
    let all = db.get_all_system_settings();
    assert_eq!(all.len(), 2);
    assert_eq!(all[1].key, "k");
    assert_eq!(all[1].value, "v2");
    assert_eq!(all[1].description, None);
}

#[test]
fn setting_an_existing_key_keeps_its_description() {
    let mut db = Database::new(&paths());
    assert_eq!(db.update_system_setting("max_prize_draws", "3"), Ok(true));
    let got = db.get_system_setting("max_prize_draws").unwrap();
    assert_eq!(got.value, "3");
    assert_eq!(got.description, Some("普通奖品最多抽取次数".to_string()));
    assert_eq!(db.get_all_system_settings().len(), 1);
}

#[test]
fn setting_the_same_value_again_is_true() {
    let mut db = Database::new(&paths());
    assert_eq!(db.update_system_setting("k", "v"), Ok(true));
    assert_eq!(db.update_system_setting("k", "v"), Ok(true));
    assert_eq!(db.get_all_system_settings().len(), 2);
}

#[test]
fn missing_setting_is_none() {
    let db = Database::new(&paths());
    assert!(db.get_system_setting("nothing").is_none());
    assert!(db.get_system_setting("").is_none());
    assert!(db.get_system_setting("max_prize_draw").is_none());
}

#[test]
fn seeding_settings_again_keeps_the_stored_value() {
    let mut db = Database::new(&paths());
    assert_eq!(db.update_system_setting("max_prize_draws", "9"), Ok(true));
    db.init_default_settings();
    db.init_default_settings();
    assert_eq!(value_of(db.get_system_setting("max_prize_draws")), Some("9".to_string()));
    assert_eq!(db.get_all_system_settings().len(), 1);
}

#[test]
fn seeding_vocabulary_again_changes_nothing() {
    let mut db = Database::new(&paths());
    let a = db.add_vocabulary(word("A")).unwrap();
    assert_eq!(db.add_active_word(a), Ok(true));
    assert_eq!(db.init_default_vocabulary(&paths()), Ok(()));
    assert_eq!(ids(&db.get_all_vocabulary()), vec![1, a]);
    assert_eq!(ids(&db.get_active_words()), vec![a, 1]);
}

#[test]
fn seeding_an_emptied_store_gives_a_new_default_word() {
    let mut db = Database::empty();
    let a = db.add_vocabulary(word("A")).unwrap();
    assert_eq!(db.delete_vocabulary(a), Ok(true));
    assert_eq!(db.init_default_vocabulary(&paths()), Ok(()));
    let all = db.get_all_vocabulary();
    assert_eq!(all.len(), 1);
    assert_eq!(all[0].id, Some(2));
    assert!(all[0].is_default);
    assert_eq!(ids(&db.get_active_words()), vec![2]);
}

#[test]
fn duplicate_is_a_copy() {
    let r = word("apple");
    let c = r.duplicate();
    assert_eq!(c.word, r.word);
    assert_eq!(c.translation, r.translation);
    assert_eq!(c.image_path, r.image_path);
    assert_eq!(c.phonetic, r.phonetic);
    assert_eq!(c.example, r.example);
    assert_eq!(c.color, r.color);
    assert_eq!(c.id, r.id);
    assert_eq!(c.is_default, r.is_default);
    let s = SystemSetting { key: "k".to_string(), value: "v".to_string(), description: None };
    let d = s.duplicate();
    assert_eq!(d.key, "k");
    assert_eq!(d.value, "v");
    assert_eq!(d.description, None);
}

#[test]
fn guard_refuses_only_default_records() {
    assert_eq!(assert_mutable(Some(true)), Err(StoreError::ProtectedRecord));
    assert_eq!(assert_mutable(Some(false)), Ok(()));
    assert_eq!(assert_mutable(None), Ok(()));
}

#[test]
fn capacity_is_five() {
    assert_eq!(check_capacity(0), Ok(()));
    assert_eq!(check_capacity(4), Ok(()));
    assert_eq!(check_capacity(5), Err(StoreError::CapacityExceeded));
    assert_eq!(check_capacity(6), Err(StoreError::CapacityExceeded));
    assert_eq!(check_capacity(-1), Ok(()));
}

#[test]
fn row_counts_decide() {
    assert!(!rows_changed(0));
    assert!(rows_changed(1));
    assert!(rows_changed(7));
    assert!(needs_insert(0));
    assert!(!needs_insert(1));
    assert!(needs_seed(0));
    assert!(!needs_seed(1));
}

#[test]
fn each_error_has_its_message() {
    let all = [
        StoreError::Persistence,
        StoreError::ProtectedRecord,
        StoreError::CapacityExceeded,
        StoreError::NotFound,
        StoreError::Decode,
        StoreError::Io,
    ];
    for (i, a) in all.iter().enumerate() {
        assert!(!a.message().is_empty());
        for (j, b) in all.iter().enumerate() {
            if i != j {
                assert_ne!(a.message(), b.message());
            }
        }
    }
    assert_eq!(StoreError::ProtectedRecord.message(), "default words cannot be changed");
}

#[test]
fn default_word_stays_active_through_changes() {
    let mut db = Database::new(&paths());
    let a = db.add_vocabulary(word("A")).unwrap();
    let b = db.add_vocabulary(word("B")).unwrap();
    assert_eq!(db.add_active_word(a), Ok(true));
    assert_eq!(db.add_active_word(b), Ok(true));
    assert_eq!(db.remove_active_word(a), Ok(true));
    assert_eq!(db.delete_vocabulary(b), Ok(true));
    assert_eq!(db.delete_vocabulary(a), Ok(true));
    let active = db.get_active_words();
    assert_eq!(ids(&active), vec![1]);
    assert!(active[0].is_default);
}

#[test]
fn active_set_stays_within_five_through_many_calls() {
    let mut db = Database::new(&paths());
    let mut added = Vec::new();
    for i in 0..8 {
        added.push(db.add_vocabulary(word(&format!("w{}", i))).unwrap());
    }
    for round in 0..3 {
        for (i, id) in added.iter().enumerate() {
            let _ = db.add_active_word(*id);
            if (i + round) % 3 == 0 {
                let _ = db.remove_active_word(*id);
            }
            assert!(db.get_active_words().len() <= 5);
        }
    }
    assert!(ids(&db.get_active_words()).contains(&1));
}

#[test]
fn entered_word_has_its_image_in_the_image_directory() {
    let r = new_word(
        &paths(),
        "apple".to_string(),
        "苹果".to_string(),
        "apple.png",
        Some("#ff0000".to_string()),
    );
    assert_eq!(r.id, None);
    assert_eq!(r.word, "apple");
    assert_eq!(r.translation, "苹果");
    assert_eq!(r.image_path, "/data/app/images/apple.png");
    assert_eq!(r.phonetic, None);
    assert_eq!(r.example, None);
    assert_eq!(r.color, Some("#ff0000".to_string()));
    assert!(!r.is_default);
    let mut db = Database::new(&paths());
    assert_eq!(db.add_vocabulary(r), Ok(2));
    assert_eq!(db.get_vocabulary_by_id(2).unwrap().image_path, "/data/app/images/apple.png");
}

#[test]
fn seeds_are_the_default_word_and_setting() {
    let w = seed_word("/x/lidai.jpg".to_string());
    assert_eq!(w.id, None);
    assert_eq!(w.word, "☆");
    assert_eq!(w.translation, "礼袋");
    assert_eq!(w.image_path, "/x/lidai.jpg");
    assert_eq!(w.color, Some("#ffbad8".to_string()));
    assert!(w.is_default);
    assert_eq!(seed_image_name(), "lidai.jpg");
    let s = seed_setting();
    assert_eq!(s.key, "max_prize_draws");
    assert_eq!(s.value, "1");
    assert_eq!(s.description, Some("普通奖品最多抽取次数".to_string()));
}
