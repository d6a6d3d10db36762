//! The store: vocabulary records, the active words and the settings, kept in
//! memory, with every operation stated against the model.

use crate::model::{
    activate_result, activate_state, active_records, add_result, add_state, after_delete,
    change_result, deactivate_result, deactivate_state, delete_state, has_id, has_key,
    index_of_id, index_of_key, lemma_activate_wf, lemma_add_wf, lemma_deactivate_wf,
    lemma_delete_wf, lemma_record_at, lemma_seed_setting_wf, lemma_set_wf, lemma_setting_at,
    lemma_with_record_wf, record_of, seed_setting_state, set_state, setting_of, store_wf,
    stored, update_color_state, update_image_state, update_state, with_record, without_id,
    StoreView, MAX_ACTIVE_WORDS,
};
use crate::paths::{get_image_path, joined, AppPaths};
use crate::records::{
    copy_text_opt, text_opt_view, RecordView, SettingView, StoreError, SystemSetting,
    VocabularyRecord,
};
use crate::rules::{assert_mutable, check_capacity, needs_insert, needs_seed, rows_changed};
use vstd::prelude::*;
use vstd::string::StringExecFns;

verus! {

/// The views of a sequence of records.
pub open spec fn record_views(records: Seq<VocabularyRecord>) -> Seq<RecordView> {
    records.map_values(|r: VocabularyRecord| r@)
}

/// The views of a sequence of settings.
pub open spec fn setting_views(settings: Seq<SystemSetting>) -> Seq<SettingView> {
    settings.map_values(|s: SystemSetting| s@)
}

/// A store with nothing in it and no identity given out.
pub open spec fn empty_store() -> StoreView {
    StoreView { vocabulary: Seq::empty(), active: Seq::empty(), settings: Seq::empty(), last_id: 0 }
}

/// The store.
pub struct Database {
    vocabulary: Vec<VocabularyRecord>,
    active: Vec<i64>,
    settings: Vec<SystemSetting>,
    last_id: i64,
}

impl View for Database {
    type V = StoreView;

    closed spec fn view(&self) -> StoreView {
        StoreView {
            vocabulary: record_views(self.vocabulary@),
            active: self.active@,
            settings: setting_views(self.settings@),
            last_id: self.last_id as int,
        }
    }
}

/// Takes `id` out of a duplicate-free list of active words and says how many
/// entries left it.
fn remove_word(active: &mut Vec<i64>, id: i64) -> (n: u64)
    requires
        old(active)@.no_duplicates(),
    ensures
        final(active)@ == without_id(old(active)@, id),
        n == if old(active)@.contains(id) {
            1u64
        } else {
            0u64
        },
{
    let mut i: usize = 0;
    while i < active.len()
        invariant
            i <= active.len(),
            *active == *old(active),
            active@.no_duplicates(),
            forall|j: int| 0 <= j < i ==> active@[j] != id,
        decreases active.len() - i,
    {
        if active[i] == id {
            proof {
                let k = active@.index_of(id);
                assert(active@[k] == id);
                assert(k == i);
            }
            active.remove(i);
            return 1;
        }
        i += 1;
    }
    0
}

impl Database {
    /// Whether the contents of the store are consistent.
    pub open spec fn wf(&self) -> bool {
        store_wf(self@)
    }

    /// A store with empty tables.
    pub fn empty() -> (db: Database)
        ensures
            db.wf(),
            db@ == empty_store(),
    {
        let db = Database {
            vocabulary: Vec::new(),
            active: Vec::new(),
            settings: Vec::new(),
            last_id: 0,
        };
        assert(db@.vocabulary =~= Seq::empty());
        assert(db@.settings =~= Seq::empty());
        db
    }

    /// The place of the record `id` in the vocabulary table.
    fn position_of(&self, id: i64) -> (r: Option<usize>)
        requires
            self.wf(),
        ensures
            match r {
                Some(i) => i < self.vocabulary.len() && has_id(self@.vocabulary, id)
                    && index_of_id(self@.vocabulary, id) == i,
                None => !has_id(self@.vocabulary, id),
            },
    {
        let mut i: usize = 0;
        while i < self.vocabulary.len()
            invariant
                i <= self.vocabulary.len(),
                self.wf(),
                forall|j: int| 0 <= j < i ==> (#[trigger] self@.vocabulary[j]).id != Some(id),
            decreases self.vocabulary.len() - i,
        {
            match self.vocabulary[i].id {
                Some(k) => {
                    if k == id {
                        proof {
                            lemma_record_at(self@, i as int, id);
                        }
                        return Some(i);
                    }
                },
                None => {},
            }
            i += 1;
        }
        None
    }

    /// The default flag of the record `id`, if there is such a record.
    fn is_default_of(&self, id: i64) -> (r: Option<bool>)
        requires
            self.wf(),
        ensures
            r == match record_of(self@.vocabulary, id) {
                Some(rec) => Some(rec.is_default),
                None => None,
            },
    {
        match self.position_of(id) {
            Some(i) => Some(self.vocabulary[i].is_default),
            None => None,
        }
    }

    /// Adds `record` under a new identity and returns the identity; the `id`
    /// that `record` came with is not used. Fails where no identity is left.
    pub fn add_vocabulary(&mut self, record: VocabularyRecord) -> (r: Result<i64, StoreError>)
        requires
            old(self).wf(),
        ensures
            final(self).wf(),
            r == add_result(old(self)@),
            final(self)@ == add_state(old(self)@, record@),
    {
        if self.last_id == i64::MAX {
            return Err(StoreError::Persistence);
        }
        let id = self.last_id + 1;
        let mut row = record;
        row.id = Some(id);
        self.vocabulary.push(row);
        self.last_id = id;
        proof {
            assert(self@.vocabulary =~= old(self)@.vocabulary.push(stored(record@, id)));
            lemma_add_wf(old(self)@, record@);
        }
        Ok(id)
    }

    /// All records, in the order in which they were added.
    pub fn get_all_vocabulary(&self) -> (r: Vec<VocabularyRecord>)
        ensures
            record_views(r@) == self@.vocabulary,
    {
        let mut out: Vec<VocabularyRecord> = Vec::new();
        let mut i: usize = 0;
        while i < self.vocabulary.len()
            invariant
                i <= self.vocabulary.len(),
                out.len() == i,
                forall|j: int| 0 <= j < i ==> out@[j]@ == self.vocabulary@[j]@,
            decreases self.vocabulary.len() - i,
        {
            out.push(self.vocabulary[i].duplicate());
            i += 1;
        }
        assert(record_views(out@) =~= self@.vocabulary);
        out
    }

    /// The record `id`, or `None` where there is none.
    pub fn get_vocabulary_by_id(&self, id: i64) -> (r: Option<VocabularyRecord>)
        requires
            self.wf(),
        ensures
            match r {
                Some(rec) => record_of(self@.vocabulary, id) == Some(rec@),
                None => record_of(self@.vocabulary, id) is None,
            },
    {
        match self.position_of(id) {
            Some(i) => Some(self.vocabulary[i].duplicate()),
            None => None,
        }
    }

    /// Takes the record `id` and its place among the active words out of the
    /// tables, whatever its flag, and says how many records left.
    fn delete_rows(&mut self, id: i64) -> (n: u64)
        requires
            old(self).wf(),
        ensures
            final(self).wf(),
            final(self)@ == after_delete(old(self)@, id),
            n == if has_id(old(self)@.vocabulary, id) {
                1u64
            } else {
                0u64
            },
    {
        match self.position_of(id) {
            Some(i) => {
                self.vocabulary.remove(i);
                remove_word(&mut self.active, id);
                proof {
                    assert(self@.vocabulary =~= old(self)@.vocabulary.remove(i as int));
                    lemma_delete_wf(old(self)@, id);
                }
                1
            },
            None => 0,
        }
    }

    /// Puts `row` in the place of the record `id`, and says how many records
    /// were replaced.
    fn replace_row(&mut self, id: i64, row: VocabularyRecord) -> (n: u64)
        requires
            old(self).wf(),
            row.id == Some(id),
        ensures
            final(self).wf(),
            final(self)@ == with_record(old(self)@, id, row@),
            n == if has_id(old(self)@.vocabulary, id) {
                1u64
            } else {
                0u64
            },
    {
        match self.position_of(id) {
            Some(i) => {
                self.vocabulary.set(i, row);
                proof {
                    assert(self@.vocabulary =~= old(self)@.vocabulary.update(i as int, row@));
                    lemma_with_record_wf(old(self)@, id, row@);
                }
                1
            },
            None => 0,
        }
    }

    /// Deletes the record `id` and, with it, its place among the active
    /// words. A default record is refused; `Ok(false)` says that there is no
    /// such record.
    pub fn delete_vocabulary(&mut self, id: i64) -> (r: Result<bool, StoreError>)
        requires
            old(self).wf(),
        ensures
            final(self).wf(),
            r == change_result(old(self)@, id),
            final(self)@ == delete_state(old(self)@, id),
    {
        let flag = self.is_default_of(id);
        match assert_mutable(flag) {
            Err(e) => {
                return Err(e);
            },
            Ok(_) => {},
        }
        let n = self.delete_rows(id);
        Ok(rows_changed(n))
    }

    /// Overwrites word, translation, image and colour of the record `id`;
    /// phonetic and example stay. A default record is refused; `Ok(false)`
    /// says that there is no such record.
    pub fn update_vocabulary(
        &mut self,
        id: i64,
        word: String,
        translation: String,
        image_path: String,
        color: Option<String>,
    ) -> (r: Result<bool, StoreError>)
        requires
            old(self).wf(),
        ensures
            final(self).wf(),
            r == change_result(old(self)@, id),
            final(self)@ == update_state(
                old(self)@,
                id,
                word@,
                translation@,
                image_path@,
                text_opt_view(color),
            ),
    {
        let flag = self.is_default_of(id);
        match assert_mutable(flag) {
            Err(e) => {
                return Err(e);
            },
            Ok(_) => {},
        }
        match self.position_of(id) {
            Some(i) => {
                let kept = &self.vocabulary[i];
                let row = VocabularyRecord {
                    id: kept.id,
                    word,
                    translation,
                    image_path,
                    phonetic: copy_text_opt(&kept.phonetic),
                    example: copy_text_opt(&kept.example),
                    color,
                    is_default: kept.is_default,
                };
                let n = self.replace_row(id, row);
                Ok(rows_changed(n))
            },
            None => Ok(rows_changed(0)),
        }
    }

    /// Sets the colour of the record `id`. A default record is refused;
    /// `Ok(false)` says that there is no such record.
    pub fn update_vocabulary_color(&mut self, id: i64, color: String) -> (r: Result<
        bool,
        StoreError,
    >)
        requires
            old(self).wf(),
        ensures
            final(self).wf(),
            r == change_result(old(self)@, id),
            final(self)@ == update_color_state(old(self)@, id, color@),
    {
        let flag = self.is_default_of(id);
        match assert_mutable(flag) {
            Err(e) => {
                return Err(e);
            },
            Ok(_) => {},
        }
        match self.position_of(id) {
            Some(i) => {
                let mut row = self.vocabulary[i].duplicate();
                row.color = Some(color);
                let n = self.replace_row(id, row);
                Ok(rows_changed(n))
            },
            None => Ok(rows_changed(0)),
        }
    }

    /// Replaces the image of the record `id`, default or not; `false` says
    /// that there is no such record.
    pub fn update_vocabulary_image(&mut self, id: i64, image_path: String) -> (r: bool)
        requires
            old(self).wf(),
        ensures
            final(self).wf(),
            r == has_id(old(self)@.vocabulary, id),
            final(self)@ == update_image_state(old(self)@, id, image_path@),
    {
        match self.position_of(id) {
            Some(i) => {
                let mut row = self.vocabulary[i].duplicate();
                row.image_path = image_path;
                let n = self.replace_row(id, row);
                rows_changed(n)
            },
            None => rows_changed(0),
        }
    }

    /// The records of the active words, the most recently added first; at
    /// most five.
    pub fn get_active_words(&self) -> (r: Vec<VocabularyRecord>)
        requires
            self.wf(),
        ensures
            record_views(r@) == active_records(self@),
            r.len() <= MAX_ACTIVE_WORDS,
    {
        let mut out: Vec<VocabularyRecord> = Vec::new();
        let mut i: usize = 0;
        while i < self.active.len()
            invariant
                i <= self.active.len(),
                self.wf(),
                out.len() == i,
                forall|j: int|
                    0 <= j < i ==> out@[j]@ == self@.vocabulary[index_of_id(
                        self@.vocabulary,
                        self@.active[j],
                    )],
            decreases self.active.len() - i,
        {
            match self.position_of(self.active[i]) {
                Some(k) => {
                    out.push(self.vocabulary[k].duplicate());
                },
                None => {
                    proof {
                        assert(has_id(self@.vocabulary, self@.active[i as int]));
                    }
                },
            }
            i += 1;
        }
        assert(record_views(out@) =~= active_records(self@));
        out
    }

    /// Makes the word `word_id` the most recent of the active words. A
    /// default word is refused, then a full active set, then a word that is
    /// no record; a word that is active already moves to the front.
    pub fn add_active_word(&mut self, word_id: i64) -> (r: Result<bool, StoreError>)
        requires
            old(self).wf(),
        ensures
            final(self).wf(),
            r == activate_result(old(self)@, word_id),
            final(self)@ == activate_state(old(self)@, word_id),
    {
        let flag = self.is_default_of(word_id);
        match assert_mutable(flag) {
            Err(e) => {
                return Err(e);
            },
            Ok(_) => {},
        }
        let count = self.active.len() as i64;
        match check_capacity(count) {
            Err(e) => {
                return Err(e);
            },
            Ok(_) => {},
        }
        match flag {
            None => {
                return Err(StoreError::Persistence);
            },
            Some(_) => {},
        }
        remove_word(&mut self.active, word_id);
        self.active.insert(0, word_id);
        proof {
            assert(self@.active =~= seq![word_id] + without_id(old(self)@.active, word_id));
            lemma_activate_wf(old(self)@, word_id);
        }
        Ok(rows_changed(1))
    }

    /// Takes the word `word_id` out of the active set. A default word is
    /// refused; `Ok(false)` says that the word was not active.
    pub fn remove_active_word(&mut self, word_id: i64) -> (r: Result<bool, StoreError>)
        requires
            old(self).wf(),
        ensures
            final(self).wf(),
            r == deactivate_result(old(self)@, word_id),
            final(self)@ == deactivate_state(old(self)@, word_id),
    {
        let flag = self.is_default_of(word_id);
        match assert_mutable(flag) {
            Err(e) => {
                return Err(e);
            },
            Ok(_) => {},
        }
        let n = remove_word(&mut self.active, word_id);
        proof {
            lemma_deactivate_wf(old(self)@, word_id);
        }
        Ok(rows_changed(n))
    }

    /// The place of the setting `key` in the settings table.
    fn setting_position(&self, key: &String) -> (r: Option<usize>)
        requires
            self.wf(),
        ensures
            match r {
                Some(i) => i < self.settings.len() && has_key(self@.settings, key@)
                    && index_of_key(self@.settings, key@) == i,
                None => !has_key(self@.settings, key@),
            },
    {
        let mut i: usize = 0;
        while i < self.settings.len()
            invariant
                i <= self.settings.len(),
                self.wf(),
                forall|j: int| 0 <= j < i ==> (#[trigger] self@.settings[j]).key != key@,
            decreases self.settings.len() - i,
        {
            if self.settings[i].key == *key {
                proof {
                    lemma_setting_at(self@, i as int, key@);
                }
                return Some(i);
            }
            i += 1;
        }
        None
    }

    /// The setting `key`, or `None` where there is none.
    pub fn get_system_setting(&self, key: &str) -> (r: Option<SystemSetting>)
        requires
            self.wf(),
        ensures
            match r {
                Some(s) => setting_of(self@.settings, key@) == Some(s@),
                None => setting_of(self@.settings, key@) is None,
            },
    {
        let k = String::from_str(key);
        match self.setting_position(&k) {
            Some(i) => Some(self.settings[i].duplicate()),
            None => None,
        }
    }

    /// All settings, in the order in which their keys were first stored.
    pub fn get_all_system_settings(&self) -> (r: Vec<SystemSetting>)
        ensures
            setting_views(r@) == self@.settings,
    {
        let mut out: Vec<SystemSetting> = Vec::new();
        let mut i: usize = 0;
        while i < self.settings.len()
            invariant
                i <= self.settings.len(),
                out.len() == i,
                forall|j: int| 0 <= j < i ==> out@[j]@ == self.settings@[j]@,
            decreases self.settings.len() - i,
        {
            out.push(self.settings[i].duplicate());
            i += 1;
        }
        assert(setting_views(out@) =~= self@.settings);
        out
    }

    /// Overwrites the value of the setting `key` and says how many settings
    /// were changed.
    fn update_value(&mut self, key: &String, value: &str) -> (n: u64)
        requires
            old(self).wf(),
        ensures
            n == if has_key(old(self)@.settings, key@) {
                1u64
            } else {
                0u64
            },
            has_key(old(self)@.settings, key@) ==> final(self)@ == set_state(
                old(self)@,
                key@,
                value@,
            ),
            !has_key(old(self)@.settings, key@) ==> *final(self) == *old(self),
    {
        match self.setting_position(key) {
            Some(i) => {
                let kept = &self.settings[i];
                let row = SystemSetting {
                    key: kept.key.clone(),
                    value: String::from_str(value),
                    description: copy_text_opt(&kept.description),
                };
                self.settings.set(i, row);
                proof {
                    assert(self@.settings =~= old(self)@.settings.update(i as int, row@));
                }
                1
            },
            None => 0,
        }
    }

    /// Sets `key` to `value`: the value of an existing setting is
    /// overwritten, else a setting without description is stored. Always
    /// `Ok(true)`.
    pub fn update_system_setting(&mut self, key: &str, value: &str) -> (r: Result<
        bool,
        StoreError,
    >)
        requires
            old(self).wf(),
        ensures
            final(self).wf(),
            r == Ok::<bool, StoreError>(true),
            final(self)@ == set_state(old(self)@, key@, value@),
    {
        let k = String::from_str(key);
        let n = self.update_value(&k, value);
        if needs_insert(n) {
            self.settings.push(
                SystemSetting { key: k, value: String::from_str(value), description: None },
            );
            proof {
                assert(self@.settings =~= old(self)@.settings.push(
                    SettingView { key: key@, value: value@, description: None },
                ));
                lemma_set_wf(old(self)@, key@, value@);
            }
            Ok(rows_changed(1))
        } else {
            proof {
                lemma_set_wf(old(self)@, key@, value@);
            }
            Ok(true)
        }
    }

    /// Stores the default settings whose keys are not in the store yet, and
    /// leaves every stored setting as it is.
    pub fn init_default_settings(&mut self)
        requires
            old(self).wf(),
        ensures
            final(self).wf(),
            final(self)@ == seed_setting_state(old(self)@, default_setting()),
    {
        let key = seed_setting().key;
        let count: i64 = match self.setting_position(&key) {
            Some(_) => 1,
            None => 0,
        };
        if needs_seed(count) {
            self.settings.push(seed_setting());
            proof {
                assert(self@.settings =~= old(self)@.settings.push(default_setting()));
            }
        }
        proof {
            lemma_seed_setting_wf(old(self)@, default_setting());
        }
    }

    /// Stores the default word, with its image in the image directory of
    /// `paths`, and makes it active, unless the store holds any record.
    /// Fails where no identity is left to give.
    pub fn init_default_vocabulary(&mut self, paths: &AppPaths) -> (r: Result<(), StoreError>)
        requires
            old(self).wf(),
        ensures
            final(self).wf(),
            r == seed_vocabulary_result(old(self)@),
            final(self)@ == seed_vocabulary_state(
                old(self)@,
                joined(joined(paths@.app_data_dir, "images"@), "lidai.jpg"@),
            ),
    {
        let count: i64 = if self.vocabulary.len() > 0 {
            1
        } else {
            0
        };
        if !needs_seed(count) {
            return Ok(());
        }
        assert(self@.vocabulary.len() == 0);
        proof {
            if self@.active.len() > 0 {
                assert(has_id(self@.vocabulary, self@.active[0]));
            }
        }
        let image = get_image_path(paths, seed_image_name());
        let ghost image_text = image@;
        let word = seed_word(image);
        match self.add_vocabulary(word) {
            Err(e) => Err(e),
            Ok(id) => {
                remove_word(&mut self.active, id);
                self.active.insert(0, id);
                proof {
                    assert(old(self)@.active =~= Seq::empty());
                    assert(self@.active =~= seq![id]);
                    assert(self@.vocabulary =~= seq![stored(default_word(image_text), id)]);
                    assert(self@.vocabulary[0].id == Some(id));
                }
                Ok(())
            },
        }
    }

    /// A new store with the default setting and the default word in it, the
    /// default word active.
    pub fn new(paths: &AppPaths) -> (db: Database)
        ensures
            db.wf(),
            db@ == seed_vocabulary_state(
                seed_setting_state(empty_store(), default_setting()),
                joined(joined(paths@.app_data_dir, "images"@), "lidai.jpg"@),
            ),
    {
        let mut db = Database::empty();
        db.init_default_settings();
        let _ = db.init_default_vocabulary(paths);
        db
    }
}

/// The setting that every store starts with.
pub open spec fn default_setting() -> SettingView {
    SettingView {
        key: "max_prize_draws"@,
        value: "1"@,
        description: Some("普通奖品最多抽取次数"@),
    }
}

/// The default word, before the store gave it an identity.
pub open spec fn default_word(image_path: Seq<char>) -> RecordView {
    RecordView {
        id: None,
        word: "☆"@,
        translation: "礼袋"@,
        image_path,
        phonetic: None,
        example: None,
        color: Some("#ffbad8"@),
        is_default: true,
    }
}

/// The setting that every store starts with.
pub fn seed_setting() -> (r: SystemSetting)
    ensures
        r@ == default_setting(),
{
    SystemSetting {
        key: String::from_str("max_prize_draws"),
        value: String::from_str("1"),
        description: Some(String::from_str("普通奖品最多抽取次数")),
    }
}

/// The default word with its image at `image_path`, before the store gave it
/// an identity.
pub fn seed_word(image_path: String) -> (r: VocabularyRecord)
    ensures
        r@ == default_word(image_path@),
{
    VocabularyRecord {
        id: None,
        word: String::from_str("☆"),
        translation: String::from_str("礼袋"),
        image_path,
        phonetic: None,
        example: None,
        color: Some(String::from_str("#ffbad8")),
        is_default: true,
    }
}

/// A word as a user enters it: not a default word, without phonetic and
/// example, its image named by the file's path in the image directory.
pub open spec fn entered_word(
    base: Seq<char>,
    word: Seq<char>,
    translation: Seq<char>,
    image_name: Seq<char>,
    color: Option<Seq<char>>,
) -> RecordView {
    RecordView {
        id: None,
        word,
        translation,
        image_path: joined(joined(base, "images"@), image_name),
        phonetic: None,
        example: None,
        color,
        is_default: false,
    }
}

/// The record for a word that a user enters, with the image `image_name` of
/// the image directory of `paths`; the store gives it its identity when it is
/// added.
pub fn new_word(
    paths: &AppPaths,
    word: String,
    translation: String,
    image_name: &str,
    color: Option<String>,
) -> (r: VocabularyRecord)
    ensures
        r@ == entered_word(
            paths@.app_data_dir,
            word@,
            translation@,
            image_name@,
            text_opt_view(color),
        ),
{
    VocabularyRecord {
        id: None,
        word,
        translation,
        image_path: get_image_path(paths, image_name),
        phonetic: None,
        example: None,
        color,
        is_default: false,
    }
}

/// The file name of the default word's image.
pub fn seed_image_name() -> (r: &'static str)
    ensures
        r@ == "lidai.jpg"@,
{
    "lidai.jpg"
}

/// What seeding the vocabulary returns: an error only where the store is
/// empty and has no identity left to give.
pub open spec fn seed_vocabulary_result(v: StoreView) -> Result<(), StoreError> {
    if v.vocabulary.len() == 0 && v.last_id >= i64::MAX {
        Err(StoreError::Persistence)
    } else {
        Ok(())
    }
}

/// The store after seeding the vocabulary was attempted: a store without
/// records gets the default word and has it as its one active word.
pub open spec fn seed_vocabulary_state(v: StoreView, image_path: Seq<char>) -> StoreView {
    if v.vocabulary.len() == 0 && v.last_id < i64::MAX {
        StoreView {
            vocabulary: seq![stored(default_word(image_path), (v.last_id + 1) as i64)],
            active: seq![(v.last_id + 1) as i64],
            last_id: v.last_id + 1,
            ..v
        }
    } else {
        v
    }
}

} // verus!
