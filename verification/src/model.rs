//! The mathematical model of the store: what its three tables hold, when that
//! is consistent, and what each operation makes of it.

use crate::records::{RecordView, SettingView, StoreError};
use vstd::prelude::*;

verus! {

/// The number of words that may be active at once.
pub const MAX_ACTIVE_WORDS: usize = 5;

/// The contents of the store.
pub struct StoreView {
    /// The vocabulary records, in the order in which they were added.
    pub vocabulary: Seq<RecordView>,
    /// The ids of the active words, the most recently added first.
    pub active: Seq<i64>,
    /// The settings, in the order in which their keys were first stored.
    pub settings: Seq<SettingView>,
    /// The largest id that was ever given to a record; no id is given twice.
    pub last_id: int,
}

/// Whether some record of `records` has the identity `id`.
pub open spec fn has_id(records: Seq<RecordView>, id: i64) -> bool {
    exists|i: int| 0 <= i < records.len() && (#[trigger] records[i]).id == Some(id)
}

/// The place of a record with the identity `id`, where there is one.
pub open spec fn index_of_id(records: Seq<RecordView>, id: i64) -> int {
    choose|i: int| 0 <= i < records.len() && (#[trigger] records[i]).id == Some(id)
}

/// The record with the identity `id`, if there is one.
pub open spec fn record_of(records: Seq<RecordView>, id: i64) -> Option<RecordView> {
    if has_id(records, id) {
        Some(records[index_of_id(records, id)])
    } else {
        None
    }
}

/// Whether `id` denotes a default record.
pub open spec fn is_protected(records: Seq<RecordView>, id: i64) -> bool {
    record_of(records, id) matches Some(r) && r.is_default
}

/// Whether some setting of `settings` has the key `key`.
pub open spec fn has_key(settings: Seq<SettingView>, key: Seq<char>) -> bool {
    exists|i: int| 0 <= i < settings.len() && (#[trigger] settings[i]).key == key
}

/// The place of a setting with the key `key`, where there is one.
pub open spec fn index_of_key(settings: Seq<SettingView>, key: Seq<char>) -> int {
    choose|i: int| 0 <= i < settings.len() && (#[trigger] settings[i]).key == key
}

/// The setting with the key `key`, if there is one.
pub open spec fn setting_of(settings: Seq<SettingView>, key: Seq<char>) -> Option<SettingView> {
    if has_key(settings, key) {
        Some(settings[index_of_key(settings, key)])
    } else {
        None
    }
}

/// `active` without `id`.
pub open spec fn without_id(active: Seq<i64>, id: i64) -> Seq<i64> {
    if active.contains(id) {
        active.remove(active.index_of(id))
    } else {
        active
    }
}

/// Whether the contents of a store are consistent: every record has an
/// identity that was given out, no two records share one, every active word
/// is a record and is active once, at most five words are active, and no two
/// settings share a key.
pub open spec fn store_wf(v: StoreView) -> bool {
    &&& 0 <= v.last_id <= i64::MAX
    &&& forall|i: int|
        0 <= i < v.vocabulary.len() ==> ((#[trigger] v.vocabulary[i]).id matches Some(k) && 1 <= k
            <= v.last_id)
    &&& forall|i: int, j: int|
        0 <= i < j < v.vocabulary.len() ==> (#[trigger] v.vocabulary[i]).id
            != (#[trigger] v.vocabulary[j]).id
    &&& v.active.no_duplicates()
    &&& forall|i: int| 0 <= i < v.active.len() ==> has_id(v.vocabulary, #[trigger] v.active[i])
    &&& v.active.len() <= MAX_ACTIVE_WORDS
    &&& forall|i: int, j: int|
        0 <= i < j < v.settings.len() ==> (#[trigger] v.settings[i]).key
            != (#[trigger] v.settings[j]).key
}

/// The record `r` as the store keeps it under the identity `id`.
pub open spec fn stored(r: RecordView, id: i64) -> RecordView {
    RecordView { id: Some(id), ..r }
}

/// The store after `r` was added, where an identity is left to give.
pub open spec fn after_add(v: StoreView, r: RecordView) -> StoreView {
    StoreView {
        vocabulary: v.vocabulary.push(stored(r, (v.last_id + 1) as i64)),
        last_id: v.last_id + 1,
        ..v
    }
}

/// What adding a record returns: the new identity, or that none is left.
pub open spec fn add_result(v: StoreView) -> Result<i64, StoreError> {
    if v.last_id < i64::MAX {
        Ok((v.last_id + 1) as i64)
    } else {
        Err(StoreError::Persistence)
    }
}

/// The store after adding `r` was attempted.
pub open spec fn add_state(v: StoreView, r: RecordView) -> StoreView {
    if v.last_id < i64::MAX {
        after_add(v, r)
    } else {
        v
    }
}

/// What a guarded change of the record `id` returns: an error for a default
/// record, else whether there is such a record.
pub open spec fn change_result(v: StoreView, id: i64) -> Result<bool, StoreError> {
    match record_of(v.vocabulary, id) {
        Some(r) => if r.is_default {
            Err(StoreError::ProtectedRecord)
        } else {
            Ok(true)
        },
        None => Ok(false),
    }
}

/// The store without the record `id` and without its place in the active set.
pub open spec fn after_delete(v: StoreView, id: i64) -> StoreView {
    if has_id(v.vocabulary, id) {
        StoreView {
            vocabulary: v.vocabulary.remove(index_of_id(v.vocabulary, id)),
            active: without_id(v.active, id),
            ..v
        }
    } else {
        v
    }
}

/// The store after deleting the record `id` was attempted.
pub open spec fn delete_state(v: StoreView, id: i64) -> StoreView {
    if is_protected(v.vocabulary, id) {
        v
    } else {
        after_delete(v, id)
    }
}

/// The store with the record `id`, if there is one, replaced by `row`.
pub open spec fn with_record(v: StoreView, id: i64, row: RecordView) -> StoreView {
    if has_id(v.vocabulary, id) {
        StoreView { vocabulary: v.vocabulary.update(index_of_id(v.vocabulary, id), row), ..v }
    } else {
        v
    }
}

/// The record `r` with the four fields of an edit overwritten.
pub open spec fn edited(
    r: RecordView,
    word: Seq<char>,
    translation: Seq<char>,
    image_path: Seq<char>,
    color: Option<Seq<char>>,
) -> RecordView {
    RecordView { word, translation, image_path, color, ..r }
}

/// The store after an edit of the record `id` was attempted: a default record
/// is left as it is, any other has the four fields overwritten.
pub open spec fn update_state(
    v: StoreView,
    id: i64,
    word: Seq<char>,
    translation: Seq<char>,
    image_path: Seq<char>,
    color: Option<Seq<char>>,
) -> StoreView {
    match record_of(v.vocabulary, id) {
        Some(r) => if r.is_default {
            v
        } else {
            with_record(v, id, edited(r, word, translation, image_path, color))
        },
        None => v,
    }
}

/// The store after a change of the colour of the record `id` was attempted.
pub open spec fn update_color_state(v: StoreView, id: i64, color: Seq<char>) -> StoreView {
    match record_of(v.vocabulary, id) {
        Some(r) => if r.is_default {
            v
        } else {
            with_record(v, id, RecordView { color: Some(color), ..r })
        },
        None => v,
    }
}

/// The store after the image of the record `id` was replaced; default records
/// take part.
pub open spec fn update_image_state(v: StoreView, id: i64, image_path: Seq<char>) -> StoreView {
    match record_of(v.vocabulary, id) {
        Some(r) => with_record(v, id, RecordView { image_path, ..r }),
        None => v,
    }
}

/// The records of the active words, the most recently added first.
pub open spec fn active_records(v: StoreView) -> Seq<RecordView> {
    Seq::new(v.active.len(), |i: int| v.vocabulary[index_of_id(v.vocabulary, v.active[i])])
}

/// What making the word `id` active returns.
pub open spec fn activate_result(v: StoreView, id: i64) -> Result<bool, StoreError> {
    if is_protected(v.vocabulary, id) {
        Err(StoreError::ProtectedRecord)
    } else if v.active.len() >= MAX_ACTIVE_WORDS {
        Err(StoreError::CapacityExceeded)
    } else if !has_id(v.vocabulary, id) {
        Err(StoreError::Persistence)
    } else {
        Ok(true)
    }
}

/// The store after making the word `id` active was attempted: on success `id`
/// is the most recent of the active words, and is among them once.
pub open spec fn activate_state(v: StoreView, id: i64) -> StoreView {
    if activate_result(v, id) is Ok {
        StoreView { active: seq![id] + without_id(v.active, id), ..v }
    } else {
        v
    }
}

/// What taking the word `id` out of the active set returns.
pub open spec fn deactivate_result(v: StoreView, id: i64) -> Result<bool, StoreError> {
    if is_protected(v.vocabulary, id) {
        Err(StoreError::ProtectedRecord)
    } else {
        Ok(v.active.contains(id))
    }
}

/// The store after taking the word `id` out of the active set was attempted.
pub open spec fn deactivate_state(v: StoreView, id: i64) -> StoreView {
    if is_protected(v.vocabulary, id) {
        v
    } else {
        StoreView { active: without_id(v.active, id), ..v }
    }
}

/// The store after `key` was set to `value`: the value of an existing setting
/// is overwritten, a new setting is stored without a description.
pub open spec fn set_state(v: StoreView, key: Seq<char>, value: Seq<char>) -> StoreView {
    if has_key(v.settings, key) {
        let i = index_of_key(v.settings, key);
        StoreView { settings: v.settings.update(i, SettingView { value, ..v.settings[i] }), ..v }
    } else {
        StoreView {
            settings: v.settings.push(SettingView { key, value, description: None }),
            ..v
        }
    }
}

/// The store after `setting` was stored unless its key is taken.
pub open spec fn seed_setting_state(v: StoreView, setting: SettingView) -> StoreView {
    if has_key(v.settings, setting.key) {
        v
    } else {
        StoreView { settings: v.settings.push(setting), ..v }
    }
}

/// In a consistent store the record at a place is the record of its
/// identity.
pub proof fn lemma_record_at(v: StoreView, i: int, id: i64)
    requires
        store_wf(v),
        0 <= i < v.vocabulary.len(),
        v.vocabulary[i].id == Some(id),
    ensures
        has_id(v.vocabulary, id),
        index_of_id(v.vocabulary, id) == i,
        record_of(v.vocabulary, id) == Some(v.vocabulary[i]),
{
    let k = index_of_id(v.vocabulary, id);
    assert(v.vocabulary[k].id == Some(id));
    if k < i {
        assert(v.vocabulary[k].id != v.vocabulary[i].id);
    } else if i < k {
        assert(v.vocabulary[i].id != v.vocabulary[k].id);
    }
}

/// In a consistent store the setting at a place is the setting of its key.
pub proof fn lemma_setting_at(v: StoreView, i: int, key: Seq<char>)
    requires
        store_wf(v),
        0 <= i < v.settings.len(),
        v.settings[i].key == key,
    ensures
        has_key(v.settings, key),
        index_of_key(v.settings, key) == i,
        setting_of(v.settings, key) == Some(v.settings[i]),
{
    let k = index_of_key(v.settings, key);
    assert(v.settings[k].key == key);
    if k < i {
        assert(v.settings[k].key != v.settings[i].key);
    } else if i < k {
        assert(v.settings[i].key != v.settings[k].key);
    }
}

/// What is left of a duplicate-free active set when `id` leaves it.
pub proof fn lemma_without_id(active: Seq<i64>, id: i64)
    requires
        active.no_duplicates(),
    ensures
        without_id(active, id).no_duplicates(),
        !without_id(active, id).contains(id),
        forall|x: i64| x != id ==> (without_id(active, id).contains(x) <==> active.contains(x)),
        without_id(active, id).len() == if active.contains(id) {
            active.len() - 1
        } else {
            active.len() as int
        },
{
    if active.contains(id) {
        let k = active.index_of(id);
        let t = active.remove(k);
        assert(active[k] == id);
        assert forall|i: int| 0 <= i < t.len() implies #[trigger] t[i] == active[if i < k {
            i
        } else {
            i + 1
        }] by {}
        assert forall|x: i64| x != id implies (t.contains(x) <==> active.contains(x)) by {
            if t.contains(x) {
                let i = t.index_of(x);
                assert(active[if i < k { i } else { i + 1 }] == x);
            }
            if active.contains(x) {
                let j = active.index_of(x);
                assert(j != k);
                assert(t[if j < k { j } else { j - 1 }] == x);
            }
        }
        if t.contains(id) {
            let i = t.index_of(id);
            assert(active[if i < k { i } else { i + 1 }] == id);
        }
    }
}

/// A consistent store stays consistent when a record is added.
pub proof fn lemma_add_wf(v: StoreView, r: RecordView)
    requires
        store_wf(v),
        v.last_id < i64::MAX,
    ensures
        store_wf(after_add(v, r)),
        record_of(after_add(v, r).vocabulary, (v.last_id + 1) as i64) == Some(
            stored(r, (v.last_id + 1) as i64),
        ),
{
    let w = after_add(v, r);
    let id = (v.last_id + 1) as i64;
    assert forall|i: int| 0 <= i < w.active.len() implies has_id(
        w.vocabulary,
        #[trigger] w.active[i],
    ) by {
        assert(has_id(v.vocabulary, v.active[i]));
        let k = index_of_id(v.vocabulary, v.active[i]);
        assert(w.vocabulary[k].id == Some(v.active[i]));
    }
    assert(w.vocabulary[v.vocabulary.len() as int].id == Some(id));
    lemma_record_at(w, v.vocabulary.len() as int, id);
}

/// A consistent store stays consistent when a record is deleted, and the
/// record is gone from it.
pub proof fn lemma_delete_wf(v: StoreView, id: i64)
    requires
        store_wf(v),
    ensures
        store_wf(after_delete(v, id)),
        !has_id(after_delete(v, id).vocabulary, id),
        !after_delete(v, id).active.contains(id),
        forall|other: i64|
            other != id ==> #[trigger] record_of(after_delete(v, id).vocabulary, other)
                == record_of(v.vocabulary, other),
        forall|other: i64|
            other != id ==> (#[trigger] after_delete(v, id).active.contains(other)
                <==> v.active.contains(other)),
{
    let w = after_delete(v, id);
    lemma_without_id(v.active, id);
    if has_id(v.vocabulary, id) {
        let k = index_of_id(v.vocabulary, id);
        assert(v.vocabulary[k].id == Some(id));
        assert forall|i: int| 0 <= i < w.vocabulary.len() implies #[trigger] w.vocabulary[i]
            == v.vocabulary[if i < k {
            i
        } else {
            i + 1
        }] by {}
        lemma_without_id(v.active, id);
        assert forall|i: int| 0 <= i < w.active.len() implies has_id(
            w.vocabulary,
            #[trigger] w.active[i],
        ) by {
            let x = w.active[i];
            assert(w.active.contains(x));
            assert(x != id);
            assert(v.active.contains(x));
            let a = v.active.index_of(x);
            assert(has_id(v.vocabulary, v.active[a]));
            let j = index_of_id(v.vocabulary, x);
            assert(j != k);
            assert(w.vocabulary[if j < k { j } else { j - 1 }].id == Some(x));
        }
        if has_id(w.vocabulary, id) {
            let i = index_of_id(w.vocabulary, id);
            let j = if i < k { i } else { i + 1 };
            assert(v.vocabulary[j].id == Some(id));
            if j < k {
                assert(v.vocabulary[j].id != v.vocabulary[k].id);
            } else {
                assert(v.vocabulary[k].id != v.vocabulary[j].id);
            }
        }
        assert(store_wf(w));
        assert forall|other: i64| other != id implies #[trigger] record_of(w.vocabulary, other)
            == record_of(v.vocabulary, other) by {
            if has_id(v.vocabulary, other) {
                let j = index_of_id(v.vocabulary, other);
                assert(j != k);
                let i = if j < k { j } else { j - 1 };
                assert(w.vocabulary[i].id == Some(other));
                lemma_record_at(v, j, other);
                lemma_record_at(w, i, other);
            } else if has_id(w.vocabulary, other) {
                let i = index_of_id(w.vocabulary, other);
                assert(v.vocabulary[if i < k { i } else { i + 1 }].id == Some(other));
            }
        }
    } else {
        if v.active.contains(id) {
            let a = v.active.index_of(id);
            assert(has_id(v.vocabulary, v.active[a]));
        }
    }
}

/// A consistent store stays consistent when a record is replaced by one with
/// the same identity; the new record is then the record of that identity, and
/// every other record is as it was.
pub proof fn lemma_with_record_wf(v: StoreView, id: i64, row: RecordView)
    requires
        store_wf(v),
        row.id == Some(id),
    ensures
        store_wf(with_record(v, id, row)),
        record_of(with_record(v, id, row).vocabulary, id) == if has_id(v.vocabulary, id) {
            Some(row)
        } else {
            None
        },
        forall|other: i64|
            other != id ==> record_of(with_record(v, id, row).vocabulary, other) == record_of(
                v.vocabulary,
                other,
            ),
        with_record(v, id, row).vocabulary.len() == v.vocabulary.len(),
{
    let w = with_record(v, id, row);
    if has_id(v.vocabulary, id) {
        let k = index_of_id(v.vocabulary, id);
        assert(v.vocabulary[k].id == Some(id));
        assert forall|i: int| 0 <= i < w.vocabulary.len() implies (#[trigger] w.vocabulary[i]).id
            == v.vocabulary[i].id by {}
        assert forall|x: i64| has_id(v.vocabulary, x) <==> has_id(w.vocabulary, x) by {
            if has_id(v.vocabulary, x) {
                let j = index_of_id(v.vocabulary, x);
                assert(w.vocabulary[j].id == Some(x));
            }
            if has_id(w.vocabulary, x) {
                let j = index_of_id(w.vocabulary, x);
                assert(v.vocabulary[j].id == Some(x));
            }
        }
        assert forall|i: int| 0 <= i < w.active.len() implies has_id(
            w.vocabulary,
            #[trigger] w.active[i],
        ) by {
            assert(has_id(v.vocabulary, v.active[i]));
        }
        assert(store_wf(w));
        lemma_record_at(v, k, id);
        lemma_record_at(w, k, id);
        assert forall|other: i64| other != id implies record_of(w.vocabulary, other)
            == record_of(v.vocabulary, other) by {
            if has_id(v.vocabulary, other) {
                let j = index_of_id(v.vocabulary, other);
                assert(j != k);
                assert(w.vocabulary[j].id == Some(other));
                lemma_record_at(v, j, other);
                lemma_record_at(w, j, other);
            }
        }
    }
}

/// A consistent store stays consistent when a word is made active, and the
/// word is then the first of the active words.
pub proof fn lemma_activate_wf(v: StoreView, id: i64)
    requires
        store_wf(v),
    ensures
        store_wf(activate_state(v, id)),
        activate_result(v, id) is Ok ==> activate_state(v, id).active[0] == id,
{
    let w = activate_state(v, id);
    if activate_result(v, id) is Ok {
        lemma_without_id(v.active, id);
        let rest = without_id(v.active, id);
        assert(w.active.len() == rest.len() + 1);
        assert forall|i: int| 0 <= i < w.active.len() implies #[trigger] w.active[i] == if i
            == 0 {
            id
        } else {
            rest[i - 1]
        } by {}
        assert forall|i: int, j: int|
            0 <= i < w.active.len() && 0 <= j < w.active.len() && i != j implies w.active[i]
            != w.active[j] by {
            if i > 0 {
                assert(rest.contains(rest[i - 1]));
            }
            if j > 0 {
                assert(rest.contains(rest[j - 1]));
            }
        }
        assert forall|i: int| 0 <= i < w.active.len() implies has_id(
            w.vocabulary,
            #[trigger] w.active[i],
        ) by {
            if i > 0 {
                let x = rest[i - 1];
                assert(rest.contains(x));
                assert(v.active.contains(x));
                let a = v.active.index_of(x);
                assert(has_id(v.vocabulary, v.active[a]));
            }
        }
    }
}

/// A consistent store stays consistent when a word leaves the active set.
pub proof fn lemma_deactivate_wf(v: StoreView, id: i64)
    requires
        store_wf(v),
    ensures
        store_wf(deactivate_state(v, id)),
{
    let w = deactivate_state(v, id);
    lemma_without_id(v.active, id);
    assert forall|i: int| 0 <= i < w.active.len() implies has_id(
        w.vocabulary,
        #[trigger] w.active[i],
    ) by {
        let x = w.active[i];
        assert(w.active.contains(x));
        if x != id {
            assert(v.active.contains(x));
        }
        assert(v.active.contains(x));
        let a = v.active.index_of(x);
        assert(has_id(v.vocabulary, v.active[a]));
    }
}

/// A consistent store stays consistent when a setting is set, and the setting
/// of the key then has the value.
pub proof fn lemma_set_wf(v: StoreView, key: Seq<char>, value: Seq<char>)
    requires
        store_wf(v),
    ensures
        store_wf(set_state(v, key, value)),
        setting_of(set_state(v, key, value).settings, key) matches Some(s) && s.key == key
            && s.value == value,
{
    let w = set_state(v, key, value);
    if has_key(v.settings, key) {
        let k = index_of_key(v.settings, key);
        assert(v.settings[k].key == key);
        assert forall|i: int| 0 <= i < w.settings.len() implies (#[trigger] w.settings[i]).key
            == v.settings[i].key by {}
        assert(store_wf(w));
        lemma_setting_at(w, k, key);
    } else {
        let n = v.settings.len() as int;
        assert forall|i: int, j: int| 0 <= i < j < w.settings.len() implies (
        #[trigger] w.settings[i]).key != (#[trigger] w.settings[j]).key by {
            if j == n {
                assert(v.settings[i].key != key);
            }
        }
        assert(store_wf(w));
        lemma_setting_at(w, n, key);
    }
}

/// A consistent store stays consistent when a setting is stored unless its
/// key is taken.
pub proof fn lemma_seed_setting_wf(v: StoreView, setting: SettingView)
    requires
        store_wf(v),
    ensures
        store_wf(seed_setting_state(v, setting)),
        has_key(seed_setting_state(v, setting).settings, setting.key),
{
    let w = seed_setting_state(v, setting);
    if !has_key(v.settings, setting.key) {
        let n = v.settings.len() as int;
        assert forall|i: int, j: int| 0 <= i < j < w.settings.len() implies (
        #[trigger] w.settings[i]).key != (#[trigger] w.settings[j]).key by {
            if j == n {
                assert(v.settings[i].key != setting.key);
            }
        }
        assert(w.settings[n].key == setting.key);
    } else {
        let k = index_of_key(v.settings, setting.key);
        assert(w.settings[k].key == setting.key);
    }
}

} // verus!
