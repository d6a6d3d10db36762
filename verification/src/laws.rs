//! What holds of the store whatever it contains: consequences of the
//! contracts of its operations, proved over the model that they are stated
//! in.

use crate::database::seed_vocabulary_state;
use crate::model::{
    activate_result, activate_state, change_result, deactivate_result, deactivate_state,
    delete_state, has_id, has_key, index_of_id, is_protected, lemma_activate_wf,
    lemma_deactivate_wf, lemma_delete_wf, lemma_record_at, lemma_seed_setting_wf, lemma_set_wf,
    lemma_with_record_wf, lemma_without_id, record_of, seed_setting_state, set_state,
    setting_of, store_wf, update_color_state, update_image_state, update_state, without_id,
    StoreView, MAX_ACTIVE_WORDS,
};
use crate::records::{RecordView, SettingView, StoreError};
use vstd::prelude::*;

verus! {

/// A record that is not a default record can be deleted, and looking it up
/// afterwards finds nothing.
pub proof fn law_deleted_record_is_absent(v: StoreView, id: i64)
    requires
        store_wf(v),
        !is_protected(v.vocabulary, id),
    ensures
        change_result(v, id) is Ok,
        record_of(delete_state(v, id).vocabulary, id) is None,
        !delete_state(v, id).active.contains(id),
{
    lemma_delete_wf(v, id);
}

/// Deleting, editing and recolouring a default record fail as protected,
/// whatever the new field values are, and leave the store as it was.
pub proof fn law_default_record_is_protected(
    v: StoreView,
    id: i64,
    word: Seq<char>,
    translation: Seq<char>,
    image_path: Seq<char>,
    color: Option<Seq<char>>,
    new_color: Seq<char>,
)
    requires
        store_wf(v),
        is_protected(v.vocabulary, id),
    ensures
        change_result(v, id) == Err::<bool, StoreError>(StoreError::ProtectedRecord),
        delete_state(v, id) == v,
        update_state(v, id, word, translation, image_path, color) == v,
        update_color_state(v, id, new_color) == v,
{
}

/// The image of a default record can be replaced: the record then has the
/// new image and is otherwise as it was, still a default record. Making a
/// default word active or inactive fails as protected and changes nothing.
pub proof fn law_default_record_takes_image_only(v: StoreView, id: i64, image_path: Seq<char>)
    requires
        store_wf(v),
        is_protected(v.vocabulary, id),
    ensures
        has_id(v.vocabulary, id),
        store_wf(update_image_state(v, id, image_path)),
        record_of(update_image_state(v, id, image_path).vocabulary, id) == Some(
            RecordView { image_path, ..record_of(v.vocabulary, id)->0 },
        ),
        is_protected(update_image_state(v, id, image_path).vocabulary, id),
        activate_result(v, id) == Err::<bool, StoreError>(StoreError::ProtectedRecord),
        activate_state(v, id) == v,
        deactivate_result(v, id) == Err::<bool, StoreError>(StoreError::ProtectedRecord),
        deactivate_state(v, id) == v,
{
    let r = record_of(v.vocabulary, id)->0;
    lemma_record_at(v, index_of_id(v.vocabulary, id), id);
    lemma_with_record_wf(v, id, RecordView { image_path, ..r });
}

/// A default word that is active stays a default record and stays active,
/// whichever record is deleted and whichever word is made active or taken out
/// of the active set.
pub proof fn law_default_word_stays_active(v: StoreView, default_id: i64, id: i64)
    requires
        store_wf(v),
        is_protected(v.vocabulary, default_id),
        v.active.contains(default_id),
    ensures
        is_protected(delete_state(v, id).vocabulary, default_id),
        delete_state(v, id).active.contains(default_id),
        activate_state(v, id).active.contains(default_id),
        deactivate_state(v, id).active.contains(default_id),
{
    lemma_delete_wf(v, id);
    lemma_without_id(v.active, id);
    if id != default_id {
        let rest = without_id(v.active, id);
        assert(rest.contains(default_id));
        if activate_result(v, id) is Ok {
            let k = rest.index_of(default_id);
            assert((seq![id] + rest)[k + 1] == default_id);
        }
    }
}

/// A call that changes the active set.
pub enum ActiveCall {
    /// Make the word active.
    Add(i64),
    /// Take the word out of the active set.
    Remove(i64),
}

/// The store after `calls` were made on it in order, each with whatever
/// outcome it had.
pub open spec fn after_calls(v: StoreView, calls: Seq<ActiveCall>) -> StoreView
    decreases calls.len(),
{
    if calls.len() == 0 {
        v
    } else {
        let w = after_calls(v, calls.drop_last());
        match calls.last() {
            ActiveCall::Add(id) => activate_state(w, id),
            ActiveCall::Remove(id) => deactivate_state(w, id),
        }
    }
}

/// Whatever calls add words to the active set and remove words from it, the
/// store stays consistent and never has more than five active words.
pub proof fn law_active_set_never_exceeds_capacity(v: StoreView, calls: Seq<ActiveCall>)
    requires
        store_wf(v),
    ensures
        store_wf(after_calls(v, calls)),
        after_calls(v, calls).active.len() <= MAX_ACTIVE_WORDS,
    decreases calls.len(),
{
    if calls.len() > 0 {
        law_active_set_never_exceeds_capacity(v, calls.drop_last());
        let w = after_calls(v, calls.drop_last());
        match calls.last() {
            ActiveCall::Add(id) => {
                lemma_activate_wf(w, id);
            },
            ActiveCall::Remove(id) => {
                lemma_deactivate_wf(w, id);
            },
        }
    }
}

/// With five words active, one more word that is not a default word is
/// refused for want of room, also where it is active already, and the active
/// set stays as it was.
pub proof fn law_full_active_set_refuses(v: StoreView, id: i64)
    requires
        store_wf(v),
        v.active.len() == MAX_ACTIVE_WORDS,
        !is_protected(v.vocabulary, id),
    ensures
        activate_result(v, id) == Err::<bool, StoreError>(StoreError::CapacityExceeded),
        activate_state(v, id) == v,
{
}

/// Taking `id` out of a list that starts with another word leaves that word
/// in front.
proof fn lemma_without_behind_front(front: i64, rest: Seq<i64>, id: i64)
    requires
        front != id,
        (seq![front] + rest).no_duplicates(),
    ensures
        rest.no_duplicates(),
        without_id(seq![front] + rest, id) == seq![front] + without_id(rest, id),
{
    let s = seq![front] + rest;
    assert forall|i: int, j: int| 0 <= i < rest.len() && 0 <= j < rest.len() && i != j implies rest[i]
        != rest[j] by {
        assert(s[i + 1] == rest[i]);
        assert(s[j + 1] == rest[j]);
    }
    if rest.contains(id) {
        let k = rest.index_of(id);
        assert(s[k + 1] == id);
        assert(s.contains(id));
        let m = s.index_of(id);
        assert(s[m] == id);
        assert(m == k + 1);
        assert(s.remove(m) =~= seq![front] + rest.remove(k));
    } else {
        if s.contains(id) {
            let m = s.index_of(id);
            assert(m > 0);
            assert(rest[m - 1] == id);
        }
    }
}

/// After three different words were made active one after the other, each
/// successfully, the active words are the third, the second and the first of
/// them, in this order, followed by the words that were active before in the
/// order that they had.
pub proof fn law_active_words_are_ordered_by_recency(v: StoreView, a: i64, b: i64, c: i64)
    requires
        store_wf(v),
        a != b,
        b != c,
        a != c,
        activate_result(v, a) is Ok,
        activate_result(activate_state(v, a), b) is Ok,
        activate_result(activate_state(activate_state(v, a), b), c) is Ok,
    ensures
        activate_state(activate_state(activate_state(v, a), b), c).active == seq![c, b, a]
            + without_id(without_id(without_id(v.active, a), b), c),
        forall|x: i64|
            x != a && x != b && x != c ==> (without_id(
                without_id(without_id(v.active, a), b),
                c,
            ).contains(x) <==> v.active.contains(x)),
{
    let s1 = activate_state(v, a);
    let s2 = activate_state(s1, b);
    let s3 = activate_state(s2, c);
    lemma_activate_wf(v, a);
    lemma_activate_wf(s1, b);
    lemma_activate_wf(s2, c);
    let r1 = without_id(v.active, a);
    let r2 = without_id(r1, b);
    let r3 = without_id(r2, c);
    lemma_without_id(v.active, a);
    lemma_without_behind_front(a, r1, b);
    lemma_without_id(r1, b);
    assert(s2.active == seq![b] + (seq![a] + r2));
    lemma_without_behind_front(b, seq![a] + r2, c);
    lemma_without_behind_front(a, r2, c);
    lemma_without_id(r2, c);
    assert(s3.active =~= seq![c, b, a] + r3);
}

/// After a key was set to one value and then to another, the setting of the
/// key has the second value, and the store holds the key once: the second
/// call stored no further setting.
pub proof fn law_setting_keeps_last_value(
    v: StoreView,
    key: Seq<char>,
    first: Seq<char>,
    second: Seq<char>,
)
    requires
        store_wf(v),
    ensures
        store_wf(set_state(set_state(v, key, first), key, second)),
        setting_of(set_state(set_state(v, key, first), key, second).settings, key) matches Some(s)
            && s.value == second,
        set_state(set_state(v, key, first), key, second).settings.len() == set_state(
            v,
            key,
            first,
        ).settings.len(),
{
    let w = set_state(v, key, first);
    lemma_set_wf(v, key, first);
    lemma_set_wf(w, key, second);
}

/// Seeding a setting leaves every stored setting as it is, and seeding it
/// again changes nothing.
pub proof fn law_seeding_settings_is_idempotent(v: StoreView, setting: SettingView)
    requires
        store_wf(v),
    ensures
        has_key(v.settings, setting.key) ==> seed_setting_state(v, setting) == v,
        forall|i: int|
            0 <= i < v.settings.len() ==> seed_setting_state(v, setting).settings[i]
                == v.settings[i],
        seed_setting_state(seed_setting_state(v, setting), setting) == seed_setting_state(
            v,
            setting,
        ),
{
    lemma_seed_setting_wf(v, setting);
}

/// Seeding the vocabulary leaves a store that holds any record as it is, and
/// seeding again changes nothing.
pub proof fn law_seeding_vocabulary_is_idempotent(v: StoreView, image_path: Seq<char>)
    requires
        store_wf(v),
    ensures
        v.vocabulary.len() > 0 ==> seed_vocabulary_state(v, image_path) == v,
        seed_vocabulary_state(seed_vocabulary_state(v, image_path), image_path)
            == seed_vocabulary_state(v, image_path),
{
}

} // verus!
