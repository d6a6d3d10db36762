//! The entities that the store keeps, their mathematical views, and the
//! errors that operations on them report.

use vstd::prelude::*;

verus! {

/// One vocabulary entry.
///
/// `id` is absent until the store has assigned one. A record whose
/// `is_default` flag is set is seed data: it can be read, and its image can be
/// replaced, but it can be neither edited nor deleted.
#[derive(Debug)]
pub struct VocabularyRecord {
    pub id: Option<i64>,
    pub word: String,
    pub translation: String,
    pub image_path: String,
    pub phonetic: Option<String>,
    pub example: Option<String>,
    pub color: Option<String>,
    pub is_default: bool,
}

/// What a [`VocabularyRecord`] holds, with every text as a sequence of
/// characters.
pub struct RecordView {
    pub id: Option<i64>,
    pub word: Seq<char>,
    pub translation: Seq<char>,
    pub image_path: Seq<char>,
    pub phonetic: Option<Seq<char>>,
    pub example: Option<Seq<char>>,
    pub color: Option<Seq<char>>,
    pub is_default: bool,
}

/// The view of an optional text.
pub open spec fn text_opt_view(text: Option<String>) -> Option<Seq<char>> {
    match text {
        Some(s) => Some(s@),
        None => None,
    }
}

impl View for VocabularyRecord {
    type V = RecordView;

    open spec fn view(&self) -> RecordView {
        RecordView {
            id: self.id,
            word: self.word@,
            translation: self.translation@,
            image_path: self.image_path@,
            phonetic: text_opt_view(self.phonetic),
            example: text_opt_view(self.example),
            color: text_opt_view(self.color),
            is_default: self.is_default,
        }
    }
}

/// A copy of an optional text.
pub fn copy_text_opt(text: &Option<String>) -> (r: Option<String>)
    ensures
        text_opt_view(r) == text_opt_view(*text),
{
    match text {
        Some(s) => Some(s.clone()),
        None => None,
    }
}

impl VocabularyRecord {
    /// A copy of this record, field for field.
    pub fn duplicate(&self) -> (r: VocabularyRecord)
        ensures
            r@ == self@,
    {
        VocabularyRecord {
            id: self.id,
            word: self.word.clone(),
            translation: self.translation.clone(),
            image_path: self.image_path.clone(),
            phonetic: copy_text_opt(&self.phonetic),
            example: copy_text_opt(&self.example),
            color: copy_text_opt(&self.color),
            is_default: self.is_default,
        }
    }
}

/// One key/value setting. `description` is given when the setting is first
/// stored and is left alone by later changes of the value.
#[derive(Debug)]
pub struct SystemSetting {
    pub key: String,
    pub value: String,
    pub description: Option<String>,
}

/// What a [`SystemSetting`] holds, with every text as a sequence of
/// characters.
pub struct SettingView {
    pub key: Seq<char>,
    pub value: Seq<char>,
    pub description: Option<Seq<char>>,
}

impl View for SystemSetting {
    type V = SettingView;

    open spec fn view(&self) -> SettingView {
        SettingView {
            key: self.key@,
            value: self.value@,
            description: text_opt_view(self.description),
        }
    }
}

impl SystemSetting {
    /// A copy of this setting, field for field.
    pub fn duplicate(&self) -> (r: SystemSetting)
        ensures
            r@ == self@,
    {
        SystemSetting {
            key: self.key.clone(),
            value: self.value.clone(),
            description: copy_text_opt(&self.description),
        }
    }
}

/// Why an operation on the store or on the asset directories failed.
#[derive(Clone, Copy, Debug, PartialEq, Eq, Structural)]
pub enum StoreError {
    /// The store could not carry the operation out: it is unreachable, full,
    /// or a constraint between its tables forbids the change.
    Persistence,
    /// The operation would change a default record, or the active status of
    /// one.
    ProtectedRecord,
    /// The active set already holds as many words as it may.
    CapacityExceeded,
    /// The file to delete does not exist.
    NotFound,
    /// The encoded payload is malformed.
    Decode,
    /// The file system refused the operation.
    Io,
}

impl StoreError {
    /// A short description of the error for display.
    pub fn message(&self) -> (r: &'static str)
        ensures
            r@ == error_text(*self),
    {
        match self {
            StoreError::Persistence => "the store could not complete the operation",
            StoreError::ProtectedRecord => "default words cannot be changed",
            StoreError::CapacityExceeded => "the active set is full (5 words)",
            StoreError::NotFound => "the file does not exist",
            StoreError::Decode => "the payload is not valid base64",
            StoreError::Io => "the file system refused the operation",
        }
    }
}

/// The text that [`StoreError::message`] gives for each error.
pub open spec fn error_text(e: StoreError) -> Seq<char> {
    match e {
        StoreError::Persistence => "the store could not complete the operation"@,
        StoreError::ProtectedRecord => "default words cannot be changed"@,
        StoreError::CapacityExceeded => "the active set is full (5 words)"@,
        StoreError::NotFound => "the file does not exist"@,
        StoreError::Decode => "the payload is not valid base64"@,
        StoreError::Io => "the file system refused the operation"@,
    }
}

} // verus!
