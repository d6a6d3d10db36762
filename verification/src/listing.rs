//! Which entries of an asset directory a listing names: files whose name
//! ends in one of the extensions of the directory's kind.

use crate::records::{text_opt_view, StoreError};
use crate::text::{ends_with, is_suffix};
use vstd::prelude::*;

verus! {

/// The two kinds of asset, each with a directory of its own.
#[derive(Clone, Copy, Debug, PartialEq, Eq, Structural)]
pub enum AssetKind {
    /// A picture: `.jpg`, `.jpeg`, `.png` or `.gif`, in the directory `images`.
    Image,
    /// A recording: `.mp3`, `.wav` or `.ogg`, in the directory `sounds`.
    Sound,
}

/// The name of the directory of `kind` below the base storage directory.
pub open spec fn folder_of(kind: AssetKind) -> Seq<char> {
    match kind {
        AssetKind::Image => "images"@,
        AssetKind::Sound => "sounds"@,
    }
}

/// The name of the directory of `kind` below the base storage directory.
pub fn folder_name(kind: AssetKind) -> (r: &'static str)
    ensures
        r@ == folder_of(kind),
{
    match kind {
        AssetKind::Image => "images",
        AssetKind::Sound => "sounds",
    }
}

/// Whether `name` ends in an extension of `kind`, in lower case as written.
pub open spec fn has_extension(kind: AssetKind, name: Seq<char>) -> bool {
    match kind {
        AssetKind::Image => is_suffix(".jpg"@, name) || is_suffix(".jpeg"@, name) || is_suffix(
            ".png"@,
            name,
        ) || is_suffix(".gif"@, name),
        AssetKind::Sound => is_suffix(".mp3"@, name) || is_suffix(".wav"@, name) || is_suffix(
            ".ogg"@,
            name,
        ),
    }
}

/// Whether the file name `name` ends in an extension of `kind`.
pub fn name_matches(kind: AssetKind, name: &str) -> (r: bool)
    ensures
        r == has_extension(kind, name@),
{
    match kind {
        AssetKind::Image => ends_with(name, ".jpg") || ends_with(name, ".jpeg") || ends_with(
            name,
            ".png",
        ) || ends_with(name, ".gif"),
        AssetKind::Sound => ends_with(name, ".mp3") || ends_with(name, ".wav") || ends_with(
            name,
            ".ogg",
        ),
    }
}

/// One entry of a directory as the file system reported it: its name, `None`
/// where the name is no text, and whether it is a regular file.
pub struct DirEntry {
    pub name: Option<String>,
    pub is_file: bool,
}

/// What a [`DirEntry`] holds, with the name as a sequence of characters.
pub struct EntryView {
    pub name: Option<Seq<char>>,
    pub is_file: bool,
}

impl View for DirEntry {
    type V = EntryView;

    open spec fn view(&self) -> EntryView {
        EntryView { name: text_opt_view(self.name), is_file: self.is_file }
    }
}

/// The views of a sequence of entries.
pub open spec fn entry_views(entries: Seq<DirEntry>) -> Seq<EntryView> {
    entries.map_values(|e: DirEntry| e@)
}

/// The views of a sequence of texts.
pub open spec fn text_views(texts: Seq<String>) -> Seq<Seq<char>> {
    texts.map_values(|s: String| s@)
}

/// Whether a listing of `kind` names the entry `e`.
pub open spec fn is_listed(kind: AssetKind, e: EntryView) -> bool {
    e.is_file && (e.name matches Some(n) && has_extension(kind, n))
}

/// The names that a listing of `kind` gives for `entries`, in their order.
pub open spec fn listed(entries: Seq<EntryView>, kind: AssetKind) -> Seq<Seq<char>>
    decreases entries.len(),
{
    if entries.len() == 0 {
        Seq::empty()
    } else {
        let before = listed(entries.drop_last(), kind);
        if is_listed(kind, entries.last()) {
            before.push(entries.last().name->0)
        } else {
            before
        }
    }
}

/// Whether some file among `entries` has a name that is no text.
pub open spec fn unreadable(entries: Seq<EntryView>) -> bool {
    exists|i: int| 0 <= i < entries.len() && is_unreadable(#[trigger] entries[i])
}

/// Whether `e` is a file whose name is no text.
pub open spec fn is_unreadable(e: EntryView) -> bool {
    e.is_file && e.name is None
}

/// A listing names exactly the files with an extension of its kind: each
/// name that it gives is the name of such an entry, and each such entry's
/// name is given.
pub proof fn law_listing_names_matching_files(entries: Seq<EntryView>, kind: AssetKind)
    ensures
        forall|n: Seq<char>| #[trigger]
            listed(entries, kind).contains(n) <==> exists|i: int|
                0 <= i < entries.len() && is_listed(kind, #[trigger] entries[i]) && entries[i].name
                    == Some(n),
        forall|n: Seq<char>| #[trigger]
            listed(entries, kind).contains(n) ==> has_extension(kind, n),
        listed(entries, kind).len() <= entries.len(),
    decreases entries.len(),
{
    if entries.len() > 0 {
        let init = entries.drop_last();
        let last = entries.last();
        law_listing_names_matching_files(init, kind);
        let before = listed(init, kind);
        let all = listed(entries, kind);
        assert forall|n: Seq<char>| #[trigger] all.contains(n) <==> exists|i: int|
            0 <= i < entries.len() && is_listed(kind, #[trigger] entries[i]) && entries[i].name
                == Some(n) by {
            if all.contains(n) {
                let k = all.index_of(n);
                if k < before.len() {
                    assert(before[k] == n);
                    assert(before.contains(n));
                    let i = choose|i: int|
                        0 <= i < init.len() && is_listed(kind, #[trigger] init[i]) && init[i].name
                            == Some(n);
                    assert(entries[i] == init[i]);
                } else {
                    assert(is_listed(kind, entries[entries.len() - 1]));
                }
            }
            if exists|i: int|
                0 <= i < entries.len() && is_listed(kind, #[trigger] entries[i]) && entries[i].name
                    == Some(n) {
                let i = choose|i: int|
                    0 <= i < entries.len() && is_listed(kind, #[trigger] entries[i])
                        && entries[i].name == Some(n);
                if i < init.len() {
                    assert(init[i] == entries[i]);
                    assert(before.contains(n));
                    let k = before.index_of(n);
                    assert(all[k] == n);
                } else {
                    assert(all[all.len() - 1] == n);
                }
            }
        }
        assert forall|n: Seq<char>| #[trigger] all.contains(n) implies has_extension(kind, n) by {
            let i = choose|i: int|
                0 <= i < entries.len() && is_listed(kind, #[trigger] entries[i]) && entries[i].name
                    == Some(n);
        }
    }
}

/// The names of the files among `entries` that end in an extension of
/// `kind`, in the order of `entries`. A file whose name is no text makes the
/// listing fail.
pub fn select_names(entries: &Vec<DirEntry>, kind: AssetKind) -> (r: Result<
    Vec<String>,
    StoreError,
>)
    ensures
        match r {
            Ok(names) => !unreadable(entry_views(entries@)) && text_views(names@) == listed(
                entry_views(entries@),
                kind,
            ),
            Err(e) => e == StoreError::Io && unreadable(entry_views(entries@)),
        },
{
    let ghost all = entry_views(entries@);
    let mut names: Vec<String> = Vec::new();
    let mut i: usize = 0;
    while i < entries.len()
        invariant
            i <= entries.len(),
            all == entry_views(entries@),
            text_views(names@) == listed(all.take(i as int), kind),
            forall|j: int| 0 <= j < i ==> !is_unreadable(#[trigger] all[j]),
        decreases entries.len() - i,
    {
        let entry = &entries[i];
        proof {
            assert(all.take(i + 1).drop_last() =~= all.take(i as int));
            assert(all.take(i + 1).last() == all[i as int]);
            assert(all[i as int] == entry@);
        }
        if entry.is_file {
            match &entry.name {
                Some(name) => {
                    if name_matches(kind, name.as_str()) {
                        let ghost before = names@;
                        names.push(name.clone());
                        assert(text_views(names@) =~= text_views(before).push(name@));
                    }
                },
                None => {
                    assert(is_unreadable(all[i as int]));
                    return Err(StoreError::Io);
                },
            }
        }
        i += 1;
    }
    assert(all.take(i as int) =~= all);
    Ok(names)
}

} // verus!
