//! Asset ingestion: the image and the sound directory below the base storage
//! directory, kept in memory, with whole-file saves, chunked uploads,
//! listings and deletion.

use crate::files::{
    copy_bytes, dir_wf, file_of, file_views, has_file, index_of_file, lemma_file_at, lemma_removed,
    lemma_saved, overlaid, overlay, removed, saved, AssetFile, FileView,
};
use crate::listing::{
    entry_views, folder_name, folder_of, has_extension, is_listed, is_unreadable,
    law_listing_names_matching_files, listed, select_names, text_views, AssetKind, DirEntry,
    EntryView,
};
use crate::paths::{join, joined};
use crate::payload::{base64_decoded, decode_payload, payload_body};
use crate::records::StoreError;
use vstd::prelude::*;
use vstd::string::StringExecFns;

verus! {

/// What a chunked upload answers: the path of the file once the last chunk
/// is written, or that more chunks are expected.
pub enum ChunkReply {
    Saved(String),
    Continue,
}

impl ChunkReply {
    /// The reply as one text: the path, or the words that ask for the next
    /// chunk.
    pub fn into_text(self) -> (r: String)
        ensures
            r@ == match self {
                ChunkReply::Saved(path) => path@,
                ChunkReply::Continue => "继续上传"@,
            },
    {
        match self {
            ChunkReply::Saved(path) => path,
            ChunkReply::Continue => String::from_str("继续上传"),
        }
    }
}

/// Whether a chunk at `offset` starts its file afresh instead of writing
/// into what is there.
pub fn starts_fresh(offset: u64) -> (r: bool)
    ensures
        r == (offset == 0),
{
    offset == 0
}

/// The answer to a chunk that was written to the file at `path`.
pub fn chunk_reply(path: String, is_final: bool) -> (r: ChunkReply)
    ensures
        r == if is_final {
            ChunkReply::Saved(path)
        } else {
            ChunkReply::Continue
        },
{
    if is_final {
        ChunkReply::Saved(path)
    } else {
        ChunkReply::Continue
    }
}

/// The two asset directories: `None` for one that does not exist.
pub struct AssetsView {
    pub base: Seq<char>,
    pub images: Option<Seq<FileView>>,
    pub sounds: Option<Seq<FileView>>,
}

/// The directory of `kind`.
pub open spec fn dir_of(v: AssetsView, kind: AssetKind) -> Option<Seq<FileView>> {
    match kind {
        AssetKind::Image => v.images,
        AssetKind::Sound => v.sounds,
    }
}

/// `v` with `dir` as the directory of `kind`.
pub open spec fn with_dir(v: AssetsView, kind: AssetKind, dir: Option<Seq<FileView>>)
    -> AssetsView {
    match kind {
        AssetKind::Image => AssetsView { images: dir, ..v },
        AssetKind::Sound => AssetsView { sounds: dir, ..v },
    }
}

/// The files of a directory once it is made sure to exist: none where it did
/// not.
pub open spec fn opened(dir: Option<Seq<FileView>>) -> Seq<FileView> {
    match dir {
        Some(files) => files,
        None => Seq::empty(),
    }
}

/// `v` with the directory of `kind` holding `files`.
pub open spec fn with_files(v: AssetsView, kind: AssetKind, files: Seq<FileView>) -> AssetsView {
    with_dir(v, kind, Some(files))
}

/// Whether no directory holds two files of one name.
pub open spec fn assets_wf(v: AssetsView) -> bool {
    &&& dir_wf(opened(v.images))
    &&& dir_wf(opened(v.sounds))
}

/// The path of the directory of `kind` below `base`.
pub open spec fn dir_path(base: Seq<char>, kind: AssetKind) -> Seq<char> {
    joined(base, folder_of(kind))
}

/// The path of the file `name` in the directory of `kind` below `base`.
pub open spec fn asset_path(base: Seq<char>, kind: AssetKind, name: Seq<char>) -> Seq<char> {
    joined(dir_path(base, kind), name)
}

/// The files of a directory as the entries that a listing sees.
pub open spec fn entries_of(files: Seq<FileView>) -> Seq<EntryView> {
    files.map_values(|f: FileView| EntryView { name: Some(f.name), is_file: true })
}

/// The names of `names`, each with its path in the sound directory.
pub open spec fn with_sound_paths(base: Seq<char>, names: Seq<Seq<char>>) -> Seq<
    (Seq<char>, Seq<char>),
> {
    names.map_values(|n: Seq<char>| (n, asset_path(base, AssetKind::Sound, n)))
}

/// The views of a sequence of pairs of texts.
pub open spec fn pair_views(pairs: Seq<(String, String)>) -> Seq<(Seq<char>, Seq<char>)> {
    pairs.map_values(|p: (String, String)| (p.0@, p.1@))
}

/// The bytes that the file `name` holds after a chunk `data` at `offset`, or
/// `None` where the chunk cannot be written: it is to go into a file that
/// does not exist, or would end beyond what a file can hold here.
pub open spec fn chunk_written(
    files: Seq<FileView>,
    name: Seq<char>,
    data: Seq<u8>,
    offset: int,
) -> Option<Seq<u8>> {
    if offset == 0 {
        Some(data)
    } else {
        match file_of(files, name) {
            Some(before) => if offset + data.len() <= usize::MAX {
                Some(overlaid(before, offset, data))
            } else {
                None
            },
            None => None,
        }
    }
}

/// The place of the file `name` among `files`.
fn file_position(files: &Vec<AssetFile>, name: &String) -> (r: Option<usize>)
    requires
        dir_wf(file_views(files@)),
    ensures
        match r {
            Some(i) => i < files.len() && has_file(file_views(files@), name@) && index_of_file(
                file_views(files@),
                name@,
            ) == i,
            None => !has_file(file_views(files@), name@),
        },
{
    let mut i: usize = 0;
    while i < files.len()
        invariant
            i <= files.len(),
            dir_wf(file_views(files@)),
            forall|j: int| 0 <= j < i ==> (#[trigger] file_views(files@)[j]).name != name@,
        decreases files.len() - i,
    {
        if files[i].name == *name {
            proof {
                lemma_file_at(file_views(files@), i as int, name@);
            }
            return Some(i);
        }
        i += 1;
    }
    None
}

/// Writes `bytes` as the whole file `name`.
fn put_file(files: &mut Vec<AssetFile>, name: String, bytes: Vec<u8>)
    requires
        dir_wf(file_views(old(files)@)),
    ensures
        dir_wf(file_views(final(files)@)),
        file_views(final(files)@) == saved(file_views(old(files)@), name@, bytes@),
{
    proof {
        lemma_saved(file_views(files@), name@, bytes@);
    }
    match file_position(files, &name) {
        Some(i) => {
            files.set(i, AssetFile { name, bytes });
            assert(file_views(files@) =~= saved(file_views(old(files)@), name@, bytes@));
        },
        None => {
            files.push(AssetFile { name, bytes });
            assert(file_views(files@) =~= saved(file_views(old(files)@), name@, bytes@));
        },
    }
}

/// The files as the entries that a listing sees.
fn entries_from(files: &Vec<AssetFile>) -> (r: Vec<DirEntry>)
    ensures
        entry_views(r@) == entries_of(file_views(files@)),
{
    let mut out: Vec<DirEntry> = Vec::new();
    let mut i: usize = 0;
    while i < files.len()
        invariant
            i <= files.len(),
            out.len() == i,
            forall|j: int|
                0 <= j < i ==> out@[j]@ == (EntryView {
                    name: Some(files@[j].name@),
                    is_file: true,
                }),
        decreases files.len() - i,
    {
        out.push(DirEntry { name: Some(files[i].name.clone()), is_file: true });
        i += 1;
    }
    assert(entry_views(out@) =~= entries_of(file_views(files@)));
    out
}

/// The image and the sound directory below a base storage directory.
pub struct AssetStore {
    base: String,
    images: Vec<AssetFile>,
    images_made: bool,
    sounds: Vec<AssetFile>,
    sounds_made: bool,
}

impl View for AssetStore {
    type V = AssetsView;

    closed spec fn view(&self) -> AssetsView {
        AssetsView {
            base: self.base@,
            images: if self.images_made {
                Some(file_views(self.images@))
            } else {
                None
            },
            sounds: if self.sounds_made {
                Some(file_views(self.sounds@))
            } else {
                None
            },
        }
    }
}

impl AssetStore {
    /// Whether no directory holds two files of one name.
    pub open spec fn wf(&self) -> bool {
        assets_wf(self@)
    }

    /// The assets below `base`, with neither directory made yet.
    pub fn new(base: &str) -> (r: AssetStore)
        ensures
            r.wf(),
            r@ == (AssetsView { base: base@, images: None, sounds: None }),
    {
        AssetStore {
            base: String::from_str(base),
            images: Vec::new(),
            images_made: false,
            sounds: Vec::new(),
            sounds_made: false,
        }
    }

    /// Makes the directory of `kind` unless it exists, and returns its path.
    pub fn ensure_dir(&mut self, kind: AssetKind) -> (r: String)
        requires
            old(self).wf(),
        ensures
            final(self).wf(),
            r@ == dir_path(old(self)@.base, kind),
            final(self)@ == with_files(old(self)@, kind, opened(dir_of(old(self)@, kind))),
    {
        match kind {
            AssetKind::Image => {
                if !self.images_made {
                    self.images = Vec::new();
                    self.images_made = true;
                    assert(file_views(self.images@) =~= Seq::empty());
                }
            },
            AssetKind::Sound => {
                if !self.sounds_made {
                    self.sounds = Vec::new();
                    self.sounds_made = true;
                    assert(file_views(self.sounds@) =~= Seq::empty());
                }
            },
        }
        join(self.base.as_str(), folder_name(kind))
    }

    /// The path of the file `name` in the directory of `kind`.
    pub fn path_of(&self, kind: AssetKind, name: &str) -> (r: String)
        ensures
            r@ == asset_path(self@.base, kind, name@),
    {
        let dir = join(self.base.as_str(), folder_name(kind));
        join(dir.as_str(), name)
    }

    /// Writes `bytes` as the whole file `file_name` in the directory of
    /// `kind`, which is made if need be, in place of any file of that name,
    /// and returns the file's path.
    pub fn store_whole(&mut self, kind: AssetKind, file_name: &str, bytes: Vec<u8>) -> (r: String)
        requires
            old(self).wf(),
        ensures
            final(self).wf(),
            r@ == asset_path(old(self)@.base, kind, file_name@),
            final(self)@ == with_files(
                old(self)@,
                kind,
                saved(opened(dir_of(old(self)@, kind)), file_name@, bytes@),
            ),
    {
        self.ensure_dir(kind);
        let name = String::from_str(file_name);
        match kind {
            AssetKind::Image => {
                put_file(&mut self.images, name, bytes);
            },
            AssetKind::Sound => {
                put_file(&mut self.sounds, name, bytes);
            },
        }
        self.path_of(kind, file_name)
    }

    /// Decodes `file_data` and writes the bytes as the whole file
    /// `file_name` in the directory of `kind`. The directory is made first;
    /// a malformed payload then leaves its files as they were.
    pub fn save_whole(&mut self, kind: AssetKind, file_name: &str, file_data: &str) -> (r: Result<
        String,
        StoreError,
    >)
        requires
            old(self).wf(),
        ensures
            final(self).wf(),
            match base64_decoded(payload_body(file_data@)) {
                Some(bytes) => (r matches Ok(path) && path@ == asset_path(
                    old(self)@.base,
                    kind,
                    file_name@,
                )) && final(self)@ == with_files(
                    old(self)@,
                    kind,
                    saved(opened(dir_of(old(self)@, kind)), file_name@, bytes),
                ),
                None => r == Err::<String, StoreError>(StoreError::Decode) && final(self)@
                    == with_files(old(self)@, kind, opened(dir_of(old(self)@, kind))),
            },
    {
        self.ensure_dir(kind);
        match decode_payload(file_data) {
            Ok(bytes) => Ok(self.store_whole(kind, file_name, bytes)),
            Err(e) => Err(e),
        }
    }

    /// The names of the files in the directory of `kind` that end in one of
    /// its extensions, in the directory's order. A directory that does not
    /// exist is made, and the listing is empty.
    pub fn list(&mut self, kind: AssetKind) -> (r: Vec<String>)
        requires
            old(self).wf(),
        ensures
            final(self).wf(),
            text_views(r@) == listed(entries_of(opened(dir_of(old(self)@, kind))), kind),
            final(self)@ == with_files(old(self)@, kind, opened(dir_of(old(self)@, kind))),
    {
        self.ensure_dir(kind);
        let entries = match kind {
            AssetKind::Image => entries_from(&self.images),
            AssetKind::Sound => entries_from(&self.sounds),
        };
        match select_names(&entries, kind) {
            Ok(names) => names,
            Err(_) => {
                proof {
                    let all = entry_views(entries@);
                    let i = choose|i: int|
                        0 <= i < all.len() && is_unreadable(#[trigger] all[i]);
                    assert(all[i].name is Some);
                }
                Vec::new()
            },
        }
    }

    /// Writes the chunk `data` at `offset` of the sound `name`. The sound
    /// directory is made if need be. A chunk at offset 0 starts the file
    /// afresh; any other is written into the file that is there, which fails
    /// where there is none. The last chunk is answered with the file's path.
    pub fn save_chunk(&mut self, name: &str, data: Vec<u8>, offset: u64, is_final: bool) -> (r:
        Result<ChunkReply, StoreError>)
        requires
            old(self).wf(),
        ensures
            final(self).wf(),
            match chunk_written(opened(old(self)@.sounds), name@, data@, offset as int) {
                Some(bytes) => final(self)@ == with_files(
                    old(self)@,
                    AssetKind::Sound,
                    saved(opened(old(self)@.sounds), name@, bytes),
                ) && match r {
                    Ok(ChunkReply::Saved(path)) => is_final && path@ == asset_path(
                        old(self)@.base,
                        AssetKind::Sound,
                        name@,
                    ),
                    Ok(ChunkReply::Continue) => !is_final,
                    Err(_) => false,
                },
                None => final(self)@ == with_files(
                    old(self)@,
                    AssetKind::Sound,
                    opened(old(self)@.sounds),
                ) && r == Err::<ChunkReply, StoreError>(StoreError::Io),
            },
    {
        self.ensure_dir(AssetKind::Sound);
        let bytes = if starts_fresh(offset) {
            data
        } else {
            let key = String::from_str(name);
            match file_position(&self.sounds, &key) {
                Some(i) => {
                    if offset > (usize::MAX - data.len()) as u64 {
                        return Err(StoreError::Io);
                    }
                    overlay(&self.sounds[i].bytes, offset as usize, &data)
                },
                None => {
                    return Err(StoreError::Io);
                },
            }
        };
        let path = self.store_whole(AssetKind::Sound, name, bytes);
        Ok(chunk_reply(path, is_final))
    }

    /// Deletes the file `name` from the directory of `kind`. A file that
    /// does not exist is an error, and nothing changes.
    pub fn delete(&mut self, kind: AssetKind, name: &str) -> (r: Result<bool, StoreError>)
        requires
            old(self).wf(),
        ensures
            final(self).wf(),
            has_file(opened(dir_of(old(self)@, kind)), name@) ==> r == Ok::<bool, StoreError>(true)
                && final(self)@ == with_files(
                old(self)@,
                kind,
                removed(opened(dir_of(old(self)@, kind)), name@),
            ),
            !has_file(opened(dir_of(old(self)@, kind)), name@) ==> r == Err::<bool, StoreError>(
                StoreError::NotFound,
            ) && final(self)@ == old(self)@,
    {
        let key = String::from_str(name);
        match kind {
            AssetKind::Image => {
                if !self.images_made {
                    return Err(StoreError::NotFound);
                }
                match file_position(&self.images, &key) {
                    Some(i) => {
                        proof {
                            lemma_removed(file_views(self.images@), name@);
                        }
                        self.images.remove(i);
                        assert(file_views(self.images@) =~= removed(
                            file_views(old(self).images@),
                            name@,
                        ));
                        Ok(true)
                    },
                    None => Err(StoreError::NotFound),
                }
            },
            AssetKind::Sound => {
                if !self.sounds_made {
                    return Err(StoreError::NotFound);
                }
                match file_position(&self.sounds, &key) {
                    Some(i) => {
                        proof {
                            lemma_removed(file_views(self.sounds@), name@);
                        }
                        self.sounds.remove(i);
                        assert(file_views(self.sounds@) =~= removed(
                            file_views(old(self).sounds@),
                            name@,
                        ));
                        Ok(true)
                    },
                    None => Err(StoreError::NotFound),
                }
            },
        }
    }

    /// The sounds of the sound directory, each name with its path. A
    /// directory that does not exist is made, and the listing is empty.
    pub fn list_sounds(&mut self) -> (r: Vec<(String, String)>)
        requires
            old(self).wf(),
        ensures
            final(self).wf(),
            pair_views(r@) == with_sound_paths(
                old(self)@.base,
                listed(entries_of(opened(old(self)@.sounds)), AssetKind::Sound),
            ),
            final(self)@ == with_files(old(self)@, AssetKind::Sound, opened(old(self)@.sounds)),
    {
        let names = self.list(AssetKind::Sound);
        let mut out: Vec<(String, String)> = Vec::new();
        let mut i: usize = 0;
        while i < names.len()
            invariant
                i <= names.len(),
                out.len() == i,
                forall|j: int|
                    0 <= j < i ==> (#[trigger] out@[j]).0@ == names@[j]@ && out@[j].1@
                        == asset_path(self@.base, AssetKind::Sound, names@[j]@),
            decreases names.len() - i,
        {
            let path = self.path_of(AssetKind::Sound, names[i].as_str());
            out.push((names[i].clone(), path));
            i += 1;
        }
        assert(pair_views(out@) =~= with_sound_paths(self@.base, text_views(names@)));
        out
    }

    /// The bytes of the file `name` in the directory of `kind`, if there is
    /// such a file.
    pub fn read(&self, kind: AssetKind, name: &str) -> (r: Option<Vec<u8>>)
        requires
            self.wf(),
        ensures
            match r {
                Some(bytes) => file_of(opened(dir_of(self@, kind)), name@) == Some(bytes@),
                None => file_of(opened(dir_of(self@, kind)), name@) is None,
            },
    {
        let key = String::from_str(name);
        match kind {
            AssetKind::Image => {
                if !self.images_made {
                    return None;
                }
                match file_position(&self.images, &key) {
                    Some(i) => Some(copy_bytes(&self.images[i].bytes)),
                    None => None,
                }
            },
            AssetKind::Sound => {
                if !self.sounds_made {
                    return None;
                }
                match file_position(&self.sounds, &key) {
                    Some(i) => Some(copy_bytes(&self.sounds[i].bytes)),
                    None => None,
                }
            },
        }
    }
}

/// A listing of files names exactly those whose name ends in an extension of
/// the kind, whatever else the directory holds.
pub proof fn law_listing_gives_files_with_extension(files: Seq<FileView>, kind: AssetKind)
    ensures
        forall|n: Seq<char>| #[trigger]
            listed(entries_of(files), kind).contains(n) <==> has_file(files, n)
                && has_extension(kind, n),
{
    let entries = entries_of(files);
    law_listing_names_matching_files(entries, kind);
    assert forall|n: Seq<char>| #[trigger]
        listed(entries, kind).contains(n) <==> has_file(files, n) && has_extension(
            kind,
            n,
        ) by {
        if listed(entries, kind).contains(n) {
            let i = choose|i: int|
                0 <= i < entries.len() && is_listed(kind, #[trigger] entries[i])
                    && entries[i].name == Some(n);
            assert(files[i].name == n);
        }
        if has_file(files, n) && has_extension(kind, n) {
            let i = index_of_file(files, n);
            assert(files[i].name == n);
            assert(is_listed(kind, entries[i]));
            assert(entries[i].name == Some(n));
        }
    }
}

/// The listing of a directory that does not exist is empty.
pub proof fn law_listing_a_missing_directory_is_empty(kind: AssetKind)
    ensures
        listed(entries_of(opened(None)), kind) == Seq::<Seq<char>>::empty(),
{
    assert(entries_of(opened(None)) =~= Seq::empty());
}

/// A chunk at offset 0 makes the file hold exactly the chunk, whatever it
/// held before.
pub proof fn law_first_chunk_starts_afresh(files: Seq<FileView>, name: Seq<char>, data: Seq<u8>)
    ensures
        chunk_written(files, name, data, 0) == Some(data),
{
}

/// A first chunk at offset 0 and a second chunk at the offset where the
/// first ended make a file that holds the first followed by the second.
pub proof fn law_two_chunks_make_the_file(
    files: Seq<FileView>,
    name: Seq<char>,
    first: Seq<u8>,
    second: Seq<u8>,
)
    requires
        dir_wf(files),
        first.len() + second.len() <= usize::MAX,
    ensures
        chunk_written(files, name, first, 0) == Some(first),
        chunk_written(saved(files, name, first), name, second, first.len() as int) == Some(
            first + second,
        ),
        file_of(saved(saved(files, name, first), name, first + second), name) == Some(
            first + second,
        ),
{
    lemma_saved(files, name, first);
    lemma_saved(saved(files, name, first), name, first + second);
    if first.len() == 0 {
        assert(first + second =~= second);
    } else {
        assert(overlaid(first, first.len() as int, second) =~= first + second);
    }
}

/// A chunk sent again at an offset other than 0, into the range of the file
/// that it was written to before, leaves every byte of the file outside that
/// range as it was and the file as long as it was; where the range still
/// holds the chunk, the file does not change at all.
pub proof fn law_resent_chunk_keeps_the_rest(
    files: Seq<FileView>,
    name: Seq<char>,
    data: Seq<u8>,
    offset: int,
)
    requires
        dir_wf(files),
        0 < offset,
        file_of(files, name) matches Some(before) && offset + data.len() <= before.len(),
        offset + data.len() <= usize::MAX,
    ensures
        chunk_written(files, name, data, offset) matches Some(after) && after.len() == file_of(
            files,
            name,
        )->0.len() && (forall|i: int|
            0 <= i < after.len() && !(offset <= i < offset + data.len()) ==> after[i] == file_of(
                files,
                name,
            )->0[i]) && (file_of(files, name)->0.subrange(offset, offset + data.len()) == data
            ==> after == file_of(files, name)->0),
{
    let before = file_of(files, name)->0;
    let after = overlaid(before, offset, data);
    if before.subrange(offset, offset + data.len()) == data {
        assert forall|i: int| 0 <= i < after.len() implies after[i] == before[i] by {
            if offset <= i < offset + data.len() {
                assert(before.subrange(offset, offset + data.len())[i - offset] == before[i]);
            }
        }
        assert(after =~= before);
    }
}

} // verus!
