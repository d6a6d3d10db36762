//! The model of an asset directory: named files with their bytes, and what
//! saving, overlaying and removing make of them.

use vstd::prelude::*;

verus! {

/// A file of an asset directory.
pub struct AssetFile {
    pub name: String,
    pub bytes: Vec<u8>,
}

/// What an [`AssetFile`] holds.
pub struct FileView {
    pub name: Seq<char>,
    pub bytes: Seq<u8>,
}

impl View for AssetFile {
    type V = FileView;

    open spec fn view(&self) -> FileView {
        FileView { name: self.name@, bytes: self.bytes@ }
    }
}

/// The views of a sequence of files.
pub open spec fn file_views(files: Seq<AssetFile>) -> Seq<FileView> {
    files.map_values(|f: AssetFile| f@)
}

/// Whether `dir` holds a file named `name`.
pub open spec fn has_file(dir: Seq<FileView>, name: Seq<char>) -> bool {
    exists|i: int| 0 <= i < dir.len() && (#[trigger] dir[i]).name == name
}

/// The place of a file named `name` in `dir`, where there is one.
pub open spec fn index_of_file(dir: Seq<FileView>, name: Seq<char>) -> int {
    choose|i: int| 0 <= i < dir.len() && (#[trigger] dir[i]).name == name
}

/// The bytes of the file named `name`, if `dir` holds one.
pub open spec fn file_of(dir: Seq<FileView>, name: Seq<char>) -> Option<Seq<u8>> {
    if has_file(dir, name) {
        Some(dir[index_of_file(dir, name)].bytes)
    } else {
        None
    }
}

/// Whether no two files of `dir` share a name.
pub open spec fn dir_wf(dir: Seq<FileView>) -> bool {
    forall|i: int, j: int|
        0 <= i < j < dir.len() ==> (#[trigger] dir[i]).name != (#[trigger] dir[j]).name
}

/// `dir` after `bytes` were written as the whole file `name`: a file of that
/// name is replaced, else the file is new.
pub open spec fn saved(dir: Seq<FileView>, name: Seq<char>, bytes: Seq<u8>) -> Seq<FileView> {
    if has_file(dir, name) {
        dir.update(index_of_file(dir, name), FileView { name, bytes })
    } else {
        dir.push(FileView { name, bytes })
    }
}

/// `dir` without the file `name`.
pub open spec fn removed(dir: Seq<FileView>, name: Seq<char>) -> Seq<FileView> {
    if has_file(dir, name) {
        dir.remove(index_of_file(dir, name))
    } else {
        dir
    }
}

/// The bytes of a file that held `before` after `data` was written at the
/// position `offset`: `data` stands at `offset`, what was outside that range
/// stays, and a gap between the old end and `offset` reads as zeros.
pub open spec fn overlaid(before: Seq<u8>, offset: int, data: Seq<u8>) -> Seq<u8> {
    Seq::new(
        if before.len() >= offset + data.len() {
            before.len()
        } else {
            (offset + data.len()) as nat
        },
        |i: int|
            if offset <= i < offset + data.len() {
                data[i - offset]
            } else if i < before.len() {
                before[i]
            } else {
                0u8
            },
    )
}

/// In a directory without duplicate names the file at a place is the file of
/// its name.
pub proof fn lemma_file_at(dir: Seq<FileView>, i: int, name: Seq<char>)
    requires
        dir_wf(dir),
        0 <= i < dir.len(),
        dir[i].name == name,
    ensures
        has_file(dir, name),
        index_of_file(dir, name) == i,
        file_of(dir, name) == Some(dir[i].bytes),
{
    let k = index_of_file(dir, name);
    assert(dir[k].name == name);
    if k < i {
        assert(dir[k].name != dir[i].name);
    } else if i < k {
        assert(dir[i].name != dir[k].name);
    }
}

/// Saving keeps names unique, makes the file hold the bytes, and leaves
/// every other file as it was.
pub proof fn lemma_saved(dir: Seq<FileView>, name: Seq<char>, bytes: Seq<u8>)
    requires
        dir_wf(dir),
    ensures
        dir_wf(saved(dir, name, bytes)),
        file_of(saved(dir, name, bytes), name) == Some(bytes),
        forall|other: Seq<char>|
            other != name ==> #[trigger] file_of(saved(dir, name, bytes), other) == file_of(
                dir,
                other,
            ),
{
    let w = saved(dir, name, bytes);
    if has_file(dir, name) {
        let k = index_of_file(dir, name);
        assert(dir[k].name == name);
        assert forall|i: int| 0 <= i < w.len() implies (#[trigger] w[i]).name == dir[i].name by {}
        assert(dir_wf(w));
        lemma_file_at(w, k, name);
        assert forall|other: Seq<char>| other != name implies #[trigger] file_of(w, other)
            == file_of(dir, other) by {
            if has_file(dir, other) {
                let j = index_of_file(dir, other);
                assert(w[j].name == other);
                lemma_file_at(dir, j, other);
                lemma_file_at(w, j, other);
            } else if has_file(w, other) {
                let j = index_of_file(w, other);
                assert(dir[j].name == other);
            }
        }
    } else {
        let n = dir.len() as int;
        assert forall|i: int, j: int| 0 <= i < j < w.len() implies (#[trigger] w[i]).name != (
        #[trigger] w[j]).name by {
            if j == n {
                assert(dir[i].name != name);
            }
        }
        lemma_file_at(w, n, name);
        assert forall|other: Seq<char>| other != name implies #[trigger] file_of(w, other)
            == file_of(dir, other) by {
            if has_file(dir, other) {
                let j = index_of_file(dir, other);
                assert(w[j].name == other);
                lemma_file_at(dir, j, other);
                lemma_file_at(w, j, other);
            } else if has_file(w, other) {
                let j = index_of_file(w, other);
                assert(j < n);
                assert(dir[j].name == other);
            }
        }
    }
}

/// Removing keeps names unique, leaves no file of the name, and leaves every
/// other file as it was.
pub proof fn lemma_removed(dir: Seq<FileView>, name: Seq<char>)
    requires
        dir_wf(dir),
    ensures
        dir_wf(removed(dir, name)),
        !has_file(removed(dir, name), name),
        forall|other: Seq<char>|
            other != name ==> #[trigger] file_of(removed(dir, name), other) == file_of(dir, other),
{
    let w = removed(dir, name);
    if has_file(dir, name) {
        let k = index_of_file(dir, name);
        assert(dir[k].name == name);
        assert forall|i: int| 0 <= i < w.len() implies #[trigger] w[i] == dir[if i < k {
            i
        } else {
            i + 1
        }] by {}
        assert(dir_wf(w));
        if has_file(w, name) {
            let i = index_of_file(w, name);
            let j = if i < k { i } else { i + 1 };
            assert(dir[j].name == name);
            if j < k {
                assert(dir[j].name != dir[k].name);
            } else {
                assert(dir[k].name != dir[j].name);
            }
        }
        assert forall|other: Seq<char>| other != name implies #[trigger] file_of(w, other)
            == file_of(dir, other) by {
            if has_file(dir, other) {
                let j = index_of_file(dir, other);
                assert(j != k);
                let i = if j < k { j } else { j - 1 };
                assert(w[i].name == other);
                lemma_file_at(dir, j, other);
                lemma_file_at(w, i, other);
            } else if has_file(w, other) {
                let i = index_of_file(w, other);
                assert(dir[if i < k { i } else { i + 1 }].name == other);
            }
        }
    }
}

/// A copy of `bytes`.
pub fn copy_bytes(bytes: &Vec<u8>) -> (r: Vec<u8>)
    ensures
        r@ == bytes@,
{
    let mut out: Vec<u8> = Vec::new();
    let mut i: usize = 0;
    while i < bytes.len()
        invariant
            i <= bytes.len(),
            out@ == bytes@.take(i as int),
        decreases bytes.len() - i,
    {
        out.push(bytes[i]);
        assert(out@ =~= bytes@.take(i + 1));
        i += 1;
    }
    assert(bytes@.take(i as int) =~= bytes@);
    out
}

/// The bytes of a file that held `before` after `data` was written at the
/// position `offset`.
pub fn overlay(before: &Vec<u8>, offset: usize, data: &Vec<u8>) -> (r: Vec<u8>)
    requires
        offset + data.len() <= usize::MAX,
    ensures
        r@ == overlaid(before@, offset as int, data@),
{
    let end: usize = offset + data.len();
    let n: usize = if before.len() >= end {
        before.len()
    } else {
        end
    };
    let mut out: Vec<u8> = Vec::new();
    let mut i: usize = 0;
    while i < n
        invariant
            i <= n,
            end == offset + data.len(),
            n == overlaid(before@, offset as int, data@).len(),
            out@ == overlaid(before@, offset as int, data@).take(i as int),
        decreases n - i,
    {
        let b: u8 = if offset <= i && i < end {
            data[i - offset]
        } else if i < before.len() {
            before[i]
        } else {
            0
        };
        out.push(b);
        assert(out@ =~= overlaid(before@, offset as int, data@).take(i + 1));
        i += 1;
    }
    assert(out@ =~= overlaid(before@, offset as int, data@));
    out
}

/// A chunk written at its offset leaves every byte outside its range as it
/// was, holds the chunk inside it, and never shortens the file.
pub proof fn law_chunk_touches_only_its_range(before: Seq<u8>, offset: int, data: Seq<u8>)
    requires
        0 <= offset,
    ensures
        overlaid(before, offset, data).len() >= before.len(),
        overlaid(before, offset, data).len() >= offset + data.len(),
        overlaid(before, offset, data).len() == before.len() || overlaid(
            before,
            offset,
            data,
        ).len() == offset + data.len(),
        forall|i: int|
            0 <= i < before.len() && !(offset <= i < offset + data.len()) ==> overlaid(
                before,
                offset,
                data,
            )[i] == before[i],
        forall|i: int|
            0 <= i < data.len() ==> overlaid(before, offset, data)[offset + i] == data[i],
{
}

/// A chunk written at the end of what the chunks before it made appends to
/// it: the file then is the one followed by the other.
pub proof fn law_chunks_in_order_concatenate(before: Seq<u8>, data: Seq<u8>)
    ensures
        overlaid(before, before.len() as int, data) == before + data,
{
    assert(overlaid(before, before.len() as int, data) =~= before + data);
}

/// Writing the same chunk at the same offset again changes nothing.
pub proof fn law_chunk_retry_is_idempotent(before: Seq<u8>, offset: int, data: Seq<u8>)
    requires
        0 <= offset,
    ensures
        overlaid(overlaid(before, offset, data), offset, data) == overlaid(before, offset, data),
{
    assert(overlaid(overlaid(before, offset, data), offset, data) =~= overlaid(
        before,
        offset,
        data,
    ));
}

} // verus!
