//! Checksums: the SHA-256 digest of a file's content, and of a directory
//! tree given as the list of its entries, each printed in lowercase
//! hexadecimal.

use vstd::prelude::*;
use vstd::utf8::encode_utf8;
use sha2::{Digest, Sha256};

verus! {

/// The SHA-256 digest of a byte sequence, as `sha2` computes it.
pub uninterp spec fn sha256(data: Seq<u8>) -> Seq<u8>;

/// The sixteen digits of lowercase hexadecimal.
pub open spec fn hex_digit(nibble: int) -> char {
    seq!['0', '1', '2', '3', '4', '5', '6', '7', '8', '9', 'a', 'b', 'c', 'd', 'e', 'f'][nibble]
}

/// A byte sequence in lowercase hexadecimal: two digits for each byte, the
/// high half first.
pub open spec fn hex_text(data: Seq<u8>) -> Seq<char> {
    Seq::new(
        2 * data.len(),
        |i: int|
            if i % 2 == 0 {
                hex_digit(data[i / 2] as int / 16)
            } else {
                hex_digit(data[i / 2] as int % 16)
            },
    )
}

/// Calls `sha2::Sha256::digest`, which makes a fresh hasher, feeds it the
/// data and finalises it. The digest depends on the data alone; it is taken
/// on trust as `sha256` of the data.
#[verifier::external_body]
fn sha256_digest(data: &[u8]) -> (digest: Vec<u8>)
    ensures
        digest@ == sha256(data@),
{
    Sha256::digest(data).to_vec()
}

/// Calls `hex::encode`, which writes each byte as two digits out of
/// `0123456789abcdef`, the high half of the byte first. Taken on trust.
#[verifier::external_body]
fn hex_encode(data: &[u8]) -> (text: String)
    ensures
        text@ == hex_text(data@),
{
    hex::encode(data)
}

/// The digest of a file's content.
pub fn hash_file_bytes(content: &[u8]) -> (digest: Vec<u8>)
    ensures
        digest@ == sha256(content@),
{
    sha256_digest(content)
}

/// A digest, or any bytes, in lowercase hexadecimal.
pub fn digest_text(digest: &[u8]) -> (text: String)
    ensures
        text@ == hex_text(digest@),
{
    hex_encode(digest)
}

/// The checksum of a file: the digest of its content, in hexadecimal.
pub fn file_checksum(content: &[u8]) -> (checksum: String)
    ensures
        checksum@ == hex_text(sha256(content@)),
{
    let digest = hash_file_bytes(content);
    digest_text(digest.as_slice())
}

/// One entry of a directory tree, with its path relative to the root of the
/// tree. The root itself is the directory with the empty path.
#[derive(Debug, PartialEq, Eq)]
pub enum FolderEntry {
    /// A regular file and its content.
    File { path: String, content: Vec<u8> },
    /// A directory.
    Directory { path: String },
    /// Anything else.
    Other { path: String },
}

/// The mathematical value of a [`FolderEntry`].
pub enum FolderEntryView {
    File { path: Seq<char>, content: Seq<u8> },
    Directory { path: Seq<char> },
    Other { path: Seq<char> },
}

impl View for FolderEntry {
    type V = FolderEntryView;

    open spec fn view(&self) -> FolderEntryView {
        match *self {
            FolderEntry::File { path, content } => FolderEntryView::File {
                path: path@,
                content: content@,
            },
            FolderEntry::Directory { path } => FolderEntryView::Directory { path: path@ },
            FolderEntry::Other { path } => FolderEntryView::Other { path: path@ },
        }
    }
}

/// The views of a list of entries, in order.
pub open spec fn entry_views(entries: Seq<FolderEntry>) -> Seq<FolderEntryView> {
    Seq::new(entries.len(), |i: int| entries[i]@)
}

/// What a file adds to the bytes that are hashed: its path, a colon, the
/// digest of its content and a line feed.
pub open spec fn file_line_bytes(path: Seq<char>, digest: Seq<u8>) -> Seq<u8> {
    encode_utf8(path) + seq![0x3au8] + digest + seq![0x0au8]
}

/// What a directory adds to the bytes that are hashed: its path, a slash and
/// a line feed; nothing if it is the root.
pub open spec fn directory_line_bytes(path: Seq<char>) -> Seq<u8> {
    if path.len() == 0 {
        Seq::empty()
    } else {
        encode_utf8(path) + seq![0x2fu8, 0x0au8]
    }
}

/// What one entry adds to the bytes that are hashed; nothing if it is
/// neither a file nor a directory.
pub open spec fn entry_line(entry: FolderEntryView) -> Seq<u8> {
    match entry {
        FolderEntryView::File { path, content } => file_line_bytes(path, sha256(content)),
        FolderEntryView::Directory { path } => directory_line_bytes(path),
        FolderEntryView::Other { .. } => Seq::empty(),
    }
}

/// The bytes that are hashed for a list of entries: what each adds, in order.
pub open spec fn manifest(entries: Seq<FolderEntryView>) -> Seq<u8>
    decreases entries.len(),
{
    if entries.len() == 0 {
        Seq::empty()
    } else {
        manifest(entries.drop_last()) + entry_line(entries.last())
    }
}

fn append_bytes(buffer: &mut Vec<u8>, more: &[u8])
    ensures
        final(buffer)@ == old(buffer)@ + more@,
{
    let mut i: usize = 0;
    while i < more.len()
        invariant
            i <= more.len(),
            buffer@ == old(buffer)@ + more@.take(i as int),
        decreases more.len() - i,
    {
        buffer.push(more[i]);
        assert(more@.take(i + 1) =~= more@.take(i as int).push(more@[i as int]));
        i += 1;
    }
    assert(more@.take(i as int) =~= more@);
}

/// The line of a file with the given path and digest of its content.
pub fn file_line(path: &str, digest: &[u8]) -> (line: Vec<u8>)
    ensures
        line@ == file_line_bytes(path@, digest@),
{
    let mut line: Vec<u8> = Vec::new();
    append_bytes(&mut line, path.as_bytes());
    line.push(0x3au8);
    append_bytes(&mut line, digest);
    line.push(0x0au8);
    assert(line@ =~= file_line_bytes(path@, digest@));
    line
}

/// The line of a directory with the given path.
pub fn directory_line(path: &str) -> (line: Vec<u8>)
    ensures
        line@ == directory_line_bytes(path@),
{
    let mut line: Vec<u8> = Vec::new();
    if !path.is_empty() {
        append_bytes(&mut line, path.as_bytes());
        line.push(0x2fu8);
        line.push(0x0au8);
    }
    assert(line@ =~= directory_line_bytes(path@));
    line
}

fn append_entry(buffer: &mut Vec<u8>, entry: &FolderEntry)
    ensures
        final(buffer)@ == old(buffer)@ + entry_line(entry@),
{
    match entry {
        FolderEntry::File { path, content } => {
            let digest = hash_file_bytes(content.as_slice());
            let line = file_line(path.as_str(), digest.as_slice());
            append_bytes(buffer, line.as_slice());
        },
        FolderEntry::Directory { path } => {
            let line = directory_line(path.as_str());
            append_bytes(buffer, line.as_slice());
        },
        FolderEntry::Other { .. } => {
            assert(buffer@ =~= old(buffer)@ + entry_line(entry@));
        },
    }
}

/// The path of an entry as the bytes it is ordered by.
pub open spec fn entry_key(entry: FolderEntryView) -> Seq<u8> {
    match entry {
        FolderEntryView::File { path, .. } => encode_utf8(path),
        FolderEntryView::Directory { path } => encode_utf8(path),
        FolderEntryView::Other { path } => encode_utf8(path),
    }
}

/// The rank of a byte in the order of paths: the separator comes before
/// every other byte, so that a path is compared name by name.
pub open spec fn byte_rank(byte: u8) -> int {
    if byte == 0x2fu8 {
        0
    } else {
        byte as int + 1
    }
}

/// Whether path `a` comes before path `b` or is the same: the first byte in
/// which they differ decides by its rank, and a path comes before each path
/// that continues it.
pub open spec fn path_le(a: Seq<u8>, b: Seq<u8>) -> bool
    decreases a.len(),
{
    if a.len() == 0 {
        true
    } else if b.len() == 0 {
        false
    } else if a[0] == b[0] {
        path_le(a.drop_first(), b.drop_first())
    } else {
        byte_rank(a[0]) < byte_rank(b[0])
    }
}

/// Whether the entries stand in the order of their paths.
pub open spec fn in_path_order(entries: Seq<FolderEntryView>) -> bool {
    forall|i: int, j: int|
        0 <= i < j < entries.len() ==> path_le(
            entry_key(#[trigger] entries[i]),
            entry_key(#[trigger] entries[j]),
        )
}

/// Where `entry` goes among entries that stand in order: behind the last
/// one that does not come after it.
pub open spec fn place(sorted: Seq<FolderEntryView>, entry: FolderEntryView) -> int
    decreases sorted.len(),
{
    if sorted.len() == 0 {
        0
    } else if path_le(entry_key(sorted.last()), entry_key(entry)) {
        sorted.len() as int
    } else {
        place(sorted.drop_last(), entry)
    }
}

/// The entries in the order of their paths; entries of one path keep the
/// order they came in.
pub open spec fn by_path(entries: Seq<FolderEntryView>) -> Seq<FolderEntryView>
    decreases entries.len(),
{
    if entries.len() == 0 {
        Seq::empty()
    } else {
        let sorted = by_path(entries.drop_last());
        sorted.insert(place(sorted, entries.last()), entries.last())
    }
}

/// Of two paths, one comes before the other or they are the same.
pub proof fn lemma_path_le_total(a: Seq<u8>, b: Seq<u8>)
    ensures
        path_le(a, b) || path_le(b, a),
    decreases a.len(),
{
    if a.len() > 0 && b.len() > 0 && a[0] == b[0] {
        lemma_path_le_total(a.drop_first(), b.drop_first());
    }
}

/// The order of paths is transitive.
pub proof fn lemma_path_le_transitive(a: Seq<u8>, b: Seq<u8>, c: Seq<u8>)
    requires
        path_le(a, b),
        path_le(b, c),
    ensures
        path_le(a, c),
    decreases a.len(),
{
    if a.len() > 0 && b.len() > 0 && c.len() > 0 && a[0] == b[0] && b[0] == c[0] {
        lemma_path_le_transitive(a.drop_first(), b.drop_first(), c.drop_first());
    }
}

/// The place of an entry lies within the list; the entry before it, if any,
/// does not come after the entry, and every entry from it on does.
pub proof fn lemma_place(sorted: Seq<FolderEntryView>, entry: FolderEntryView)
    ensures
        0 <= place(sorted, entry) <= sorted.len(),
        place(sorted, entry) > 0 ==> path_le(
            entry_key(sorted[place(sorted, entry) - 1]),
            entry_key(entry),
        ),
        forall|i: int|
            place(sorted, entry) <= i < sorted.len() ==> !path_le(
                entry_key(#[trigger] sorted[i]),
                entry_key(entry),
            ),
    decreases sorted.len(),
{
    if sorted.len() > 0 && !path_le(entry_key(sorted.last()), entry_key(entry)) {
        let shorter = sorted.drop_last();
        lemma_place(shorter, entry);
        assert forall|i: int| place(sorted, entry) <= i < sorted.len() implies !path_le(
            entry_key(#[trigger] sorted[i]),
            entry_key(entry),
        ) by {
            if i < shorter.len() {
                assert(sorted[i] == shorter[i]);
            }
        }
    }
}

/// An index is the place of an entry if the entry before it, if any, does
/// not come after the entry, and every entry from it on does.
pub proof fn lemma_place_found(sorted: Seq<FolderEntryView>, entry: FolderEntryView, at: int)
    requires
        0 <= at <= sorted.len(),
        at > 0 ==> path_le(entry_key(sorted[at - 1]), entry_key(entry)),
        forall|i: int|
            at <= i < sorted.len() ==> !path_le(entry_key(#[trigger] sorted[i]), entry_key(entry)),
    ensures
        place(sorted, entry) == at,
    decreases sorted.len(),
{
    if sorted.len() > at {
        assert(!path_le(entry_key(sorted[sorted.len() - 1]), entry_key(entry)));
        lemma_place_found(sorted.drop_last(), entry, at);
    }
}

/// An entry put at its place among entries in order leaves them in order.
pub proof fn lemma_insert_keeps_order(sorted: Seq<FolderEntryView>, entry: FolderEntryView)
    requires
        in_path_order(sorted),
    ensures
        in_path_order(sorted.insert(place(sorted, entry), entry)),
{
    let at = place(sorted, entry);
    let after = sorted.insert(at, entry);
    lemma_place(sorted, entry);
    sorted.insert_ensures(at, entry);
    assert forall|i: int, j: int| 0 <= i < j < after.len() implies path_le(
        entry_key(#[trigger] after[i]),
        entry_key(#[trigger] after[j]),
    ) by {
        if j < at {
            assert(after[i] == sorted[i] && after[j] == sorted[j]);
        } else if j == at {
            assert(after[i] == sorted[i]);
            if i < at - 1 {
                assert(path_le(entry_key(sorted[i]), entry_key(sorted[at - 1])));
                lemma_path_le_transitive(
                    entry_key(sorted[i]),
                    entry_key(sorted[at - 1]),
                    entry_key(entry),
                );
            }
        } else {
            assert(after[j] == sorted[j - 1]);
            if i < at {
                assert(after[i] == sorted[i]);
            } else if i == at {
                assert(!path_le(entry_key(sorted[j - 1]), entry_key(entry)));
                lemma_path_le_total(entry_key(sorted[j - 1]), entry_key(entry));
            } else {
                assert(after[i] == sorted[i - 1]);
            }
        }
    }
}

/// Ordering by path rearranges the entries and leaves them in the order of
/// their paths.
pub proof fn lemma_by_path_sorts(entries: Seq<FolderEntryView>)
    ensures
        by_path(entries).len() == entries.len(),
        by_path(entries).to_multiset() == entries.to_multiset(),
        in_path_order(by_path(entries)),
    decreases entries.len(),
{
    broadcast use vstd::seq_lib::group_to_multiset_ensures;

    if entries.len() > 0 {
        let sorted = by_path(entries.drop_last());
        lemma_by_path_sorts(entries.drop_last());
        lemma_place(sorted, entries.last());
        sorted.insert_ensures(place(sorted, entries.last()), entries.last());
        lemma_insert_keeps_order(sorted, entries.last());
        assert(entries.drop_last().push(entries.last()) =~= entries);
    }
}

fn key_of(entry: &FolderEntry) -> (key: &[u8])
    ensures
        key@ == entry_key(entry@),
{
    match entry {
        FolderEntry::File { path, .. } => path.as_str().as_bytes(),
        FolderEntry::Directory { path } => path.as_str().as_bytes(),
        FolderEntry::Other { path } => path.as_str().as_bytes(),
    }
}

fn rank_of(byte: u8) -> (rank: u16)
    ensures
        rank == byte_rank(byte),
{
    if byte == 0x2fu8 {
        0
    } else {
        byte as u16 + 1
    }
}

fn comes_first(a: &[u8], b: &[u8]) -> (first: bool)
    ensures
        first == path_le(a@, b@),
{
    let mut i: usize = 0;
    assert(a@.skip(0) =~= a@ && b@.skip(0) =~= b@);
    while i < a.len() && i < b.len() && a[i] == b[i]
        invariant
            i <= a.len(),
            i <= b.len(),
            path_le(a@, b@) == path_le(a@.skip(i as int), b@.skip(i as int)),
        decreases a.len() - i,
    {
        assert(a@.skip(i as int).drop_first() =~= a@.skip(i + 1));
        assert(b@.skip(i as int).drop_first() =~= b@.skip(i + 1));
        i += 1;
    }
    if i == a.len() {
        true
    } else if i == b.len() {
        false
    } else {
        rank_of(a[i]) < rank_of(b[i])
    }
}

/// Puts the entries in the order of their paths.
pub fn sort_by_path(entries: Vec<FolderEntry>) -> (sorted: Vec<FolderEntry>)
    ensures
        entry_views(sorted@) == by_path(entry_views(entries@)),
{
    let ghost all = entry_views(entries@);
    let mut rest = entries;
    let mut sorted: Vec<FolderEntry> = Vec::new();
    assert(all.take(0) =~= Seq::<FolderEntryView>::empty());
    assert(entry_views(sorted@) =~= by_path(all.take(0)));
    assert(entry_views(rest@) =~= all.skip(0));
    while rest.len() > 0
        invariant
            sorted.len() + rest.len() == all.len(),
            entry_views(sorted@) == by_path(all.take(sorted.len() as int)),
            entry_views(rest@) == all.skip(sorted.len() as int),
        decreases rest.len(),
    {
        let ghost done = sorted.len() as int;
        let ghost before = entry_views(sorted@);
        let ghost left = entry_views(rest@);
        let ghost held = rest@;
        let entry = rest.remove(0);
        assert(entry@ == left[0]);
        assert(entry@ == all[done]);
        assert forall|k: int| 0 <= k < rest@.len() implies entry_views(rest@)[k] == all.skip(
            done + 1,
        )[k] by {
            assert(rest@[k] == held[k + 1]);
            assert(left[k + 1] == held[k + 1]@);
        }
        assert(entry_views(rest@) =~= all.skip(done + 1));
        let mut at = sorted.len();
        while at > 0 && !comes_first(key_of(&sorted[at - 1]), key_of(&entry))
            invariant
                at <= sorted.len(),
                before == entry_views(sorted@),
                forall|i: int|
                    at <= i < before.len() ==> !path_le(
                        entry_key(#[trigger] before[i]),
                        entry_key(entry@),
                    ),
            decreases at,
        {
            assert(before[at - 1] == sorted@[at - 1]@);
            at -= 1;
        }
        proof {
            if at > 0 {
                assert(before[at - 1] == sorted@[at - 1]@);
            }
            lemma_place_found(before, entry@, at as int);
            assert(all.take(done + 1).drop_last() =~= all.take(done));
            assert(all.take(done + 1).last() == all[done]);
        }
        sorted.insert(at, entry);
        assert(entry_views(sorted@) =~= before.insert(at as int, all[done]));
    }
    assert(all.take(all.len() as int) =~= all);
    sorted
}

/// The checksum of a directory tree: the digest, in hexadecimal, of what its
/// entries add, taken in the order of their paths. The order in which the
/// entries are handed over plays no part, as long as no two of them share a
/// path.
pub fn folder_checksum(entries: Vec<FolderEntry>) -> (checksum: String)
    ensures
        checksum@ == hex_text(sha256(manifest(by_path(entry_views(entries@))))),
{
    let sorted = sort_by_path(entries);
    let mut buffer: Vec<u8> = Vec::new();
    let mut i: usize = 0;
    while i < sorted.len()
        invariant
            i <= sorted.len(),
            buffer@ == manifest(entry_views(sorted@).take(i as int)),
        decreases sorted.len() - i,
    {
        append_entry(&mut buffer, &sorted[i]);
        proof {
            let views = entry_views(sorted@);
            assert(views.take(i + 1).drop_last() =~= views.take(i as int));
            assert(views.take(i + 1).last() == sorted@[i as int]@);
        }
        i += 1;
    }
    assert(entry_views(sorted@).take(i as int) =~= entry_views(sorted@));
    let digest = sha256_digest(buffer.as_slice());
    digest_text(digest.as_slice())
}

} // verus!
