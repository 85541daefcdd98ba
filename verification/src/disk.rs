//! A model of the filesystem: which files exist, what they hold, and how each
//! request changes them when nothing goes wrong but what the request itself
//! rules out. [`Disk`] is the model, [`MemDisk`] a disk in memory that behaves
//! as the model says.

use vstd::prelude::*;
use crate::request::{FsOutcome, FsRequest, FsRequestView};

verus! {

/// The files of a filesystem, each with its contents, by path.
pub struct Disk {
    pub files: Map<Seq<char>, Seq<u8>>,
}

impl Disk {
    /// The disk without any file.
    pub open spec fn empty() -> Disk {
        Disk { files: Map::empty() }
    }

    /// Whether a file exists at `path`.
    pub open spec fn has(self, path: Seq<char>) -> bool {
        self.files.contains_key(path)
    }

    /// What the file at `path` holds.
    pub open spec fn contents(self, path: Seq<char>) -> Seq<u8>
        recommends
            self.has(path),
    {
        self.files[path]
    }

    /// The disk after `request`, and the answer to it.
    ///
    /// An exclusive create makes an empty file, unless its path is taken. An
    /// append adds to the end of a file that exists. A rename moves a file that
    /// exists onto its new path, replacing what was there, and the old path is
    /// gone; onto its own path it changes nothing. A request that fails leaves
    /// the disk as it was.
    pub open spec fn perform(self, request: FsRequestView) -> (Disk, FsOutcome) {
        match request {
            FsRequestView::CreateExclusive { path } => if self.has(path) {
                (self, FsOutcome::AlreadyExists)
            } else {
                (Disk { files: self.files.insert(path, Seq::empty()) }, FsOutcome::Done)
            },
            FsRequestView::Append { path, bytes } => if self.has(path) {
                (Disk { files: self.files.insert(path, self.files[path] + bytes) }, FsOutcome::Done)
            } else {
                (self, FsOutcome::Failed)
            },
            FsRequestView::Rename { from, to } => if self.has(from) {
                (
                    Disk { files: self.files.remove(from).insert(to, self.files[from]) },
                    FsOutcome::Done,
                )
            } else {
                (self, FsOutcome::Failed)
            },
        }
    }
}

/// Whether entry `i` of `entries` is the file at `path`.
spec fn entry_at(entries: Seq<(String, Vec<u8>)>, path: Seq<char>, i: int) -> bool {
    0 <= i < entries.len() && entries[i].0@ == path
}

/// Whether no two of `entries` share a path.
spec fn distinct_paths(entries: Seq<(String, Vec<u8>)>) -> bool {
    forall|i: int, j: int|
        0 <= i < j < entries.len() ==> (#[trigger] entries[i]).0@ != (#[trigger] entries[j]).0@
}

/// The files that `entries` list.
spec fn files_of(entries: Seq<(String, Vec<u8>)>) -> Map<Seq<char>, Seq<u8>> {
    Map::new(
        |path: Seq<char>| exists|i: int| entry_at(entries, path, i),
        |path: Seq<char>| entries[choose|i: int| entry_at(entries, path, i)].1@,
    )
}

/// Entry `i` is the file at its path, with its contents.
proof fn lemma_entry_is_file(entries: Seq<(String, Vec<u8>)>, i: int)
    requires
        distinct_paths(entries),
        0 <= i < entries.len(),
    ensures
        files_of(entries).contains_key(entries[i].0@),
        files_of(entries)[entries[i].0@] == entries[i].1@,
{
    let path = entries[i].0@;
    assert(entry_at(entries, path, i));
    let k = choose|k: int| entry_at(entries, path, k);
    assert(k == i) by {
        if k < i {
            assert(entries[k].0@ != entries[i].0@);
        }
    }
}

/// One more entry, at a path that was free, is one more file.
proof fn lemma_push_is_insert(entries: Seq<(String, Vec<u8>)>, entry: (String, Vec<u8>))
    requires
        distinct_paths(entries),
        !files_of(entries).contains_key(entry.0@),
    ensures
        distinct_paths(entries.push(entry)),
        files_of(entries.push(entry)) == files_of(entries).insert(entry.0@, entry.1@),
{
    let grown = entries.push(entry);
    assert forall|i: int, j: int| 0 <= i < j < grown.len() implies (#[trigger] grown[i]).0@ != (
    #[trigger] grown[j]).0@ by {
        if j == entries.len() {
            assert(entry_at(entries, entries[i].0@, i));
        }
    }
    assert forall|path: Seq<char>|
        files_of(grown).contains_key(path) <==> #[trigger] files_of(entries).insert(
            entry.0@,
            entry.1@,
        ).contains_key(path) by {
        if files_of(grown).contains_key(path) {
            let i = choose|i: int| entry_at(grown, path, i);
            if i < entries.len() {
                assert(entry_at(entries, path, i));
            }
        }
        if files_of(entries).contains_key(path) {
            let i = choose|i: int| entry_at(entries, path, i);
            assert(entry_at(grown, path, i));
        }
        if path == entry.0@ {
            assert(entry_at(grown, path, entries.len() as int));
        }
    }
    assert forall|path: Seq<char>| #[trigger] files_of(grown).contains_key(path) implies files_of(
        grown,
    )[path] == files_of(entries).insert(entry.0@, entry.1@)[path] by {
        let i = choose|i: int| entry_at(grown, path, i);
        lemma_entry_is_file(grown, i);
        if i < entries.len() {
            lemma_entry_is_file(entries, i);
        }
    }
}

/// One entry less is one file less.
proof fn lemma_remove_is_remove(entries: Seq<(String, Vec<u8>)>, i: int)
    requires
        distinct_paths(entries),
        0 <= i < entries.len(),
    ensures
        distinct_paths(entries.remove(i)),
        files_of(entries.remove(i)) == files_of(entries).remove(entries[i].0@),
{
    let rest = entries.remove(i);
    let gone = entries[i].0@;
    assert forall|path: Seq<char>|
        files_of(rest).contains_key(path) <==> #[trigger] files_of(entries).remove(
            gone,
        ).contains_key(path) by {
        if files_of(rest).contains_key(path) {
            let k = choose|k: int| entry_at(rest, path, k);
            let k0 = if k < i { k } else { k + 1 };
            assert(entry_at(entries, path, k0));
        }
        if files_of(entries).contains_key(path) && path != gone {
            let k0 = choose|k0: int| entry_at(entries, path, k0);
            let k = if k0 < i { k0 } else { k0 - 1 };
            assert(entry_at(rest, path, k));
        }
    }
    assert forall|path: Seq<char>| #[trigger] files_of(rest).contains_key(path) implies files_of(
        rest,
    )[path] == files_of(entries).remove(gone)[path] by {
        let k = choose|k: int| entry_at(rest, path, k);
        let k0 = if k < i { k } else { k + 1 };
        lemma_entry_is_file(rest, k);
        lemma_entry_is_file(entries, k0);
    }
}

/// Where the file at `path` is listed among `entries`, if it is.
fn position(entries: &Vec<(String, Vec<u8>)>, path: &String) -> (r: Option<usize>)
    ensures
        match r {
            Some(i) => entry_at(entries@, path@, i as int),
            None => !files_of(entries@).contains_key(path@),
        },
{
    let mut i: usize = 0;
    while i < entries.len()
        invariant
            i <= entries@.len(),
            forall|k: int| 0 <= k < i ==> !entry_at(entries@, path@, k),
        decreases entries@.len() - i,
    {
        if entries[i].0 == *path {
            return Some(i);
        }
        i += 1;
    }
    None
}

/// A disk in memory. It answers each request as [`Disk::perform`] says, so a lock
/// can be driven against it where no real file should be touched.
pub struct MemDisk {
    entries: Vec<(String, Vec<u8>)>,
}

impl View for MemDisk {
    type V = Disk;

    closed spec fn view(&self) -> Disk {
        Disk { files: files_of(self.entries@) }
    }
}

impl MemDisk {
    /// No path is listed twice.
    #[verifier::type_invariant]
    spec fn listed_once(self) -> bool {
        distinct_paths(self.entries@)
    }

    /// A disk without any file.
    pub fn new() -> (r: MemDisk)
        ensures
            r@ == Disk::empty(),
    {
        let r = MemDisk { entries: Vec::new() };
        assert(r@.files =~= Map::empty());
        r
    }

    /// Whether a file exists at `path`.
    pub fn has(&self, path: &str) -> (r: bool)
        ensures
            r == self@.has(path@),
    {
        let key = path.to_owned();
        match position(&self.entries, &key) {
            Some(i) => {
                proof {
                    use_type_invariant(self);
                    lemma_entry_is_file(self.entries@, i as int);
                }
                true
            },
            None => false,
        }
    }

    /// What the file at `path` holds, if there is one.
    pub fn read(&self, path: &str) -> (r: Option<&Vec<u8>>)
        ensures
            match r {
                Some(bytes) => self@.has(path@) && bytes@ == self@.contents(path@),
                None => !self@.has(path@),
            },
    {
        let key = path.to_owned();
        match position(&self.entries, &key) {
            Some(i) => {
                proof {
                    use_type_invariant(self);
                    lemma_entry_is_file(self.entries@, i as int);
                }
                Some(&self.entries[i].1)
            },
            None => None,
        }
    }

    /// Carries `request` out and answers it, as the model says.
    pub fn perform(&mut self, request: &FsRequest) -> (outcome: FsOutcome)
        ensures
            (final(self)@, outcome) == old(self)@.perform(request@),
    {
        proof {
            use_type_invariant(&*self);
        }
        let mut entries: Vec<(String, Vec<u8>)> = Vec::new();
        core::mem::swap(&mut self.entries, &mut entries);
        let ghost before = entries@;
        let outcome = match request {
            FsRequest::CreateExclusive { path } => {
                match position(&entries, path) {
                    Some(i) => {
                        proof {
                            lemma_entry_is_file(before, i as int);
                        }
                        FsOutcome::AlreadyExists
                    },
                    None => {
                        let entry = (path.clone(), Vec::new());
                        proof {
                            lemma_push_is_insert(before, entry);
                        }
                        entries.push(entry);
                        FsOutcome::Done
                    },
                }
            },
            FsRequest::Append { path, bytes } => {
                match position(&entries, path) {
                    Some(i) => {
                        proof {
                            lemma_entry_is_file(before, i as int);
                            lemma_remove_is_remove(before, i as int);
                        }
                        let (name, mut contents) = entries.remove(i);
                        contents.extend_from_slice(bytes.as_slice());
                        assert(contents@ =~= files_of(before)[path@] + bytes@);
                        let entry = (name, contents);
                        proof {
                            lemma_push_is_insert(entries@, entry);
                            assert(files_of(before).remove(path@).insert(path@, contents@)
                                =~= files_of(before).insert(path@, contents@));
                        }
                        entries.push(entry);
                        FsOutcome::Done
                    },
                    None => FsOutcome::Failed,
                }
            },
            FsRequest::Rename { from, to } => {
                match position(&entries, from) {
                    Some(i) => {
                        proof {
                            lemma_entry_is_file(before, i as int);
                            lemma_remove_is_remove(before, i as int);
                        }
                        let (_, contents) = entries.remove(i);
                        let ghost moved = entries@;
                        if let Some(j) = position(&entries, to) {
                            proof {
                                lemma_entry_is_file(moved, j as int);
                                lemma_remove_is_remove(moved, j as int);
                            }
                            let _ = entries.remove(j);
                        }
                        let entry = (to.clone(), contents);
                        proof {
                            lemma_push_is_insert(entries@, entry);
                            assert(files_of(moved).remove(to@).insert(to@, contents@)
                                =~= files_of(moved).insert(to@, contents@));
                        }
                        entries.push(entry);
                        FsOutcome::Done
                    },
                    None => FsOutcome::Failed,
                }
            },
        };
        self.entries = entries;
        outcome
    }
}

} // verus!