use vstd::prelude::*;
use vstd::slice::slice_to_vec;
use crate::paths::{blob_path_spec, resolve_blob_path};

verus! {

/// The contents of a storage directory, read off a sequence of
/// (path, bytes) entries: later entries shadow earlier ones, though the
/// store's invariant keeps paths distinct.
pub open spec fn entries_map(s: Seq<(String, Vec<u8>)>) -> Map<Seq<char>, Seq<u8>>
    decreases s.len(),
{
    if s.len() == 0 {
        Map::empty()
    } else {
        entries_map(s.drop_last()).insert(s.last().0@, s.last().1@)
    }
}

/// No two entries are stored under the same path.
pub open spec fn distinct_paths(s: Seq<(String, Vec<u8>)>) -> bool {
    forall|i: int, j: int| 0 <= i < j < s.len() ==> s[i].0@ != s[j].0@
}

proof fn lemma_entries_map_contains(s: Seq<(String, Vec<u8>)>, p: Seq<char>)
    ensures
        entries_map(s).contains_key(p) <==> exists|i: int| 0 <= i < s.len() && s[i].0@ == p,
    decreases s.len(),
{
    if s.len() > 0 {
        lemma_entries_map_contains(s.drop_last(), p);
        if s.last().0@ == p {
            assert(s[s.len() - 1].0@ == p);
        } else {
            if entries_map(s).contains_key(p) {
                let i = choose|i: int| 0 <= i < s.drop_last().len() && s.drop_last()[i].0@ == p;
                assert(s[i].0@ == p);
            }
            if exists|i: int| 0 <= i < s.len() && s[i].0@ == p {
                let i = choose|i: int| 0 <= i < s.len() && s[i].0@ == p;
                assert(s.drop_last()[i].0@ == p);
            }
        }
    }
}

proof fn lemma_entries_map_value(s: Seq<(String, Vec<u8>)>, i: int)
    requires
        distinct_paths(s),
        0 <= i < s.len(),
    ensures
        entries_map(s).contains_key(s[i].0@),
        entries_map(s)[s[i].0@] == s[i].1@,
    decreases s.len(),
{
    if i < s.len() - 1 {
        assert(distinct_paths(s.drop_last())) by {
            assert(forall|x: int, y: int|
                0 <= x < y < s.drop_last().len() ==> s.drop_last()[x].0@ != s.drop_last()[y].0@);
        }
        lemma_entries_map_value(s.drop_last(), i);
        assert(s.last().0@ != s[i].0@);
    }
}

proof fn lemma_entries_map_push(s: Seq<(String, Vec<u8>)>, e: (String, Vec<u8>))
    ensures
        entries_map(s.push(e)) == entries_map(s).insert(e.0@, e.1@),
{
    assert(s.push(e).drop_last() =~= s);
    assert(s.push(e).last() == e);
}

proof fn lemma_entries_map_remove(s: Seq<(String, Vec<u8>)>, i: int)
    requires
        distinct_paths(s),
        0 <= i < s.len(),
    ensures
        entries_map(s.remove(i)) == entries_map(s).remove(s[i].0@),
    decreases s.len(),
{
    let k = s[i].0@;
    if i == s.len() - 1 {
        assert(s.remove(i) =~= s.drop_last());
        lemma_entries_map_contains(s.drop_last(), k);
        assert(forall|j: int| 0 <= j < s.drop_last().len() ==> s.drop_last()[j].0@ != k);
        assert(!entries_map(s.drop_last()).contains_key(k));
        assert(entries_map(s.drop_last()) =~= entries_map(s).remove(k));
    } else {
        assert(distinct_paths(s.drop_last())) by {
            assert(forall|x: int, y: int|
                0 <= x < y < s.drop_last().len() ==> s.drop_last()[x].0@ != s.drop_last()[y].0@);
        }
        lemma_entries_map_remove(s.drop_last(), i);
        assert(s.remove(i).drop_last() =~= s.drop_last().remove(i));
        assert(s.remove(i).last() == s.last());
        assert(s.last().0@ != k);
        assert(entries_map(s.remove(i))
            == entries_map(s.drop_last().remove(i)).insert(s.last().0@, s.last().1@));
        assert(entries_map(s.drop_last()).remove(k).insert(s.last().0@, s.last().1@)
            =~= entries_map(s.drop_last()).insert(s.last().0@, s.last().1@).remove(k));
    }
}

/// The blob store under one storage root: each blob lives under the path
/// derived from its key, a write replaces the content in full, a read
/// returns the full current content, a delete removes the blob. This is the
/// model the on-disk directory realizes; the host performs the matching
/// filesystem actions.
pub struct BlobStore {
    root: String,
    entries: Vec<(String, Vec<u8>)>,
}

impl View for BlobStore {
    type V = Map<Seq<char>, Seq<u8>>;

    closed spec fn view(&self) -> Map<Seq<char>, Seq<u8>> {
        entries_map(self.entries@)
    }
}

impl BlobStore {
    /// No two blobs are held under the same derived path.
    pub closed spec fn inv(self) -> bool {
        distinct_paths(self.entries@)
    }

    /// The storage root all paths are resolved under.
    pub closed spec fn root_spec(self) -> Seq<char> {
        self.root@
    }

    /// An empty store under the given root.
    pub fn new(root: String) -> (s: Self)
        ensures
            s.inv(),
            s@ == Map::<Seq<char>, Seq<u8>>::empty(),
            s.root_spec() == root@,
    {
        let s = BlobStore { root, entries: Vec::new() };
        proof {
            assert(s.entries@ =~= Seq::<(String, Vec<u8>)>::empty());
        }
        s
    }

    fn find(&self, p: &String) -> (r: Option<usize>)
        ensures
            match r {
                Some(i) => i < self.entries@.len() && self.entries@[i as int].0@ == p@,
                None => forall|j: int| 0 <= j < self.entries@.len() ==> self.entries@[j].0@ != p@,
            },
    {
        let mut i: usize = 0;
        while i < self.entries.len()
            invariant
                i <= self.entries@.len(),
                forall|j: int| 0 <= j < i ==> self.entries@[j].0@ != p@,
            decreases self.entries@.len() - i,
        {
            if self.entries[i].0.eq(p) {
                return Some(i);
            }
            i = i + 1;
        }
        None
    }

    /// The path a key's blob is stored under, derived without touching any
    /// entry.
    pub fn resolve_path(&self, file_id: &str, file_name: &str) -> (r: String)
        ensures
            r@ == blob_path_spec(self.root_spec(), file_id@, file_name@),
    {
        resolve_blob_path(self.root.as_str(), file_id, file_name)
    }

    /// Stores the bytes under the key's derived path, replacing in full
    /// whatever was stored there, and returns that path.
    pub fn write(&mut self, file_id: &str, file_name: &str, bytes: Vec<u8>) -> (path: String)
        requires
            old(self).inv(),
        ensures
            final(self).inv(),
            final(self).root_spec() == old(self).root_spec(),
            path@ == blob_path_spec(old(self).root_spec(), file_id@, file_name@),
            final(self)@ == old(self)@.insert(path@, bytes@),
    {
        let path = resolve_blob_path(self.root.as_str(), file_id, file_name);
        let ghost p = path@;
        let ghost s0 = self.entries@;
        match self.find(&path) {
            Some(i) => {
                self.entries.remove(i);
                proof {
                    lemma_entries_map_remove(s0, i as int);
                    assert(forall|j: int| 0 <= j < s0.len() && j != i ==> s0[j].0@ != p);
                    assert(forall|j: int|
                        0 <= j < self.entries@.len() ==> self.entries@[j].0@ != p);
                    assert(distinct_paths(self.entries@));
                }
            },
            None => {},
        }
        let ghost s1 = self.entries@;
        self.entries.push((path.clone(), bytes));
        proof {
            assert(forall|j: int| 0 <= j < s1.len() ==> s1[j].0@ != p);
            lemma_entries_map_push(s1, (path, bytes));
            assert(distinct_paths(self.entries@));
            assert(entries_map(s1) =~= entries_map(s0).remove(p)
                || entries_map(s1) == entries_map(s0));
            assert(entries_map(s1).insert(p, bytes@) =~= entries_map(s0).insert(p, bytes@));
        }
        path
    }

    /// Returns the full current content of the key's blob, and an error
    /// exactly when no blob is stored under the key's derived path.
    pub fn read(&self, file_id: &str, file_name: &str) -> (r: Result<Vec<u8>, String>)
        requires
            self.inv(),
        ensures
            r is Ok <==> self@.contains_key(blob_path_spec(self.root_spec(), file_id@, file_name@)),
            r matches Ok(b) ==> b@ == self@[blob_path_spec(self.root_spec(), file_id@, file_name@)],
    {
        let path = resolve_blob_path(self.root.as_str(), file_id, file_name);
        match self.find(&path) {
            Some(i) => {
                proof {
                    lemma_entries_map_value(self.entries@, i as int);
                }
                Ok(slice_to_vec(self.entries[i].1.as_slice()))
            },
            None => {
                proof {
                    lemma_entries_map_contains(self.entries@, path@);
                }
                Err("no blob is stored under the resolved path".to_owned())
            },
        }
    }

    /// Removes the key's blob, and fails exactly when no blob is stored
    /// under the key's derived path.
    pub fn delete(&mut self, file_id: &str, file_name: &str) -> (r: Result<(), String>)
        requires
            old(self).inv(),
        ensures
            final(self).inv(),
            final(self).root_spec() == old(self).root_spec(),
            r is Ok <==> old(self)@.contains_key(
                blob_path_spec(old(self).root_spec(), file_id@, file_name@)),
            final(self)@ == old(self)@.remove(
                blob_path_spec(old(self).root_spec(), file_id@, file_name@)),
    {
        let path = resolve_blob_path(self.root.as_str(), file_id, file_name);
        let ghost p = path@;
        let ghost s0 = self.entries@;
        match self.find(&path) {
            Some(i) => {
                proof {
                    lemma_entries_map_value(s0, i as int);
                    lemma_entries_map_remove(s0, i as int);
                }
                self.entries.remove(i);
                proof {
                    assert(forall|x: int, y: int|
                        0 <= x < y < self.entries@.len()
                            ==> self.entries@[x].0@ != self.entries@[y].0@);
                }
                Ok(())
            },
            None => {
                proof {
                    lemma_entries_map_contains(s0, p);
                    assert(!entries_map(s0).contains_key(p));
                    assert(entries_map(s0) =~= entries_map(s0).remove(p));
                }
                Err("no blob is stored under the resolved path".to_owned())
            },
        }
    }
}

/// Writing a blob and then reading the same key back yields exactly the
/// bytes written: both operations resolve the key to the same path, and the
/// write stored the bytes in full under that path.
pub proof fn lemma_write_then_read(
    dir: Map<Seq<char>, Seq<u8>>,
    root: Seq<char>,
    file_id: Seq<char>,
    file_name: Seq<char>,
    bytes: Seq<u8>,
)
    ensures
        dir.insert(blob_path_spec(root, file_id, file_name), bytes).contains_key(
            blob_path_spec(root, file_id, file_name)),
        dir.insert(blob_path_spec(root, file_id, file_name), bytes)[blob_path_spec(
            root, file_id, file_name)] == bytes,
{
}

/// A key never written holds no blob: in a fresh store no path has content,
/// so a read of any key fails, while its path still resolves.
pub proof fn lemma_read_never_written(root: Seq<char>, file_id: Seq<char>, file_name: Seq<char>)
    ensures
        !Map::<Seq<char>, Seq<u8>>::empty().contains_key(
            blob_path_spec(root, file_id, file_name)),
{
}

/// Deleting a key right after writing it leaves no blob under the key, so a
/// subsequent read of the same key fails.
pub proof fn lemma_delete_after_write(
    dir: Map<Seq<char>, Seq<u8>>,
    root: Seq<char>,
    file_id: Seq<char>,
    file_name: Seq<char>,
    bytes: Seq<u8>,
)
    ensures
        !dir.insert(blob_path_spec(root, file_id, file_name), bytes).remove(
            blob_path_spec(root, file_id, file_name)).contains_key(
            blob_path_spec(root, file_id, file_name)),
{
}

} // verus!

