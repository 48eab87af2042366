//! Model of the file-access shim.
//!
//! The backend's file commands map a path to a content blob with plain
//! file-system semantics: a save overwrites whatever the path held, a
//! create is a save of empty content, an open returns the content last
//! saved under the path.  The store records every write and means the map
//! in which the latest write to each path wins; each command carries an
//! exact contract over that map.  The command layer that touches the real
//! file system mirrors these operations path for path.

use vstd::prelude::*;

verus! {

/// Error of an open on a path with no stored content.
#[derive(Clone, Copy, Debug, PartialEq, Eq, Structural)]
pub enum FsError {
    /// The path holds no content.
    NotFound,
}

impl FsError {
    /// A human-readable message for the error.
    pub fn message(&self) -> (r: &'static str)
        ensures
            r@ == "no such file"@,
    {
        "no such file"
    }
}

/// The state of the files after a save: the path now holds the content.
pub open spec fn fs_save(
    m: Map<Seq<char>, Seq<char>>,
    p: Seq<char>,
    c: Seq<char>,
) -> Map<Seq<char>, Seq<char>> {
    m.insert(p, c)
}

/// The state of the files after a create: the path now holds empty
/// content, overwriting any existing file.
pub open spec fn fs_create(m: Map<Seq<char>, Seq<char>>, p: Seq<char>) -> Map<
    Seq<char>,
    Seq<char>,
> {
    m.insert(p, Seq::empty())
}

/// What an open finds: the content under the path, if any.
pub open spec fn fs_open(m: Map<Seq<char>, Seq<char>>, p: Seq<char>) -> Option<Seq<char>> {
    if m.contains_key(p) {
        Some(m[p])
    } else {
        None
    }
}

/// The view of each recorded write.
spec fn entry_views(s: Seq<(String, String)>) -> Seq<(Seq<char>, Seq<char>)> {
    s.map_values(|e: (String, String)| (e.0@, e.1@))
}

/// The map that a sequence of path/content writes denotes; a later write
/// to a path wins over an earlier one.
spec fn path_map(s: Seq<(Seq<char>, Seq<char>)>) -> Map<Seq<char>, Seq<char>>
    decreases s.len(),
{
    if s.len() == 0 {
        Map::empty()
    } else {
        path_map(s.drop_last()).insert(s.last().0, s.last().1)
    }
}

/// Recording one more write inserts its path and content into the map.
proof fn lemma_path_map_push(s: Seq<(Seq<char>, Seq<char>)>, e: (Seq<char>, Seq<char>))
    ensures
        path_map(s.push(e)) == path_map(s).insert(e.0, e.1),
{
    assert(s.push(e).drop_last() =~= s);
    assert(s.push(e).last() == e);
}

/// A write that no later write overrides decides the map at its path.
proof fn lemma_path_map_last_wins(s: Seq<(Seq<char>, Seq<char>)>, i: int, p: Seq<char>)
    requires
        0 <= i < s.len(),
        s[i].0 == p,
        forall|j: int| i < j < s.len() ==> s[j].0 != p,
    ensures
        path_map(s).contains_key(p),
        path_map(s)[p] == s[i].1,
    decreases s.len(),
{
    if i == s.len() - 1 {
    } else {
        assert(s.drop_last()[i] == s[i]);
        assert(forall|j: int| i < j < s.drop_last().len() ==> s.drop_last()[j].0 != p);
        lemma_path_map_last_wins(s.drop_last(), i, p);
        assert(s.last().0 != p);
    }
}

/// A path that no write mentions is absent from the map.
proof fn lemma_path_map_absent(s: Seq<(Seq<char>, Seq<char>)>, p: Seq<char>)
    requires
        forall|j: int| 0 <= j < s.len() ==> s[j].0 != p,
    ensures
        !path_map(s).contains_key(p),
    decreases s.len(),
{
    if s.len() > 0 {
        assert(forall|j: int| 0 <= j < s.drop_last().len() ==> s.drop_last()[j].0 != p);
        lemma_path_map_absent(s.drop_last(), p);
    }
}

/// Recording one more write inserts its views into the store's map.
proof fn lemma_store_push(s: Seq<(String, String)>, e: (String, String))
    ensures
        path_map(entry_views(s.push(e))) == path_map(entry_views(s)).insert(e.0@, e.1@),
{
    assert(entry_views(s.push(e)) =~= entry_views(s).push((e.0@, e.1@)));
    lemma_path_map_push(entry_views(s), (e.0@, e.1@));
}

/// The file contents the backend has recorded, addressed by path.
pub struct FileStore {
    entries: Vec<(String, String)>,
}

impl View for FileStore {
    type V = Map<Seq<char>, Seq<char>>;

    closed spec fn view(&self) -> Map<Seq<char>, Seq<char>> {
        path_map(entry_views(self.entries@))
    }
}

impl FileStore {
    /// A store with no file saved yet.
    pub fn new() -> (s: Self)
        ensures
            s@ == Map::<Seq<char>, Seq<char>>::empty(),
    {
        let entries: Vec<(String, String)> = Vec::new();
        proof {
            assert(entry_views(entries@) =~= Seq::<(Seq<char>, Seq<char>)>::empty());
        }
        FileStore { entries }
    }

    /// Return the content under the path, or an error if the path holds
    /// none.
    pub fn open_file(&self, path: &String) -> (r: Result<String, FsError>)
        ensures
            match r {
                Ok(content) => fs_open(self@, path@) == Some(content@),
                Err(FsError::NotFound) => fs_open(self@, path@) is None,
            },
    {
        let n = self.entries.len();
        let mut i = n;
        while i > 0
            invariant
                i <= n,
                n == self.entries.len(),
                forall|j: int| i <= j < n ==> entry_views(self.entries@)[j].0 != path@,
            decreases i,
        {
            i = i - 1;
            if self.entries[i].0 == *path {
                proof {
                    assert(entry_views(self.entries@)[i as int].0 == path@);
                    lemma_path_map_last_wins(entry_views(self.entries@), i as int, path@);
                }
                return Ok(self.entries[i].1.clone());
            }
            proof {
                assert(entry_views(self.entries@)[i as int].0 == self.entries@[i as int].0@);
            }
        }
        proof {
            lemma_path_map_absent(entry_views(self.entries@), path@);
        }
        Err(FsError::NotFound)
    }

    /// Record the content under the path, overwriting any earlier save.
    pub fn save_file(&mut self, path: String, content: String)
        ensures
            final(self)@ == fs_save(old(self)@, path@, content@),
    {
        proof {
            lemma_store_push(self.entries@, (path, content));
        }
        self.entries.push((path, content));
    }

    /// Record empty content under the path, overwriting any existing file.
    pub fn create_file(&mut self, path: String)
        ensures
            final(self)@ == fs_create(old(self)@, path@),
    {
        self.save_file(path, String::new());
    }
}

/// Creating a file and then opening its path yields the empty content.
pub proof fn lemma_create_then_open(m: Map<Seq<char>, Seq<char>>, p: Seq<char>)
    ensures
        fs_open(fs_create(m, p), p) == Some(Seq::<char>::empty()),
{
}

/// Saving content and then opening its path yields exactly that content.
pub proof fn lemma_save_then_open(m: Map<Seq<char>, Seq<char>>, p: Seq<char>, c: Seq<char>)
    ensures
        fs_open(fs_save(m, p, c), p) == Some(c),
{
}

/// Saving the same content under the same path twice leaves the same
/// files as saving it once.
pub proof fn lemma_save_idempotent(m: Map<Seq<char>, Seq<char>>, p: Seq<char>, c: Seq<char>)
    ensures
        fs_save(fs_save(m, p, c), p, c) == fs_save(m, p, c),
{
    assert(fs_save(fs_save(m, p, c), p, c) =~= fs_save(m, p, c));
}

/// A save to one path leaves what an open finds at every other path
/// unchanged.
pub proof fn lemma_save_preserves_others(
    m: Map<Seq<char>, Seq<char>>,
    p: Seq<char>,
    q: Seq<char>,
    c: Seq<char>,
)
    requires
        p != q,
    ensures
        fs_open(fs_save(m, p, c), q) == fs_open(m, q),
{
}

} // verus!
