//! Cache janitor: decides which files under the cache root are evicted.
//!
//! A file is evicted when it is a regular file, its name carries the
//! cache format's `json` extension, and its last access lies at least
//! `cache_duration` seconds in the past. A file whose access time cannot
//! be determined is conservatively treated as fresh. The caller walks
//! the cache root, reports each entry here, and deletes exactly the
//! paths this module selects. Chosen policy for cleanup failures: the
//! first deletion failure is propagated as fatal rather than logged and
//! skipped.

use vstd::prelude::*;
use vstd::string::*;
use crate::sbom::str_eq;

verus! {

/// Index of the last occurrence of `c` in `s`, or -1 when `s` holds
/// none.
pub open spec fn last_index_of(s: Seq<char>, c: char) -> int
    decreases s.len(),
{
    if s.len() == 0 {
        -1
    } else if s.last() == c {
        s.len() - 1
    } else {
        last_index_of(s.drop_last(), c)
    }
}

pub proof fn lemma_last_index_of(s: Seq<char>, c: char)
    ensures
        -1 <= last_index_of(s, c) < s.len(),
        last_index_of(s, c) == -1 ==> forall|j: int| 0 <= j < s.len() ==> s[j] != c,
        last_index_of(s, c) >= 0 ==> s[last_index_of(s, c)] == c,
        forall|j: int| last_index_of(s, c) < j < s.len() ==> s[j] != c,
    decreases s.len(),
{
    if s.len() == 0 {
    } else if s.last() == c {
    } else {
        lemma_last_index_of(s.drop_last(), c);
        assert(forall|j: int| 0 <= j < s.len() - 1 ==> s[j] == s.drop_last()[j]);
    }
}

/// The extension of a path: what follows the last dot of its file name,
/// unless that dot begins the file name. The file name is what follows
/// the last path separator.
pub open spec fn extension_of(p: Seq<char>) -> Option<Seq<char>> {
    let slash = last_index_of(p, '/');
    let dot = last_index_of(p, '.');
    if dot > slash + 1 {
        Some(p.subrange(dot + 1, p.len() as int))
    } else {
        None
    }
}

/// Whether a path names a file of the cache format.
pub open spec fn is_cache_file_name(p: Seq<char>) -> bool {
    extension_of(p) == Some("json"@)
}

/// Index of the last occurrence of `c`, or none.
fn last_char_index(s: &str, c: char) -> (r: Option<usize>)
    ensures
        match r {
            Some(i) => last_index_of(s@, c) == i as int && (i as int) < s@.len(),
            None => last_index_of(s@, c) == -1,
        },
{
    proof {
        lemma_last_index_of(s@, c);
    }
    let n = s.unicode_len();
    let mut i: usize = n;
    while i > 0
        invariant
            0 <= i <= n,
            n == s@.len(),
            -1 <= last_index_of(s@, c) < s@.len(),
            last_index_of(s@, c) == -1 ==> forall|j: int| 0 <= j < s@.len() ==> s@[j] != c,
            last_index_of(s@, c) >= 0 ==> s@[last_index_of(s@, c)] == c,
            forall|j: int| last_index_of(s@, c) < j < s@.len() ==> s@[j] != c,
            forall|j: int| i <= j < s@.len() ==> s@[j] != c,
        decreases i,
    {
        if s.get_char(i - 1) == c {
            assert(last_index_of(s@, c) == i - 1);
            return Some(i - 1);
        }
        i = i - 1;
    }
    None
}

/// Whether the path's file name carries the cache format's extension.
pub fn has_json_extension(path: &str) -> (r: bool)
    ensures
        r == is_cache_file_name(path@),
{
    let n = path.unicode_len();
    let slash: Option<usize> = last_char_index(path, '/');
    let dot: Option<usize> = last_char_index(path, '.');
    match dot {
        Some(d) => {
            assert(d < n);
            let in_file_name = match slash {
                Some(sl) => d > sl + 1,
                None => d > 0,
            };
            if in_file_name {
                let ext = path.substring_char(d + 1, n);
                str_eq(ext, "json")
            } else {
                false
            }
        },
        None => false,
    }
}

/// One entry met while walking the cache root: its path, whether it is a
/// regular file, and how many whole seconds ago it was last accessed
/// (none when the access time cannot be determined).
#[derive(Debug)]
pub struct FileMeta {
    pub path: String,
    pub is_file: bool,
    pub age_secs: Option<u64>,
}

/// Mathematical value of a `FileMeta`.
pub struct FileMetaView {
    pub path: Seq<char>,
    pub is_file: bool,
    pub age_secs: Option<u64>,
}

impl View for FileMeta {
    type V = FileMetaView;

    open spec fn view(&self) -> FileMetaView {
        FileMetaView {
            path: self.path@,
            is_file: self.is_file,
            age_secs: self.age_secs,
        }
    }
}

/// Whether the janitor evicts this entry: a regular file of the cache
/// format, last accessed at least `cache_duration` seconds ago. An entry
/// without an access time is kept.
pub open spec fn evicts(f: FileMetaView, cache_duration: u64) -> bool {
    &&& f.is_file
    &&& is_cache_file_name(f.path)
    &&& match f.age_secs {
        Some(age) => age >= cache_duration,
        None => false,
    }
}

/// Decides whether one entry is evicted.
pub fn should_evict(f: &FileMeta, cache_duration: u64) -> (r: bool)
    ensures
        r == evicts(f@, cache_duration),
{
    if !f.is_file {
        return false;
    }
    if !has_json_extension(f.path.as_str()) {
        return false;
    }
    match f.age_secs {
        Some(age) => age >= cache_duration,
        None => false,
    }
}

/// The paths of the entries that the janitor evicts, in walk order.
pub open spec fn eviction_paths(files: Seq<FileMetaView>, cache_duration: u64) -> Seq<Seq<char>>
    decreases files.len(),
{
    if files.len() == 0 {
        Seq::<Seq<char>>::empty()
    } else {
        let rest = eviction_paths(files.drop_last(), cache_duration);
        if evicts(files.last(), cache_duration) {
            rest.push(files.last().path)
        } else {
            rest
        }
    }
}

/// Selects, out of everything met while walking the cache root, the
/// paths of the stale cache files to delete.
pub fn select_evictions(files: &Vec<FileMeta>, cache_duration: u64) -> (r: Vec<String>)
    ensures
        r.deep_view() == eviction_paths(files@.map_values(|f: FileMeta| f@), cache_duration),
{
    let ghost all = files@.map_values(|f: FileMeta| f@);
    let mut out: Vec<String> = Vec::new();
    let mut i: usize = 0;
    while i < files.len()
        invariant
            0 <= i <= files@.len(),
            all == files@.map_values(|f: FileMeta| f@),
            out.deep_view() == eviction_paths(all.take(i as int), cache_duration),
        decreases files@.len() - i,
    {
        proof {
            assert(all.take(i as int + 1).drop_last() =~= all.take(i as int));
            assert(all.take(i as int + 1).last() == all[i as int]);
        }
        if should_evict(&files[i], cache_duration) {
            let ghost before = out.deep_view();
            out.push(files[i].path.clone());
            proof {
                assert(out.deep_view() =~= before.push(all[i as int].path));
            }
        }
        i = i + 1;
    }
    proof {
        assert(all.take(files@.len() as int) =~= all);
    }
    out
}

} // verus!
