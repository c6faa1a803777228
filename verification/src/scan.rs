//! The scan engine: partitions the entries of a directory listing into
//! groups, one per regular-expression filter, by a chosen path projection.
//!
//! The engine works on a listing of project-relative paths (forward-slash
//! separated) that the caller obtained by walking the project root; the
//! walk itself is I/O and lives outside this library. Depth bounding,
//! projection and filtering are all decided here, so the whole grouping is
//! a function of the listing and the filters.

use vstd::prelude::*;

use crate::pattern::PathMatcher;
use crate::pattern::regex_accepts;
use crate::strutil::push_char;

verus! {

/// One entry of a directory listing: a project-relative path (with `/`
/// separators and no leading `/`) and whether it is a regular file.
pub struct ScanEntry {
    pub rel_path: String,
    pub is_file: bool,
}

/// The string fragment of a path that a filter is matched against.
#[derive(Clone, Copy)]
pub enum PathProjection {
    /// The part after the last `/` (the whole path if there is none).
    FileName,
    /// The part of the file name after its last `.`, where that dot is not
    /// the leading character; nothing for names without such a dot.
    Extension,
}

/// How many `/` separators `path` holds. A path of depth one (a direct
/// child of the root) holds none.
pub open spec fn spec_slash_count(path: Seq<char>) -> nat
    decreases path.len(),
{
    if path.len() == 0 {
        0
    } else {
        spec_slash_count(path.drop_last()) + if path.last() == '/' {
            1nat
        } else {
            0nat
        }
    }
}

/// The longest `/`-free suffix of `path`: the file name, or empty for
/// paths that end in `/`.
pub open spec fn spec_file_name(path: Seq<char>) -> Seq<char>
    decreases path.len(),
{
    if path.len() == 0 {
        path
    } else if path.last() == '/' {
        Seq::empty()
    } else {
        spec_file_name(path.drop_last()).push(path.last())
    }
}

/// The extension of a file name `name`: the part after the last `.`, where
/// that dot is neither absent nor the leading character.
pub open spec fn spec_extension(name: Seq<char>) -> Option<Seq<char>>
    decreases name.len(),
{
    if name.len() <= 1 {
        Option::None
    } else if name.last() == '.' {
        Option::Some(Seq::empty())
    } else {
        match spec_extension(name.drop_last()) {
            Option::Some(e) => Option::Some(e.push(name.last())),
            Option::None => Option::None,
        }
    }
}

/// The fragment of `path` that `projection` selects, if it is defined for
/// this path.
pub open spec fn spec_project(path: Seq<char>, projection: PathProjection) -> Option<Seq<char>> {
    match projection {
        PathProjection::FileName => if spec_file_name(path).len() > 0 {
            Option::Some(spec_file_name(path))
        } else {
            Option::None
        },
        PathProjection::Extension => spec_extension(spec_file_name(path)),
    }
}

/// Whether a listing entry belongs to the group of a filter with pattern
/// `pattern`: it must be a regular file, lie within the depth bound, have
/// a defined projection, and that projection must match the filter.
pub open spec fn entry_selected(
    e: ScanEntry,
    recursive: bool,
    pattern: Seq<char>,
    projection: PathProjection,
) -> bool {
    &&& e.is_file
    &&& (recursive || spec_slash_count(e.rel_path@) == 0)
    &&& match spec_project(e.rel_path@, projection) {
        Option::Some(frag) => regex_accepts(pattern, frag),
        Option::None => false,
    }
}

/// The group one filter produces: the selected entries' paths, in listing
/// order.
pub open spec fn spec_scan_group(
    entries: Seq<ScanEntry>,
    recursive: bool,
    pattern: Seq<char>,
    projection: PathProjection,
) -> Seq<Seq<char>>
    decreases entries.len(),
{
    if entries.len() == 0 {
        Seq::empty()
    } else {
        let prefix = spec_scan_group(entries.drop_last(), recursive, pattern, projection);
        if entry_selected(entries.last(), recursive, pattern, projection) {
            prefix.push(entries.last().rel_path@)
        } else {
            prefix
        }
    }
}

/// How many `/` separators `path` holds.
pub fn slash_count(path: &str) -> (n: usize)
    ensures
        n == spec_slash_count(path@),
{
    let len = path.unicode_len();
    let mut n: usize = 0;
    let mut i: usize = 0;
    while i < len
        invariant
            i <= len,
            len == path@.len(),
            n <= i,
            n == spec_slash_count(path@.take(i as int)),
        decreases len - i,
    {
        let c = path.get_char(i);
        proof {
            assert(path@.take(i + 1).drop_last() =~= path@.take(i as int));
            assert(path@.take(i + 1).last() == path@[i as int]);
        }
        if c == '/' {
            n = n + 1;
        }
        i = i + 1;
    }
    proof {
        assert(path@.take(len as int) =~= path@);
    }
    n
}

/// Computes the projection of `path`: its file name, or its extension, as
/// [`spec_project`] defines them.
pub fn project(path: &str, projection: PathProjection) -> (r: Option<String>)
    ensures
        r is Some <==> spec_project(path@, projection) is Some,
        r matches Some(s) ==> spec_project(path@, projection) == Option::Some(s@),
{
    let len = path.unicode_len();
    let mut name = String::new();
    let mut ext: Option<String> = Option::None;
    let mut i: usize = 0;
    while i < len
        invariant
            i <= len,
            len == path@.len(),
            name@ == spec_file_name(path@.take(i as int)),
            ext is Some <==> spec_extension(spec_file_name(path@.take(i as int))) is Some,
            ext matches Some(e) ==> spec_extension(spec_file_name(path@.take(i as int)))
                == Option::Some(e@),
        decreases len - i,
    {
        let c = path.get_char(i);
        proof {
            assert(path@.take(i + 1).drop_last() =~= path@.take(i as int));
            assert(path@.take(i + 1).last() == path@[i as int]);
        }
        if c == '/' {
            name = String::new();
            ext = Option::None;
        } else {
            proof {
                assert(spec_file_name(path@.take(i + 1)) =~= name@.push(c));
                assert(name@.push(c).drop_last() =~= name@);
            }
            if name.unicode_len() == 0 {
                ext = Option::None;
            } else if c == '.' {
                ext = Option::Some(String::new());
            } else {
                ext = match ext {
                    Option::Some(mut e) => {
                        push_char(&mut e, c);
                        Option::Some(e)
                    },
                    Option::None => Option::None,
                };
            }
            push_char(&mut name, c);
        }
        i = i + 1;
    }
    proof {
        assert(path@.take(len as int) =~= path@);
    }
    match projection {
        PathProjection::FileName => if name.unicode_len() > 0 {
            Option::Some(name)
        } else {
            Option::None
        },
        PathProjection::Extension => ext,
    }
}

/// Whether a single listing entry is selected for a filter; the executable
/// counterpart of [`entry_selected`].
fn select_entry(e: &ScanEntry, recursive: bool, filter: &PathMatcher, projection: PathProjection) -> (r:
    bool)
    ensures
        r == entry_selected(*e, recursive, filter.pattern_spec(), projection),
{
    if !e.is_file {
        return false;
    }
    if !recursive && slash_count(e.rel_path.as_str()) != 0 {
        return false;
    }
    match project(e.rel_path.as_str(), projection) {
        Option::Some(frag) => filter.is_match(frag.as_str()),
        Option::None => false,
    }
}

/// Partitions a directory listing into one group per filter: group `k`
/// holds, in listing order, the relative paths of the regular files within
/// the depth bound whose projection is defined and matches filter `k`. A
/// path may land in any number of groups, the filters being independent.
///
/// With `recursive` false only direct children of the root (paths without
/// a `/`) are considered; with it true the whole listing is.
pub fn scan(
    entries: &Vec<ScanEntry>,
    recursive: bool,
    filters: &Vec<PathMatcher>,
    projection: PathProjection,
) -> (groups: Vec<Vec<String>>)
    ensures
        groups.len() == filters.len(),
        forall|k: int|
            0 <= k < filters.len() ==> #[trigger] groups[k].deep_view() == spec_scan_group(
                entries@,
                recursive,
                filters[k].pattern_spec(),
                projection,
            ),
{
    let mut groups: Vec<Vec<String>> = Vec::new();
    let mut k: usize = 0;
    while k < filters.len()
        invariant
            k <= filters.len(),
            groups.len() == k,
            forall|kk: int|
                0 <= kk < k ==> #[trigger] groups[kk].deep_view() == spec_scan_group(
                    entries@,
                    recursive,
                    filters[kk].pattern_spec(),
                    projection,
                ),
        decreases filters.len() - k,
    {
        let group = scan_one(entries, recursive, &filters[k], projection);
        groups.push(group);
        k = k + 1;
    }
    groups
}

/// The group a single filter produces over the listing; the single-filter
/// form of [`scan`].
fn scan_one(
    entries: &Vec<ScanEntry>,
    recursive: bool,
    filter: &PathMatcher,
    projection: PathProjection,
) -> (group: Vec<String>)
    ensures
        group.deep_view() == spec_scan_group(
            entries@,
            recursive,
            filter.pattern_spec(),
            projection,
        ),
{
    let mut group: Vec<String> = Vec::new();
    let mut i: usize = 0;
    while i < entries.len()
        invariant
            i <= entries.len(),
            group.deep_view() == spec_scan_group(
                entries@.take(i as int),
                recursive,
                filter.pattern_spec(),
                projection,
            ),
        decreases entries.len() - i,
    {
        proof {
            assert(entries@.take(i + 1).drop_last() =~= entries@.take(i as int));
            assert(entries@.take(i + 1).last() == entries@[i as int]);
        }
        if select_entry(&entries[i], recursive, filter, projection) {
            group.push(entries[i].rel_path.clone());
            proof {
                assert(group.deep_view() =~= spec_scan_group(
                    entries@.take(i + 1),
                    recursive,
                    filter.pattern_spec(),
                    projection,
                ));
            }
        } else {
            proof {
                assert(group.deep_view() =~= spec_scan_group(
                    entries@.take(i + 1),
                    recursive,
                    filter.pattern_spec(),
                    projection,
                ));
            }
        }
        i = i + 1;
    }
    proof {
        assert(entries@.take(entries@.len() as int) =~= entries@);
    }
    group
}

/// Picks the shortest path of a scan group, the earliest one among
/// equals; how a caller selects the representative of a group of
/// candidate root files.
pub fn shortest(paths: &Vec<String>) -> (r: Option<String>)
    ensures
        r is Some <==> paths@.len() > 0,
        r matches Some(s) ==> exists|i: int|
            {
                &&& 0 <= i < paths@.len()
                &&& s == paths@[i]
                &&& (forall|j: int|
                    0 <= j < paths@.len() ==> s@.len() <= (#[trigger] paths@[j])@.len())
                &&& (forall|j: int| 0 <= j < i ==> s@.len() < (#[trigger] paths@[j])@.len())
            },
{
    if paths.len() == 0 {
        return Option::None;
    }
    let mut best: usize = 0;
    let mut best_len = paths[0].as_str().unicode_len();
    let mut j: usize = 1;
    while j < paths.len()
        invariant
            1 <= j <= paths@.len(),
            0 <= best < j,
            best_len == paths@[best as int]@.len(),
            forall|k: int| 0 <= k < j ==> best_len <= (#[trigger] paths@[k])@.len(),
            forall|k: int| 0 <= k < best ==> best_len < (#[trigger] paths@[k])@.len(),
        decreases paths@.len() - j,
    {
        let len = paths[j].as_str().unicode_len();
        if len < best_len {
            best = j;
            best_len = len;
        }
        j = j + 1;
    }
    Option::Some(paths[best].clone())
}

/// The single-filter convenience form over file extensions: the paths of
/// the regular files, within the depth bound, whose extension matches
/// `ext_matcher`, in listing order.
pub fn iter_exts(entries: &Vec<ScanEntry>, recursive: bool, ext_matcher: &PathMatcher) -> (found:
    Vec<String>)
    ensures
        found.deep_view() == spec_scan_group(
            entries@,
            recursive,
            ext_matcher.pattern_spec(),
            PathProjection::Extension,
        ),
{
    scan_one(entries, recursive, ext_matcher, PathProjection::Extension)
}

} // verus!
