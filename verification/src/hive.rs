//! Hive tables: the path part of an HDFS location, where a read starts, the
//! partitions it covers, which listed entries it reads, and how many
//! sources read them.
use vstd::prelude::*;

use crate::error_code::ErrorCode;
use crate::error_code::ErrorKind;
use crate::text::find_char;
use crate::text::first_index;
use crate::text::lemma_find_from_bounds;
use crate::text::push_char;
use crate::text::push_str;

verus! {

/// Where the path starts: after the scheme's colon, when a colon comes
/// before the first slash (or there is no slash).
pub open spec fn path_start(s: Seq<char>) -> int {
    match first_index(s, ':') {
        Some(colon) => match first_index(s, '/') {
            Some(slash) => if colon < slash { colon + 1 } else { 0 },
            None => colon + 1,
        },
        None => 0,
    }
}

/// A path with its authority (`//host:port`) taken off: what follows the
/// first slash after the two leading slashes, or nothing.
pub open spec fn strip_authority(p: Seq<char>) -> Seq<char> {
    if p.len() > 2 && p[0] == '/' && p[1] == '/' {
        let q = p.subrange(2, p.len() as int);
        match first_index(q, '/') {
            Some(k) => q.subrange(k, q.len() as int),
            None => Seq::empty(),
        }
    } else {
        p
    }
}

/// The path of an HDFS location, ending with a slash when it names a
/// directory.
pub open spec fn hdfs_local_path(s: Seq<char>, is_dir: bool) -> Seq<char> {
    let p = strip_authority(s.subrange(path_start(s), s.len() as int));
    if is_dir && !(p.len() > 0 && p.last() == '/') {
        p.push('/')
    } else {
        p
    }
}

/// The path of an HDFS location without its scheme and authority:
/// `hdfs://namenode:8020/user/a` gives `/user/a`, and, for a directory,
/// `/user/a/`.
pub fn convert_hdfs_path(hdfs_path: &str, is_dir: bool) -> (r: String)
    ensures
        r@ == hdfs_local_path(hdfs_path@, is_dir),
{
    let n = hdfs_path.unicode_len();
    let slash = find_char(hdfs_path, '/');
    let colon = find_char(hdfs_path, ':');
    proof {
        lemma_find_from_bounds(hdfs_path@, ':', 0);
    }
    let mut start: usize = 0;
    match colon {
        Some(colon) => match slash {
            Some(slash) => {
                if colon < slash {
                    start = colon + 1;
                }
            },
            None => {
                start = colon + 1;
            },
        },
        None => {},
    }
    assert(start as int == path_start(hdfs_path@));
    let path = hdfs_path.substring_char(start, n);
    let m = path.unicode_len();
    let mut rest = path;
    if m > 2 && path.get_char(0) == '/' && path.get_char(1) == '/' {
        let q = path.substring_char(2, m);
        let qn = q.unicode_len();
        proof {
            lemma_find_from_bounds(q@, '/', 0);
        }
        let k = match find_char(q, '/') {
            Some(k) => k,
            None => qn,
        };
        rest = q.substring_char(k, qn);
        proof {
            if first_index(q@, '/') is None {
                assert(rest@ =~= Seq::<char>::empty());
            }
        }
    }
    assert(rest@ == strip_authority(path@));
    let mut r = String::new();
    push_str(&mut r, rest);
    let rn = rest.unicode_len();
    let end_with_slash = rn > 0 && rest.get_char(rn - 1) == '/';
    if is_dir && !end_with_slash {
        push_char(&mut r, '/');
    }
    assert(r@ =~= hdfs_local_path(hdfs_path@, is_dir));
    r
}

/// How many sources read a table's partitions: one per partition, at most
/// the number of threads allowed, and at least one.
pub open spec fn source_count_spec(parts_len: nat, max_threads: nat) -> nat {
    let n = if parts_len < max_threads { parts_len } else { max_threads };
    if n < 1 { 1 } else { n }
}

/// How many sources read a table's partitions.
pub fn source_count(parts_len: usize, max_threads: usize) -> (r: usize)
    ensures
        r == source_count_spec(parts_len as nat, max_threads as nat),
{
    let n = if parts_len < max_threads { parts_len } else { max_threads };
    if n < 1 { 1 } else { n }
}

/// The location of a partition: the table's location, the partition's
/// name, and a slash.
pub open spec fn partition_location(location: Seq<char>, part: Seq<char>) -> Seq<char> {
    location + part + seq!['/']
}

/// The directories to read for the partitions of a table, each with the
/// name of its partition.
pub fn partition_locations(location: &str, partitions: Vec<String>) -> (r: Vec<(String, Option<String>)>)
    ensures
        r@.len() == partitions@.len(),
        forall|i: int| 0 <= i < r@.len() ==> {
            &&& (#[trigger] r@[i]).0@ == partition_location(location@, partitions@[i]@)
            &&& r@[i].1 matches Some(p) && p@ == partitions@[i]@
        },
{
    let mut r: Vec<(String, Option<String>)> = Vec::new();
    let mut i: usize = 0;
    while i < partitions.len()
        invariant
            i <= partitions@.len(),
            r@.len() == i,
            forall|k: int| 0 <= k < i ==> {
                &&& (#[trigger] r@[k]).0@ == partition_location(location@, partitions@[k]@)
                &&& r@[k].1 matches Some(p) && p@ == partitions@[k]@
            },
        decreases partitions@.len() - i,
    {
        let part = partitions[i].clone();
        let mut dir = String::new();
        push_str(&mut dir, location);
        push_str(&mut dir, part.as_str());
        push_char(&mut dir, '/');
        assert(dir@ =~= partition_location(location@, partitions@[i as int]@));
        r.push((dir, Some(part)));
        i = i + 1;
    }
    r
}

/// Whether a name is one of the partition keys.
pub open spec fn is_partition_key(keys: Seq<String>, name: Seq<char>) -> bool {
    exists|k: int| 0 <= k < keys.len() && #[trigger] keys[k]@ == name
}

/// The columns of a projection, in order, whose names are partition keys
/// (`keep` true) or are not (`keep` false).
pub open spec fn projection_part(projection: Seq<usize>, field_names: Seq<String>, keys: Seq<String>, keep: bool) -> Seq<usize>
    decreases projection.len(),
{
    if projection.len() == 0 {
        Seq::empty()
    } else {
        let rest = projection_part(projection.drop_last(), field_names, keys, keep);
        let c = projection.last();
        if is_partition_key(keys, field_names[c as int]@) == keep {
            rest.push(c)
        } else {
            rest
        }
    }
}

fn is_key(keys: &Vec<String>, name: &String) -> (r: bool)
    ensures
        r == is_partition_key(keys@, name@),
{
    let mut i: usize = 0;
    while i < keys.len()
        invariant
            i <= keys@.len(),
            forall|k: int| 0 <= k < i ==> (#[trigger] keys@[k])@ != name@,
        decreases keys@.len() - i,
    {
        if keys[i] == *name {
            return true;
        }
        i = i + 1;
    }
    false
}

/// Splits the columns a read projects into those stored in the data files
/// and the partition columns, whose values come from the partition's
/// directory. Without partition keys every column is stored.
pub fn split_partition_columns(
    projection: &Vec<usize>,
    field_names: &Vec<String>,
    partition_keys: &Option<Vec<String>>,
) -> (r: (Vec<usize>, Vec<usize>))
    requires
        forall|i: int| 0 <= i < projection@.len() ==> (#[trigger] projection@[i]) < field_names@.len(),
    ensures
        match partition_keys {
            None => r.0@ == projection@ && r.1@ == Seq::<usize>::empty(),
            Some(keys) => {
                &&& r.0@ == projection_part(projection@, field_names@, keys@, false)
                &&& r.1@ == projection_part(projection@, field_names@, keys@, true)
            },
        },
{
    match partition_keys {
        None => (projection.clone(), Vec::new()),
        Some(keys) => {
            let mut not_partitions: Vec<usize> = Vec::new();
            let mut partitions: Vec<usize> = Vec::new();
            let mut i: usize = 0;
            while i < projection.len()
                invariant
                    i <= projection@.len(),
                    forall|j: int| 0 <= j < projection@.len() ==> (#[trigger] projection@[j]) < field_names@.len(),
                    not_partitions@ == projection_part(projection@.subrange(0, i as int), field_names@, keys@, false),
                    partitions@ == projection_part(projection@.subrange(0, i as int), field_names@, keys@, true),
                decreases projection@.len() - i,
            {
                let c = projection[i];
                assert(projection@.subrange(0, i + 1).drop_last() =~= projection@.subrange(0, i as int));
                if is_key(keys, &field_names[c]) {
                    partitions.push(c);
                } else {
                    not_partitions.push(c);
                }
                i = i + 1;
            }
            assert(projection@.subrange(0, projection@.len() as int) =~= projection@);
            (not_partitions, partitions)
        },
    }
}

/// Splitting a projection loses no column and repeats none: every
/// projected column is either stored or a partition column.
pub proof fn law_split_keeps_every_column(projection: Seq<usize>, field_names: Seq<String>, keys: Seq<String>)
    ensures
        projection_part(projection, field_names, keys, false).len() + projection_part(projection, field_names, keys, true).len()
            == projection.len(),
    decreases projection.len(),
{
    if projection.len() > 0 {
        law_split_keeps_every_column(projection.drop_last(), field_names, keys);
    }
}


/// The texts of the items, separated by `, `.
pub open spec fn joined_text(items: Seq<String>) -> Seq<char>
    decreases items.len(),
{
    if items.len() == 0 {
        Seq::empty()
    } else if items.len() == 1 {
        items[0]@
    } else {
        joined_text(items.subrange(0, items.len() - 1)) + ", "@ + items[items.len() - 1]@
    }
}

/// The first step of finding where a read of a table finds its data.
#[derive(Debug)]
pub enum LocationsStep {
    /// The data lies in these directories, each with its partition.
    Locations(Vec<(String, Option<String>)>),
    /// The table's partitions are listed first, and each is read from its
    /// directory under this location.
    ListPartitions(String),
}

/// Whether a table has partition keys.
pub open spec fn is_partitioned(partition_keys: Option<Vec<String>>) -> bool {
    partition_keys matches Some(keys) && keys@.len() > 0
}

/// Where a read of a table starts: a table without a location cannot be
/// read; a partitioned table read with pushed-down filters lists its
/// partitions (and takes one filter at most); any other read covers the
/// whole location, as a directory. Each filter is given by its debug text.
pub fn query_locations_step(
    table_name: &str,
    location: Option<&str>,
    partition_keys: &Option<Vec<String>>,
    filters: Option<&Vec<String>>,
) -> (r: Result<LocationsStep, ErrorCode>)
    ensures
        match location {
            None => r matches Err(e) && e.kind == ErrorKind::TableInfoError && e.message@ == table_name@
                + ", table location is empty"@,
            Some(path) => {
                let dir = hdfs_local_path(path@, true);
                if is_partitioned(*partition_keys) && filters is Some {
                    if filters.unwrap()@.len() > 1 {
                        r matches Err(e) && e.kind == ErrorKind::UnImplement && e.message@
                            == "more than one filters, ["@ + joined_text(filters.unwrap()@) + "]"@
                    } else {
                        r matches Ok(LocationsStep::ListPartitions(l)) && l@ == dir
                    }
                } else {
                    r matches Ok(LocationsStep::Locations(v)) && v@.len() == 1 && v@[0].0@ == dir && v@[0].1 is None
                }
            },
        },
{
    let path = match location {
        Some(path) => path,
        None => {
            let mut m = String::new();
            push_str(&mut m, table_name);
            push_str(&mut m, ", table location is empty");
            return Err(ErrorCode::create(ErrorKind::TableInfoError, m));
        },
    };
    let dir = convert_hdfs_path(path, true);
    let partitioned = match partition_keys {
        Some(keys) => keys.len() > 0,
        None => false,
    };
    if partitioned {
        if let Some(fs) = filters {
            if fs.len() > 1 {
                let mut m = String::new();
                push_str(&mut m, "more than one filters, [");
                let ghost m0 = m@;
                assert(m@ =~= m0 + joined_text(fs@.subrange(0, 0)));
                let mut i: usize = 0;
                while i < fs.len()
                    invariant
                        i <= fs@.len(),
                        m@ == m0 + joined_text(fs@.subrange(0, i as int)),
                    decreases fs@.len() - i,
                {
                    if i > 0 {
                        push_str(&mut m, ", ");
                    }
                    push_str(&mut m, fs[i].as_str());
                    assert(fs@.subrange(0, i + 1).subrange(0, i as int) =~= fs@.subrange(0, i as int));
                    assert(m@ =~= m0 + joined_text(fs@.subrange(0, i + 1)));
                    i = i + 1;
                }
                assert(fs@.subrange(0, fs@.len() as int) =~= fs@);
                push_str(&mut m, "]");
                return Err(ErrorCode::create(ErrorKind::UnImplement, m));
            }
            return Ok(LocationsStep::ListPartitions(dir));
        }
    }
    let mut v: Vec<(String, Option<String>)> = Vec::new();
    v.push((dir, None));
    Ok(LocationsStep::Locations(v))
}


/// The last position among the first `n` characters that holds `c`.
pub open spec fn last_index_before(s: Seq<char>, c: char, n: int) -> Option<int>
    decreases n,
{
    if n <= 0 {
        None
    } else if s[n - 1] == c {
        Some(n - 1)
    } else {
        last_index_before(s, c, n - 1)
    }
}

/// Where the name of a listed entry starts: after its last slash, and,
/// when it has none, after its first character.
pub open spec fn name_offset(path: Seq<char>) -> int {
    match last_index_before(path, '/', path.len() as int) {
        Some(i) => i + 1,
        None => 1,
    }
}

/// Whether a listed entry is skipped: its name starts with `.` or `_`.
/// A directory's path ends with a slash, so its name is empty there and it
/// is never skipped.
pub open spec fn is_hidden(path: Seq<char>) -> bool {
    let o = name_offset(path);
    o < path.len() && (path[o] == '.' || path[o] == '_')
}

/// Whether a path can be cut where its name starts: with no slash, its
/// first character must be a single byte.
pub open spec fn name_cuttable(path: Seq<char>) -> bool {
    last_index_before(path, '/', path.len() as int) is Some || (path.len() > 0 && (path[0] as u32) < 0x80)
}

/// What storage tells of a listed entry.
#[derive(PartialEq, Eq, Structural, Clone, Copy, Debug)]
pub enum EntryMode {
    File,
    Dir,
    Unknown,
}

/// Whether a listed entry is kept and storage cannot tell what it is.
pub open spec fn unknown_entry(e: (String, EntryMode)) -> bool {
    !is_hidden(e.0@) && e.1 == EntryMode::Unknown
}

/// The paths of the entries that are kept and have the given mode, in
/// order.
pub open spec fn kept_paths(entries: Seq<(String, EntryMode)>, mode: EntryMode) -> Seq<String>
    decreases entries.len(),
{
    if entries.len() == 0 {
        Seq::empty()
    } else {
        let rest = kept_paths(entries.drop_last(), mode);
        let e = entries.last();
        if !is_hidden(e.0@) && e.1 == mode {
            rest.push(e.0)
        } else {
            rest
        }
    }
}

/// Whether a path names a hidden entry.
fn hidden(path: &str) -> (r: bool)
    requires
        name_cuttable(path@),
    ensures
        r == is_hidden(path@),
{
    let n = path.unicode_len();
    let mut last: Option<usize> = None;
    let mut i: usize = 0;
    while i < n
        invariant
            n == path@.len(),
            i <= n,
            last == (match last_index_before(path@, '/', i as int) {
                Some(k) => Some(k as usize),
                None => None::<usize>,
            }),
            last_index_before(path@, '/', i as int) matches Some(k) ==> 0 <= k < i,
        decreases n - i,
    {
        if path.get_char(i) == '/' {
            last = Some(i);
        }
        i = i + 1;
    }
    let o: usize = match last {
        Some(k) => k + 1,
        None => 1,
    };
    o < n && (path.get_char(o) == '.' || path.get_char(o) == '_')
}

/// Splits the entries of a listed directory into files and directories,
/// in order, leaving out hidden entries; an entry whose mode storage
/// cannot tell fails the listing.
pub fn split_listing(entries: &Vec<(String, EntryMode)>) -> (r: Result<(Vec<String>, Vec<String>), ErrorCode>)
    requires
        forall|i: int| 0 <= i < entries@.len() ==> name_cuttable(#[trigger] entries@[i].0@),
    ensures
        match r {
            Ok((files, dirs)) => {
                &&& forall|i: int| 0 <= i < entries@.len() ==> !unknown_entry(#[trigger] entries@[i])
                &&& files@ == kept_paths(entries@, EntryMode::File)
                &&& dirs@ == kept_paths(entries@, EntryMode::Dir)
            },
            Err(e) => exists|k: int| {
                &&& 0 <= k < entries@.len()
                &&& unknown_entry(#[trigger] entries@[k])
                &&& forall|j: int| 0 <= j < k ==> !unknown_entry(#[trigger] entries@[j])
                &&& e.kind == ErrorKind::ReadTableDataError
                &&& e.message@ == entries@[k].0@ + " couldn't get file mode"@
            },
        },
{
    let mut files: Vec<String> = Vec::new();
    let mut dirs: Vec<String> = Vec::new();
    let mut i: usize = 0;
    while i < entries.len()
        invariant
            i <= entries@.len(),
            forall|i: int| 0 <= i < entries@.len() ==> name_cuttable(#[trigger] entries@[i].0@),
            forall|j: int| 0 <= j < i ==> !unknown_entry(#[trigger] entries@[j]),
            files@ == kept_paths(entries@.subrange(0, i as int), EntryMode::File),
            dirs@ == kept_paths(entries@.subrange(0, i as int), EntryMode::Dir),
        decreases entries@.len() - i,
    {
        assert(entries@.subrange(0, i + 1).drop_last() =~= entries@.subrange(0, i as int));
        let path = &entries[i].0;
        if !hidden(path.as_str()) {
            match entries[i].1 {
                EntryMode::File => files.push(path.clone()),
                EntryMode::Dir => dirs.push(path.clone()),
                EntryMode::Unknown => {
                    let mut m = String::new();
                    push_str(&mut m, path.as_str());
                    push_str(&mut m, " couldn't get file mode");
                    assert(unknown_entry(entries@[i as int]));
                    return Err(ErrorCode::create(ErrorKind::ReadTableDataError, m));
                },
            }
        }
        i = i + 1;
    }
    assert(entries@.subrange(0, entries@.len() as int) =~= entries@);
    Ok((files, dirs))
}

} // verus!
