//! Files of stages: which files a listing keeps, under a path and a name
//! pattern, and what the interpreters of stages and grants decide around
//! the storage calls they make.
use vstd::prelude::*;

use crate::error_code::ErrorCode;
use crate::error_code::ErrorKind;
use crate::share::DateTimeUtc;
use crate::text::push_char;
use crate::text::push_str;

verus! {

#[verifier::external_type_specification]
#[verifier::external_body]
pub struct ExRegex(regex::Regex);

/// What compiling a pattern with `regex::Regex::new` gives: nothing when it
/// compiles, the debug text of the error when it does not.
pub uninterp spec fn regex_compile_error(pattern: Seq<char>) -> Option<Seq<char>>;

/// Whether the regex of a pattern matches somewhere in a text
/// (`regex::Regex::is_match`).
pub uninterp spec fn regex_is_match(pattern: Seq<char>, text: Seq<char>) -> bool;

/// A compiled pattern of file names, with the pattern it was compiled from.
#[derive(Debug)]
pub struct FilePattern {
    pattern: String,
    regex: regex::Regex,
}

impl View for FilePattern {
    type V = Seq<char>;

    closed spec fn view(&self) -> Seq<char> {
        self.pattern@
    }
}

/// Compiles a pattern (`regex::Regex::new`); on failure, the debug text of
/// the error. The outcome is a function of the pattern alone, named
/// `regex_compile_error`.
#[verifier::external_body]
fn regex_compile(pattern: &str) -> (r: Result<FilePattern, String>)
    ensures
        match r {
            Ok(p) => p@ == pattern@ && regex_compile_error(pattern@) is None,
            Err(e) => regex_compile_error(pattern@) == Some(e@),
        },
{
    match regex::Regex::new(pattern) {
        Ok(regex) => Ok(FilePattern { pattern: pattern.to_string(), regex }),
        Err(e) => Err(format!("{:?}", e)),
    }
}

impl FilePattern {
    /// Whether the pattern matches somewhere in a text
    /// (`regex::Regex::is_match`); a function of the pattern and the text,
    /// named `regex_is_match`.
    #[verifier::external_body]
    pub(crate) fn is_match(&self, text: &str) -> (r: bool)
        ensures
            r == regex_is_match(self@, text@),
    {
        self.regex.is_match(text)
    }
}

/// The error for a pattern that does not compile.
pub open spec fn pattern_error_message(pattern: Seq<char>, error: Seq<char>) -> Seq<char> {
    "Pattern format invalid, got:"@ + pattern + ", error:"@ + error
}

/// The pattern that file names must match: none for an empty pattern; an
/// invalid pattern is a `SyntaxException`.
pub fn compile_file_pattern(pattern: &str) -> (r: Result<Option<FilePattern>, ErrorCode>)
    ensures
        pattern@.len() == 0 ==> r matches Ok(None),
        pattern@.len() > 0 ==> match regex_compile_error(pattern@) {
            None => r matches Ok(Some(p)) && p@ == pattern@,
            Some(e) => r matches Err(err) && err.kind == ErrorKind::SyntaxException
                && err.message@ == pattern_error_message(pattern@, e),
        },
{
    if pattern.unicode_len() == 0 {
        return Ok(None);
    }
    match regex_compile(pattern) {
        Ok(p) => Ok(Some(p)),
        Err(e) => {
            let mut m = String::new();
            push_str(&mut m, "Pattern format invalid, got:");
            push_str(&mut m, pattern);
            push_str(&mut m, ", error:");
            push_str(&mut m, e.as_str());
            Err(ErrorCode::create(ErrorKind::SyntaxException, m))
        },
    }
}

/// Whether a name passes a pattern: every name passes no pattern.
pub open spec fn passes(pattern: Option<Seq<char>>, name: Seq<char>) -> bool {
    match pattern {
        Some(p) => regex_is_match(p, name),
        None => true,
    }
}

/// The view of an optional pattern.
pub open spec fn pattern_view(p: Option<FilePattern>) -> Option<Seq<char>> {
    match p {
        Some(f) => Some(f@),
        None => None,
    }
}

/// Whether a name passes an optional pattern.
pub fn name_passes(pattern: &Option<FilePattern>, name: &str) -> (r: bool)
    ensures
        r == passes(pattern_view(*pattern), name@),
{
    match pattern {
        Some(p) => p.is_match(name),
        None => true,
    }
}

/// A file of a stage.
#[derive(Debug, Clone)]
pub struct StageFile {
    pub path: String,
    pub size: u64,
    pub md5: Option<String>,
    pub last_modified: DateTimeUtc,
    pub creator: Option<String>,
}

/// Whether a stored name lies under a path: a path that ends with a slash
/// is a directory and the name must begin with it; otherwise the name is
/// the path itself or lies in the directory of that name.
pub open spec fn under_path(name: Seq<char>, path: Seq<char>) -> bool {
    if path.len() > 0 && path.last() == '/' {
        path.is_prefix_of(name)
    } else {
        (path + seq!['/']).is_prefix_of(name) || name == path
    }
}

/// Whether `p` begins `s`.
fn starts_with(s: &str, p: &str) -> (r: bool)
    ensures
        r == p@.is_prefix_of(s@),
{
    let n = s.unicode_len();
    let m = p.unicode_len();
    if m > n {
        return false;
    }
    let mut i: usize = 0;
    while i < m
        invariant
            m <= n,
            n == s@.len(),
            m == p@.len(),
            i <= m,
            forall|k: int| 0 <= k < i ==> s@[k] == p@[k],
        decreases m - i,
    {
        if s.get_char(i) != p.get_char(i) {
            return false;
        }
        i = i + 1;
    }
    true
}

/// Whether two strings are the same.
fn str_eq(a: &str, b: &str) -> (r: bool)
    ensures
        r == (a@ == b@),
{
    let same = a.unicode_len() == b.unicode_len() && starts_with(a, b);
    proof {
        if same {
            assert(a@ =~= b@);
        }
    }
    same
}

/// Whether a file of an internal stage, stored under the stage's prefix,
/// lies under a path.
pub fn stage_file_under_path(prefix: &str, file_path: &str, path: &str) -> (r: bool)
    ensures
        r == under_path(prefix@ + file_path@, path@),
{
    let mut name = String::new();
    push_str(&mut name, prefix);
    push_str(&mut name, file_path);
    let n = path.unicode_len();
    if n > 0 && path.get_char(n - 1) == '/' {
        starts_with(name.as_str(), path)
    } else {
        let mut dir = String::new();
        push_str(&mut dir, path);
        push_char(&mut dir, '/');
        starts_with(name.as_str(), dir.as_str()) || str_eq(name.as_str(), path)
    }
}

/// The files of an internal stage that a listing keeps, in order: those
/// under the path whose names pass the pattern.
pub open spec fn kept_stage_files(files: Seq<StageFile>, prefix: Seq<char>, path: Seq<char>, pattern: Option<Seq<char>>) -> Seq<StageFile>
    decreases files.len(),
{
    if files.len() == 0 {
        Seq::empty()
    } else {
        let rest = kept_stage_files(files.drop_last(), prefix, path, pattern);
        let f = files.last();
        if under_path(prefix + f.path@, path) && passes(pattern, f.path@) {
            rest.push(f)
        } else {
            rest
        }
    }
}

/// The files of an internal stage, as the meta service lists them, that
/// lie under a path and whose names pass the pattern, in order.
pub fn filter_stage_files(files: Vec<StageFile>, prefix: &str, path: &str, pattern: &Option<FilePattern>) -> (r: Vec<StageFile>)
    ensures
        r@ == kept_stage_files(files@, prefix@, path@, pattern_view(*pattern)),
{
    let ghost all = files@;
    let total = files.len();
    let mut kept: Vec<StageFile> = Vec::new();
    let mut rest = files;
    let mut i: usize = 0;
    while rest.len() > 0
        invariant
            all.len() == total,
            i + rest@.len() == all.len(),
            rest@ == all.subrange(i as int, all.len() as int),
            kept@ == kept_stage_files(all.subrange(0, i as int), prefix@, path@, pattern_view(*pattern)),
        decreases rest@.len(),
    {
        let f = rest.remove(0);
        assert(f == all[i as int]);
        assert(all.subrange(0, i + 1).drop_last() =~= all.subrange(0, i as int));
        let keep = stage_file_under_path(prefix, f.path.as_str(), path) && name_passes(pattern, f.path.as_str());
        if keep {
            kept.push(f);
        }
        i = i + 1;
        assert(rest@ =~= all.subrange(i as int, all.len() as int));
    }
    assert(all.subrange(0, all.len() as int) =~= all);
    kept
}

/// A string with every leading repetition of a piece taken off
/// (`str::trim_start_matches`); an empty piece takes nothing off.
pub open spec fn trim_leading(s: Seq<char>, piece: Seq<char>) -> Seq<char>
    decreases s.len(),
{
    if piece.len() > 0 && piece.is_prefix_of(s) {
        trim_leading(s.subrange(piece.len() as int, s.len() as int), piece)
    } else {
        s
    }
}

/// Takes off every leading repetition of a piece.
pub fn trim_start_matches(s: &str, piece: &str) -> (r: String)
    ensures
        r@ == trim_leading(s@, piece@),
{
    let n = s.unicode_len();
    let m = piece.unicode_len();
    let mut start: usize = 0;
    assert(s@.subrange(0, n as int) =~= s@);
    if m > 0 {
        while m <= n - start
            invariant_except_break
                n == s@.len(),
                m == piece@.len(),
                m > 0,
                start <= n,
                trim_leading(s@, piece@) == trim_leading(s@.subrange(start as int, n as int), piece@),
            ensures
                start <= n,
                trim_leading(s@, piece@) == s@.subrange(start as int, n as int),
            decreases n - start,
        {
            let mut i: usize = 0;
            let mut same = true;
            while i < m
                invariant
                    n == s@.len(),
                    m == piece@.len(),
                    start + m <= n,
                    i <= m,
                    same == forall|k: int| 0 <= k < i ==> s@[start + k] == piece@[k],
                decreases m - i,
            {
                if s.get_char(start + i) != piece.get_char(i) {
                    same = false;
                }
                i = i + 1;
            }
            let ghost t = s@.subrange(start as int, n as int);
            if !same {
                assert(!piece@.is_prefix_of(t)) by {
                    if piece@.is_prefix_of(t) {
                        assert forall|k: int| 0 <= k < m implies s@[start + k] == piece@[k] by {
                            assert(t[k] == s@[start + k]);
                        }
                    }
                }
                break;
            }
            assert(piece@.is_prefix_of(t)) by {
                assert forall|k: int| 0 <= k < piece@.len() implies t[k] == piece@[k] by {
                    assert(t[k] == s@[start + k]);
                }
            }
            assert(t.subrange(m as int, t.len() as int) =~= s@.subrange(start + m, n as int));
            start = start + m;
        }
        if m > n - start {
            let ghost t = s@.subrange(start as int, n as int);
            assert(!piece@.is_prefix_of(t));
        }
    }
    let rest = s.substring_char(start, n);
    let mut r = String::new();
    push_str(&mut r, rest);
    assert(s@.subrange(0, n as int) =~= s@);
    r
}

/// The name a file of an internal stage is recorded under: its stored path
/// without the stage's prefix (the prefix taken without its leading
/// slashes).
pub fn internal_stage_file_path(file_path: &str, prefix: &str) -> (r: String)
    ensures
        r@ == trim_leading(file_path@, trim_leading(prefix@, seq!['/'])),
{
    let p = trim_start_matches(prefix, "/");
    proof {
        reveal_strlit("/");
    }
    assert("/"@ =~= seq!['/']);
    trim_start_matches(file_path, p.as_str())
}

/// What a path of an external stage turned out to be.
#[derive(PartialEq, Eq, Structural, Clone, Copy, Debug)]
pub enum PathKind {
    Dir,
    File,
    NotFound,
}

/// Where the listing of an external stage looks: a directory is listed as
/// it is; a file is kept itself and the directory of its name listed
/// too; a path that does not exist is tried as a directory.
pub fn dal_listing_dir(path: &str, kind: PathKind) -> (r: (bool, String))
    ensures
        r.0 == (kind == PathKind::File),
        r.1@ == if kind == PathKind::Dir { path@ } else { path@ + seq!['/'] },
{
    let mut dir = String::new();
    push_str(&mut dir, path);
    match kind {
        PathKind::Dir => (false, dir),
        PathKind::File => {
            push_char(&mut dir, '/');
            (true, dir)
        },
        PathKind::NotFound => {
            push_char(&mut dir, '/');
            (false, dir)
        },
    }
}

/// What storage tells of a file found by a listing.
#[derive(Debug, Clone)]
pub struct FileMeta {
    pub content_length: u64,
    pub content_md5: Option<String>,
    /// Seconds since the epoch of the last change, if known.
    pub last_modified: Option<i64>,
}

/// The stage file for a listed file: its size, its checksum and the time of
/// its last change, or `now` when storage does not know it.
pub open spec fn stage_file_of(name: Seq<char>, meta: FileMeta, now: DateTimeUtc, f: StageFile) -> bool {
    &&& f.path@ == name
    &&& f.size == meta.content_length
    &&& f.md5 == meta.content_md5
    &&& f.last_modified == match meta.last_modified {
        Some(secs) => DateTimeUtc { secs, nsecs: 0 },
        None => now,
    }
    &&& f.creator is None
}

/// The listed files of an external stage whose names pass the pattern, in
/// order, as stage files.
pub open spec fn listed_stage_files(
    files: Seq<(String, FileMeta)>,
    pattern: Option<Seq<char>>,
) -> Seq<(String, FileMeta)>
    decreases files.len(),
{
    if files.len() == 0 {
        Seq::empty()
    } else {
        let rest = listed_stage_files(files.drop_last(), pattern);
        if passes(pattern, files.last().0@) {
            rest.push(files.last())
        } else {
            rest
        }
    }
}

/// The stage files of the files a listing found: those whose names pass the
/// pattern, in order.
pub fn stage_files_of_listing(files: Vec<(String, FileMeta)>, pattern: &Option<FilePattern>, now: DateTimeUtc) -> (r: Vec<StageFile>)
    ensures
        r@.len() == listed_stage_files(files@, pattern_view(*pattern)).len(),
        forall|i: int| 0 <= i < r@.len() ==> stage_file_of(
            listed_stage_files(files@, pattern_view(*pattern))[i].0@,
            listed_stage_files(files@, pattern_view(*pattern))[i].1,
            now,
            #[trigger] r@[i],
        ),
{
    let ghost all = files@;
    let total = files.len();
    let ghost kept = Seq::<(String, FileMeta)>::empty();
    let mut r: Vec<StageFile> = Vec::new();
    let mut rest = files;
    let mut i: usize = 0;
    while rest.len() > 0
        invariant
            all.len() == total,
            i + rest@.len() == all.len(),
            rest@ == all.subrange(i as int, all.len() as int),
            kept == listed_stage_files(all.subrange(0, i as int), pattern_view(*pattern)),
            r@.len() == kept.len(),
            forall|k: int| 0 <= k < r@.len() ==> stage_file_of(kept[k].0@, kept[k].1, now, #[trigger] r@[k]),
        decreases rest@.len(),
    {
        let (name, meta) = rest.remove(0);
        assert((name, meta) == all[i as int]);
        assert(all.subrange(0, i + 1).drop_last() =~= all.subrange(0, i as int));
        if name_passes(pattern, name.as_str()) {
            let last_modified = match meta.last_modified {
                Some(secs) => DateTimeUtc { secs, nsecs: 0 },
                None => now,
            };
            let f = StageFile {
                path: name,
                size: meta.content_length,
                md5: meta.content_md5,
                last_modified,
                creator: None,
            };
            proof {
                kept = kept.push(all[i as int]);
            }
            r.push(f);
        }
        i = i + 1;
        assert(rest@ =~= all.subrange(i as int, all.len() as int));
    }
    assert(all.subrange(0, all.len() as int) =~= all);
    r
}

/// What looking up the metadata of a path of an external stage gave.
#[derive(Debug)]
pub enum PathLookup {
    Dir,
    File(FileMeta),
    NotFound,
    /// Any other failure of the lookup.
    Failed(ErrorCode),
}

/// The names and metadata of listed files.
pub open spec fn entry_views(fs: Seq<(String, FileMeta)>) -> Seq<(Seq<char>, FileMeta)> {
    fs.map_values(|e: (String, FileMeta)| (e.0@, e.1))
}

/// The files a listing finds before the pattern, in order: the path itself
/// when it is a file, then the files walked under the listing directory,
/// when that directory exists.
pub open spec fn found_files(
    path: Seq<char>,
    lookup: PathLookup,
    walked: Option<Seq<(Seq<char>, FileMeta)>>,
) -> Seq<(Seq<char>, FileMeta)> {
    let first = match lookup {
        PathLookup::File(meta) => seq![(path, meta)],
        _ => Seq::empty(),
    };
    match walked {
        Some(w) => first + w,
        None => first,
    }
}

/// The found files whose names pass the pattern, in order.
pub open spec fn passing_files(
    files: Seq<(Seq<char>, FileMeta)>,
    pattern: Option<Seq<char>>,
) -> Seq<(Seq<char>, FileMeta)>
    decreases files.len(),
{
    if files.len() == 0 {
        Seq::empty()
    } else {
        let rest = passing_files(files.drop_last(), pattern);
        if passes(pattern, files.last().0) {
            rest.push(files.last())
        } else {
            rest
        }
    }
}

proof fn lemma_listed_views(files: Seq<(String, FileMeta)>, pattern: Option<Seq<char>>)
    ensures
        entry_views(listed_stage_files(files, pattern)) == passing_files(entry_views(files), pattern),
    decreases files.len(),
{
    if files.len() > 0 {
        lemma_listed_views(files.drop_last(), pattern);
        assert(entry_views(files).drop_last() =~= entry_views(files.drop_last()));
        let rest = listed_stage_files(files.drop_last(), pattern);
        assert(entry_views(rest.push(files.last())) =~= entry_views(rest).push((files.last().0@, files.last().1)));
    } else {
        assert(entry_views(files) =~= Seq::empty());
        assert(entry_views(Seq::<(String, FileMeta)>::empty()) =~= Seq::empty());
    }
}

/// The pattern a listing filters by: none when it is empty.
pub open spec fn listing_pattern(pattern: Seq<char>) -> Option<Seq<char>> {
    if pattern.len() == 0 {
        None
    } else {
        Some(pattern)
    }
}

/// The files of an external stage under a path, as stage files: the
/// path itself when it is a file, then the files `walked` top-down under
/// the listing directory (the path when it is a directory, else the path
/// and a slash; none when that directory does not exist), keeping those
/// whose names pass the pattern. A lookup of the path that fails other than
/// by not finding it fails the listing with its error, and a pattern that
/// does not compile is a `SyntaxException`.
pub fn list_files_from_dal(
    path: &str,
    lookup: PathLookup,
    walked: Option<Vec<(String, FileMeta)>>,
    pattern: &str,
    now: DateTimeUtc,
) -> (r: Result<Vec<StageFile>, ErrorCode>)
    ensures
        match lookup {
            PathLookup::Failed(e) => r matches Err(f) && f@ == e@,
            _ => if pattern@.len() > 0 && regex_compile_error(pattern@) is Some {
                r matches Err(err) && err.kind == ErrorKind::SyntaxException
                    && err.message@ == pattern_error_message(pattern@, regex_compile_error(pattern@).unwrap())
            } else {
                r matches Ok(v) && {
                    let found = found_files(
                        path@,
                        lookup,
                        match walked {
                            Some(w) => Some(entry_views(w@)),
                            None => None,
                        },
                    );
                    let kept = passing_files(found, listing_pattern(pattern@));
                    &&& v@.len() == kept.len()
                    &&& forall|i: int| 0 <= i < v@.len() ==> stage_file_of(kept[i].0, kept[i].1, now, #[trigger] v@[i])
                }
            },
        },
{
    let ghost lk = lookup;
    let mut found: Vec<(String, FileMeta)> = Vec::new();
    match lookup {
        PathLookup::Failed(e) => {
            return Err(e);
        },
        PathLookup::File(meta) => {
            let mut p = String::new();
            push_str(&mut p, path);
            found.push((p, meta));
        },
        _ => {},
    }
    let ghost first = found@;
    let ghost wk = walked;
    match walked {
        Some(w) => {
            let mut w = w;
            found.append(&mut w);
        },
        None => {},
    }
    let pat = match compile_file_pattern(pattern) {
        Ok(p) => p,
        Err(e) => return Err(e),
    };
    let ghost fs = found@;
    proof {
        assert(entry_views(first) =~= match lk {
            PathLookup::File(meta) => seq![(path@, meta)],
            _ => Seq::empty(),
        });
        match wk {
            Some(w) => {
                assert(entry_views(fs) =~= entry_views(first) + entry_views(w@));
            },
            None => {
                assert(fs == first);
            },
        }
        lemma_listed_views(fs, pattern_view(pat));
    }
    let r = stage_files_of_listing(found, &pat, now);
    proof {
        let listed = listed_stage_files(fs, pattern_view(pat));
        assert forall|i: int| 0 <= i < r@.len() implies stage_file_of(
            passing_files(entry_views(fs), pattern_view(pat))[i].0,
            passing_files(entry_views(fs), pattern_view(pat))[i].1,
            now,
            #[trigger] r@[i],
        ) by {
            assert(entry_views(listed)[i] == (listed[i].0@, listed[i].1));
        }
    }
    Ok(r)
}

/// What a privilege is granted on.
#[derive(Debug, Clone)]
pub enum GrantObject {
    Global,
    Database(String, String),
    Table(String, String, String),
}

/// Whether granting on an object may go ahead, once its database or table
/// was looked up: a missing table is `UnknownTable`, a missing database
/// `UnknownDatabase`; a global grant needs no lookup.
pub fn check_grant_object_exists(object: &GrantObject, exists: bool) -> (r: Result<(), ErrorCode>)
    ensures
        match *object {
            GrantObject::Global => r is Ok,
            GrantObject::Database(_, db) => if exists {
                r is Ok
            } else {
                r matches Err(e) && e.kind == ErrorKind::UnknownDatabase
                    && e.message@ == "database "@ + db@ + " not exists"@
            },
            GrantObject::Table(_, db, t) => if exists {
                r is Ok
            } else {
                r matches Err(e) && e.kind == ErrorKind::UnknownTable
                    && e.message@ == "table "@ + db@ + seq!['.'] + t@ + " not exists"@
            },
        },
{
    match object {
        GrantObject::Global => Ok(()),
        GrantObject::Database(_, db) => {
            if exists {
                return Ok(());
            }
            let mut m = String::new();
            push_str(&mut m, "database ");
            push_str(&mut m, db.as_str());
            push_str(&mut m, " not exists");
            Err(ErrorCode::create(ErrorKind::UnknownDatabase, m))
        },
        GrantObject::Table(_, db, t) => {
            if exists {
                return Ok(());
            }
            let mut m = String::new();
            push_str(&mut m, "table ");
            push_str(&mut m, db.as_str());
            push_char(&mut m, '.');
            push_str(&mut m, t.as_str());
            push_str(&mut m, " not exists");
            Err(ErrorCode::create(ErrorKind::UnknownTable, m))
        },
    }
}

/// The query that describes a stage.
pub fn describe_stage_query(name: &str) -> (r: String)
    ensures
        r@ == "SELECT * FROM system.stages WHERE name = '"@ + name@ + seq!['\''],
{
    let mut q = String::new();
    push_str(&mut q, "SELECT * FROM system.stages WHERE name = '");
    push_str(&mut q, name);
    push_char(&mut q, '\'');
    q
}

/// The directory whose objects are removed with an internal stage.
pub fn internal_stage_path(stage_name: &str) -> (r: String)
    ensures
        r@ == "/stage/"@ + stage_name@ + seq!['/'],
{
    let mut p = String::new();
    push_str(&mut p, "/stage/");
    push_str(&mut p, stage_name);
    push_char(&mut p, '/');
    p
}

} // verus!
