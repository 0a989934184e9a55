//! File tools: parameter handling, glob filtering, windows and result values.
//!
//! The reading, writing and listing themselves happen on the host; this module
//! decides what is asked of the host and what each tool answers.

use vstd::prelude::*;

use crate::executor::ToolExecutionError;
use crate::json::{jobj, jstr, juint, push_entry, json_entries_view, Json, JsonV, NumV};
use crate::text::{contains_str, is_substring, lemma_lex_total, lemma_lex_trans, lex_le, str_eq, str_le, to_chars};
use crate::executor::simple_error;

verus! {

/// Whether `name` matches the glob `pattern`: '*' matches any run of
/// characters, '?' any one character, and every other character itself.
pub open spec fn glob(pattern: Seq<char>, name: Seq<char>) -> bool
    decreases pattern.len(), name.len(),
{
    if pattern.len() == 0 {
        name.len() == 0
    } else if pattern[0] == '*' {
        glob(pattern.drop_first(), name) || (name.len() > 0 && glob(pattern, name.drop_first()))
    } else if pattern[0] == '?' {
        name.len() > 0 && glob(pattern.drop_first(), name.drop_first())
    } else {
        name.len() > 0 && name[0] == pattern[0] && glob(pattern.drop_first(), name.drop_first())
    }
}

/// A pattern starting with '*' matches `name` exactly when the rest of the
/// pattern matches some suffix of `name`.
pub proof fn lemma_glob_star(pattern: Seq<char>, name: Seq<char>)
    requires
        pattern.len() > 0,
        pattern[0] == '*',
    ensures
        glob(pattern, name) == (exists|k: int| 0 <= k <= name.len() && #[trigger] glob(pattern.drop_first(), name.subrange(k, name.len() as int))),
    decreases name.len(),
{
    let rest = pattern.drop_first();
    assert(name.subrange(0, name.len() as int) =~= name);
    if name.len() > 0 {
        let tail = name.drop_first();
        lemma_glob_star(pattern, tail);
        if glob(pattern, name) {
            if !glob(rest, name) {
                let k = choose|k: int| 0 <= k <= tail.len() && #[trigger] glob(rest, tail.subrange(k, tail.len() as int));
                assert(tail.subrange(k, tail.len() as int) =~= name.subrange(k + 1, name.len() as int));
                assert(glob(rest, name.subrange(k + 1, name.len() as int)));
            }
        } else {
            assert forall|k: int| 0 <= k <= name.len() implies !#[trigger] glob(rest, name.subrange(k, name.len() as int)) by {
                if k > 0 {
                    assert(tail.subrange(k - 1, tail.len() as int) =~= name.subrange(k, name.len() as int));
                }
            }
        }
    } else {
        if glob(pattern, name) {
            assert(glob(rest, name.subrange(0, 0)));
        }
    }
}

/// Matches `name` against the glob `pattern`.
pub fn glob_match(pattern: &str, name: &str) -> (r: bool)
    ensures
        r == glob(pattern@, name@),
{
    let p = to_chars(pattern);
    let n = to_chars(name);
    assert(p@.subrange(0, p@.len() as int) =~= p@);
    assert(n@.subrange(0, n@.len() as int) =~= n@);
    glob_match_inner(p.as_slice(), n.as_slice(), 0, 0)
}

/// Matches the suffix of `name` from `ni` against the suffix of `pattern` from `pi`.
pub fn glob_match_inner(pattern: &[char], name: &[char], pi: usize, ni: usize) -> (r: bool)
    requires
        pi <= pattern.len(),
        ni <= name.len(),
    ensures
        r == glob(
            pattern@.subrange(pi as int, pattern@.len() as int),
            name@.subrange(ni as int, name@.len() as int),
        ),
    decreases pattern.len() - pi, name.len() - ni,
{
    let ghost ps = pattern@.subrange(pi as int, pattern@.len() as int);
    let ghost ns = name@.subrange(ni as int, name@.len() as int);
    if pi == pattern.len() && ni == name.len() {
        return true;
    }
    if pi == pattern.len() {
        return false;
    }
    assert(ps[0] == pattern@[pi as int]);
    assert(ps.drop_first() =~= pattern@.subrange(pi + 1, pattern@.len() as int));
    let c = pattern[pi];
    if c == '*' {
        let rem = name.len() - ni;
        let mut skip: usize = 0;
        proof {
            lemma_glob_star(ps, ns);
        }
        loop
            invariant
                pi < pattern.len(),
                ni <= name.len(),
                rem == name.len() - ni,
                skip <= rem,
                ps == pattern@.subrange(pi as int, pattern@.len() as int),
                ns == name@.subrange(ni as int, name@.len() as int),
                ns.len() == rem,
                ps.len() > 0,
                ps[0] == '*',
                glob(ps, ns) == (exists|k: int| 0 <= k <= ns.len() && #[trigger] glob(ps.drop_first(), ns.subrange(k, ns.len() as int))),
                ps.drop_first() =~= pattern@.subrange(pi + 1, pattern@.len() as int),
                forall|k: int| 0 <= k < skip ==> !#[trigger] glob(ps.drop_first(), ns.subrange(k, ns.len() as int)),
            decreases rem - skip,
        {
            assert(ns.subrange(skip as int, ns.len() as int) =~= name@.subrange(ni + skip, name@.len() as int));
            if glob_match_inner(pattern, name, pi + 1, ni + skip) {
                assert(glob(ps.drop_first(), ns.subrange(skip as int, ns.len() as int)));

                return true;
            }
            if skip == rem {
                assert forall|k: int| 0 <= k <= ns.len() implies !#[trigger] glob(ps.drop_first(), ns.subrange(k, ns.len() as int)) by {
                    if k == skip {
                    }
                }

                return false;
            }
            skip = skip + 1;
        }
    } else if c == '?' {
        if ni < name.len() {
            assert(ns.drop_first() =~= name@.subrange(ni + 1, name@.len() as int));
            glob_match_inner(pattern, name, pi + 1, ni + 1)
        } else {
            false
        }
    } else {
        if ni < name.len() && name[ni] == c {
            assert(ns.drop_first() =~= name@.subrange(ni + 1, name@.len() as int));
            glob_match_inner(pattern, name, pi + 1, ni + 1)
        } else {
            false
        }
    }
}


/// A request to read part of a file.
#[derive(Debug, Clone)]
pub struct ReadFileRequest {
    pub path: String,
    pub offset: usize,
    pub limit: Option<usize>,
}

/// Reads the parameters of `read_file`: a path, and an optional byte offset
/// (0 when absent) and byte limit.
pub fn read_file_request(parameters: &Json) -> (r: Result<ReadFileRequest, ToolExecutionError>)
    ensures
        match r {
            Ok(q) => {
                &&& parameters@.get_str("path"@) == Some(q.path@)
                &&& q.offset == (match parameters@.get_u64("offset"@) { Some(o) => o as usize, None => 0 })
                &&& q.limit == (match parameters@.get_u64("limit"@) { Some(l) => Some(l as usize), None => None })
            },
            Err(e) => parameters@.get_str("path"@) is None && e.message@ == "missing required parameter: path"@
                && !e.is_retryable,
        },
{
    let path = match parameters.get_str("path") {
        Some(p) => String::from_str(p),
        None => return Err(ToolExecutionError::simple("missing required parameter: path")),
    };
    let offset: usize = match parameters.get_u64("offset") {
        Some(o) => o as usize,
        None => 0,
    };
    let limit: Option<usize> = match parameters.get_u64("limit") {
        Some(l) => Some(l as usize),
        None => None,
    };
    Ok(ReadFileRequest { path, offset, limit })
}

/// The byte range read from a file of `total` bytes: it starts at the offset
/// (at most the end) and holds at most `limit` bytes.
pub fn read_window(total: usize, offset: usize, limit: Option<usize>) -> (r: (usize, usize))
    ensures
        r.0 == (if offset <= total { offset } else { total }),
        r.1 == (match limit {
            Some(l) => if r.0 + l <= total { (r.0 + l) as usize } else { total },
            None => total,
        }),
        r.0 <= r.1 <= total,
{
    let start = if offset <= total { offset } else { total };
    let end = match limit {
        Some(l) => if l <= total - start { start + l } else { total },
        None => total,
    };
    (start, end)
}

/// The answer of `read_file`: the text read and the byte counts.
pub fn read_file_result(content: String, bytes_read: usize, total_bytes: usize) -> (r: Json)
    ensures
        r@ == JsonV::Object(seq![
            ("content"@, JsonV::Str(content@)),
            ("bytes_read"@, JsonV::Number(NumV::PosInt(bytes_read as u64))),
            ("total_bytes"@, JsonV::Number(NumV::PosInt(total_bytes as u64))),
        ]),
{
    let ghost c = content@;
    let mut e: Vec<(String, Json)> = Vec::new();
    push_entry(&mut e, "content", Json::Str(content));
    push_entry(&mut e, "bytes_read", juint(bytes_read as u64));
    push_entry(&mut e, "total_bytes", juint(total_bytes as u64));
    assert(json_entries_view(e@) =~= seq![
        ("content"@, JsonV::Str(c)),
        ("bytes_read"@, JsonV::Number(NumV::PosInt(bytes_read as u64))),
        ("total_bytes"@, JsonV::Number(NumV::PosInt(total_bytes as u64))),
    ]);
    jobj(e)
}

/// A request to write a file.
#[derive(Debug, Clone)]
pub struct WriteFileRequest {
    pub path: String,
    pub content: String,
}

/// Reads the parameters of `write_file`: a path and the content.
pub fn write_file_request(parameters: &Json) -> (r: Result<WriteFileRequest, ToolExecutionError>)
    ensures
        match r {
            Ok(q) => parameters@.get_str("path"@) == Some(q.path@) && parameters@.get_str("content"@) == Some(q.content@),
            Err(e) => !e.is_retryable && if parameters@.get_str("path"@) is None {
                e.message@ == "missing required parameter: path"@
            } else {
                parameters@.get_str("content"@) is None && e.message@ == "missing required parameter: content"@
            },
        },
{
    let path = match parameters.get_str("path") {
        Some(p) => String::from_str(p),
        None => return Err(ToolExecutionError::simple("missing required parameter: path")),
    };
    let content = match parameters.get_str("content") {
        Some(c) => String::from_str(c),
        None => return Err(ToolExecutionError::simple("missing required parameter: content")),
    };
    Ok(WriteFileRequest { path, content })
}

/// The answer of `write_file`: the path and the number of bytes written.
pub fn write_file_result(req: &WriteFileRequest) -> (r: Json)
    ensures
        r@ == JsonV::Object(seq![
            ("path"@, JsonV::Str(req.path@)),
            ("bytes_written"@, JsonV::Number(NumV::PosInt(vstd::utf8::encode_utf8(req.content@).len() as usize as u64))),
        ]),
{
    let n = req.content.as_str().len();
    let mut e: Vec<(String, Json)> = Vec::new();
    push_entry(&mut e, "path", Json::Str(req.path.clone()));
    push_entry(&mut e, "bytes_written", juint(n as u64));
    assert(json_entries_view(e@) =~= seq![
        ("path"@, JsonV::Str(req.path@)),
        ("bytes_written"@, JsonV::Number(NumV::PosInt(n as u64))),
    ]);
    jobj(e)
}

/// A request to list a directory, optionally filtered by a glob.
#[derive(Debug, Clone)]
pub struct ListDirectoryRequest {
    pub path: String,
    pub pattern: Option<String>,
}

/// Reads the parameters of `list_directory`.
pub fn list_directory_request(parameters: &Json) -> (r: Result<ListDirectoryRequest, ToolExecutionError>)
    ensures
        match r {
            Ok(q) => parameters@.get_str("path"@) == Some(q.path@)
                && crate::json::opt_string_view(q.pattern) == parameters@.get_str("pattern"@),
            Err(e) => parameters@.get_str("path"@) is None && e.message@ == "missing required parameter: path"@
                && !e.is_retryable,
        },
{
    let path = match parameters.get_str("path") {
        Some(p) => String::from_str(p),
        None => return Err(ToolExecutionError::simple("missing required parameter: path")),
    };
    let pattern = match parameters.get_str("pattern") {
        Some(p) => Some(String::from_str(p)),
        None => None,
    };
    Ok(ListDirectoryRequest { path, pattern })
}

/// Whether a directory entry named `name` is listed under the optional glob.
pub fn entry_selected(pattern: &Option<String>, name: &str) -> (r: bool)
    ensures
        r == match pattern {
            Some(p) => glob(p@, name@),
            None => true,
        },
{
    match pattern {
        Some(p) => glob_match(p.as_str(), name),
        None => true,
    }
}

/// One entry of a directory listing.
#[derive(Debug, Clone)]
pub struct DirEntryInfo {
    pub name: String,
    pub is_directory: bool,
    pub size: u64,
}

/// Whether the entries are in ascending order of name.
pub open spec fn sorted_by_name(s: Seq<DirEntryInfo>) -> bool {
    forall|i: int, j: int| 0 <= i < j < s.len() ==> lex_le(#[trigger] s[i].name@, #[trigger] s[j].name@)
}

/// Sorts directory entries by name; entries with equal names keep their order.
pub fn sort_by_name(v: Vec<DirEntryInfo>) -> (r: Vec<DirEntryInfo>)
    ensures
        sorted_by_name(r@),
        r@.to_multiset() == v@.to_multiset(),
        r.len() == v.len(),
{
    broadcast use vstd::seq_lib::group_to_multiset_ensures;
    let mut input = v;
    let ghost orig = input@;
    let mut out: Vec<DirEntryInfo> = Vec::new();
    while input.len() > 0
        invariant
            sorted_by_name(out@),
            out@.to_multiset().add(input@.to_multiset()) == orig.to_multiset(),
            out.len() + input.len() == orig.len(),
        decreases input.len(),
    {
        let ghost before_in = input@;
        let x = input.remove(0);
        proof {
            vstd::seq_lib::to_multiset_remove(before_in, 0);
            vstd::seq_lib::to_multiset_contains(before_in, x);
            assert(before_in[0] == x);
            assert(before_in.contains(x));
        }
        let mut j: usize = 0;
        while j < out.len() && str_le(out[j].name.as_str(), x.name.as_str())
            invariant
                j <= out.len(),
                forall|k: int| 0 <= k < j ==> lex_le(#[trigger] out@[k].name@, x.name@),
            decreases out.len() - j,
        {
            j = j + 1;
        }
        let ghost before_out = out@;
        out.insert(j, x);
        proof {
            vstd::seq_lib::to_multiset_insert(before_out, j as int, x);
            assert forall|a: int, b: int| 0 <= a < b < out@.len() implies lex_le(#[trigger] out@[a].name@, #[trigger] out@[b].name@) by {
                if b == j {
                } else if a == j {
                    lemma_lex_total(x.name@, before_out[j as int].name@);
                    if b - 1 > j {
                        assert(lex_le(before_out[j as int].name@, before_out[b - 1].name@));
                        lemma_lex_trans(x.name@, before_out[j as int].name@, before_out[b - 1].name@);
                    }
                } else {
                    let aa = if a < j { a } else { a - 1 };
                    let bb = if b < j { b } else { b - 1 };
                    assert(out@[a] == before_out[aa]);
                    assert(out@[b] == before_out[bb]);
                    if a < j && b > j {
                        assert(aa < bb);
                    }
                }
            }
            assert(before_in.to_multiset().count(x) > 0);
            assert(out@.to_multiset().add(input@.to_multiset()) =~= before_out.to_multiset().add(before_in.to_multiset()));
        }
    }
    proof {
        assert(input@.to_multiset() =~= vstd::multiset::Multiset::empty());
        assert(out@.to_multiset() =~= orig.to_multiset());
    }
    out
}


/// The JSON form of a directory entry.
pub open spec fn dir_entry_v(e: DirEntryInfo) -> JsonV {
    JsonV::Object(seq![
        ("name"@, JsonV::Str(e.name@)),
        ("is_directory"@, JsonV::Bool(e.is_directory)),
        ("size"@, JsonV::Number(NumV::PosInt(e.size))),
    ])
}

fn dir_entry_json(e: &DirEntryInfo) -> (r: Json)
    ensures
        r@ == dir_entry_v(*e),
{
    let mut m: Vec<(String, Json)> = Vec::new();
    push_entry(&mut m, "name", Json::Str(e.name.clone()));
    push_entry(&mut m, "is_directory", Json::Bool(e.is_directory));
    push_entry(&mut m, "size", juint(e.size));
    assert(json_entries_view(m@) =~= dir_entry_v(*e)->Object_0);
    jobj(m)
}

/// The answer of `list_directory`: the listed entries sorted by name, and their count.
pub fn list_directory_result(path: &str, entries: Vec<DirEntryInfo>) -> (r: Json)
    ensures
        exists|sorted: Seq<DirEntryInfo>| {
            &&& sorted_by_name(sorted)
            &&& sorted.to_multiset() == entries@.to_multiset()
            &&& r@ == JsonV::Object(seq![
                ("path"@, JsonV::Str(path@)),
                ("entries"@, JsonV::Array(sorted.map_values(|e: DirEntryInfo| dir_entry_v(e)))),
                ("count"@, JsonV::Number(NumV::PosInt(entries@.len() as u64))),
            ])
        },
{
    let n = entries.len();
    let sorted = sort_by_name(entries);
    let mut items: Vec<Json> = Vec::new();
    let mut i: usize = 0;
    while i < sorted.len()
        invariant
            i <= sorted.len(),
            items.len() == i,
            forall|k: int| 0 <= k < i ==> #[trigger] items@[k]@ == dir_entry_v(sorted@[k]),
        decreases sorted.len() - i,
    {
        items.push(dir_entry_json(&sorted[i]));
        i = i + 1;
    }
    proof {
        crate::json::lemma_seq_view(items@);
        let target = sorted@.map_values(|e: DirEntryInfo| dir_entry_v(e));
        assert forall|k: int| 0 <= k < items.len() implies #[trigger] crate::json::json_seq_view(items@)[k] == target[k] by {
            assert(crate::json::json_seq_view(items@)[k] == items@[k]@);
        }
        assert(crate::json::json_seq_view(items@) =~= target);
    }
    let mut m: Vec<(String, Json)> = Vec::new();
    push_entry(&mut m, "path", jstr(path));
    push_entry(&mut m, "entries", Json::Array(items));
    push_entry(&mut m, "count", juint(n as u64));
    let ghost target = seq![
        ("path"@, JsonV::Str(path@)),
        ("entries"@, JsonV::Array(sorted@.map_values(|e: DirEntryInfo| dir_entry_v(e)))),
        ("count"@, JsonV::Number(NumV::PosInt(n as u64))),
    ];
    assert(json_entries_view(m@) =~= target);
    jobj(m)
}

/// A request to search the files under a directory for a text.
#[derive(Debug, Clone)]
pub struct SearchFilesRequest {
    pub path: String,
    pub query: String,
    pub pattern: Option<String>,
}

/// At most this many matches are collected by `search_files`.
pub const MAX_SEARCH_MATCHES: usize = 100;

/// Reads the parameters of `search_files`.
pub fn search_files_request(parameters: &Json) -> (r: Result<SearchFilesRequest, ToolExecutionError>)
    ensures
        match r {
            Ok(q) => parameters@.get_str("path"@) == Some(q.path@)
                && parameters@.get_str("query"@) == Some(q.query@)
                && crate::json::opt_string_view(q.pattern) == parameters@.get_str("pattern"@),
            Err(e) => !e.is_retryable && if parameters@.get_str("path"@) is None {
                e.message@ == "missing required parameter: path"@
            } else {
                parameters@.get_str("query"@) is None && e.message@ == "missing required parameter: query"@
            },
        },
{
    let path = match parameters.get_str("path") {
        Some(p) => String::from_str(p),
        None => return Err(ToolExecutionError::simple("missing required parameter: path")),
    };
    let query = match parameters.get_str("query") {
        Some(p) => String::from_str(p),
        None => return Err(ToolExecutionError::simple("missing required parameter: query")),
    };
    let pattern = match parameters.get_str("pattern") {
        Some(p) => Some(String::from_str(p)),
        None => None,
    };
    Ok(SearchFilesRequest { path, query, pattern })
}

/// Directory names that the search does not descend into.
pub open spec fn is_skipped_dir(name: Seq<char>) -> bool {
    name == ".git"@ || name == "target"@ || name == "node_modules"@ || name == ".hg"@
}

/// Whether the search skips a directory with this name.
pub fn skips_directory(name: &str) -> (r: bool)
    ensures
        r == is_skipped_dir(name@),
{
    str_eq(name, ".git") || str_eq(name, "target") || str_eq(name, "node_modules") || str_eq(name, ".hg")
}

/// The JSON form of one match: the file, the 1-based line number and the line.
pub open spec fn match_v(file: Seq<char>, line_no: nat, line: Seq<char>) -> JsonV {
    JsonV::Object(seq![
        ("file"@, JsonV::Str(file)),
        ("line"@, JsonV::Number(NumV::PosInt(line_no as u64))),
        ("content"@, JsonV::Str(line)),
    ])
}

/// The matches a file contributes, given the lines before `upto`: every line
/// that contains the query, in order.
pub open spec fn line_matches(file: Seq<char>, lines: Seq<Seq<char>>, query: Seq<char>, upto: int) -> Seq<JsonV>
    decreases upto,
{
    if upto <= 0 {
        Seq::empty()
    } else {
        line_matches(file, lines, query, upto - 1) + if is_substring(query, lines[upto - 1]) {
            seq![match_v(file, upto as nat, lines[upto - 1])]
        } else {
            Seq::empty()
        }
    }
}

/// Scans the lines of one file and appends a match for every line holding the
/// query, stopping when `max` matches have been collected. The lines are
/// taken in order; the scan stops at the first line seen with `max` matches
/// already collected.
pub fn scan_lines(file: &str, lines: &Vec<String>, query: &str, matches: &mut Vec<Json>, max: usize)
    requires
        lines.len() < u64::MAX,
    ensures
        final(matches)@.len() <= if old(matches)@.len() <= max { max as int } else { old(matches)@.len() as int },
        exists|upto: int| 0 <= upto <= lines.len() && crate::json::json_seq_view(final(matches)@)
            == crate::json::json_seq_view(old(matches)@) + #[trigger] line_matches(file@, crate::text::string_views(lines@), query@, upto)
            && (upto < lines.len() ==> final(matches)@.len() >= max),
{
    let ghost start = old(matches)@;
    let ghost lv = crate::text::string_views(lines@);
    let mut i: usize = 0;
    proof {
        crate::json::lemma_seq_view(matches@);
        assert(crate::json::json_seq_view(matches@) =~= crate::json::json_seq_view(start) + line_matches(file@, lv, query@, 0));
    }
    while i < lines.len()
        invariant
            i <= lines.len(),
            lines.len() < u64::MAX,
            lv == crate::text::string_views(lines@),
            crate::json::json_seq_view(matches@) == crate::json::json_seq_view(start) + line_matches(file@, lv, query@, i as int),
            matches@.len() <= if start.len() <= max { max as int } else { start.len() as int },
            start.len() <= matches@.len(),
            start == old(matches)@,
        decreases lines.len() - i,
    {
        if matches.len() >= max {
            assert(line_matches(file@, lv, query@, i as int) == line_matches(file@, lv, query@, i as int));
            return;
        }
        let ghost before = matches@;
        assert(lv[i as int] == lines@[i as int]@);
        if contains_str(lines[i].as_str(), query) {
            let mut e: Vec<(String, Json)> = Vec::new();
            push_entry(&mut e, "file", jstr(file));
            push_entry(&mut e, "line", juint((i + 1) as u64));
            push_entry(&mut e, "content", Json::Str(lines[i].clone()));
            assert(json_entries_view(e@) =~= match_v(file@, (i + 1) as nat, lv[i as int])->Object_0);
            let item = jobj(e);
            proof {
                crate::json::lemma_seq_view_push(before, item);
            }
            matches.push(item);
        }
        proof {
            assert(crate::json::json_seq_view(matches@) =~= crate::json::json_seq_view(start) + line_matches(file@, lv, query@, i + 1));
        }
        i = i + 1;
    }
    assert(line_matches(file@, lv, query@, lines.len() as int) == line_matches(file@, lv, query@, i as int));
}

/// A line without the carriage return that ends it, if any.
pub open spec fn strip_cr(t: Seq<char>) -> Seq<char> {
    if t.len() > 0 && t.last() == '\r' {
        t.drop_last()
    } else {
        t
    }
}

/// The lines ended within the first `i` characters of `s`, and the part of
/// the line still open after them: a line ends at each `\n`, a `\r` just
/// before it dropped.
pub open spec fn line_scan(s: Seq<char>, i: nat) -> (Seq<Seq<char>>, Seq<char>)
    decreases i,
{
    if i == 0 || i > s.len() {
        (Seq::empty(), Seq::empty())
    } else {
        let (ls, cur) = line_scan(s, (i - 1) as nat);
        if s[i - 1] == '\n' {
            (ls.push(strip_cr(cur)), Seq::empty())
        } else {
            (ls, cur.push(s[i - 1]))
        }
    }
}

/// The lines of `s` as `str::lines` gives them: each ended by `\n` or
/// `\r\n`, the last also by the end of the text (then as it stands).
pub open spec fn lines_of(s: Seq<char>) -> Seq<Seq<char>> {
    let (ls, cur) = line_scan(s, s.len());
    if cur.len() > 0 {
        ls.push(cur)
    } else {
        ls
    }
}

/// The lines of `content`, as `str::lines` splits it.
pub fn split_lines(content: &str) -> (r: Vec<String>)
    ensures
        crate::text::string_views(r@) == lines_of(content@),
        r.len() <= content@.len(),
{
    let cs = to_chars(content);
    let mut out: Vec<String> = Vec::new();
    let mut cur: Vec<char> = Vec::new();
    let mut i: usize = 0;
    while i < cs.len()
        invariant
            i <= cs.len(),
            cs@ == content@,
            (crate::text::string_views(out@), cur@) == line_scan(content@, i as nat),
            out.len() + (if cur.len() > 0 { 1int } else { 0int }) <= i,
        decreases cs.len() - i,
    {
        let c = cs[i];
        if c == '\n' {
            let ghost before = out@;
            let mut line = cur;
            if line.len() > 0 && line[line.len() - 1] == '\r' {
                line.pop();
            }
            let text = crate::text::from_chars(&line);
            out.push(text);
            proof {
                assert(crate::text::string_views(out@) =~= crate::text::string_views(before).push(text@));
            }
            cur = Vec::new();
        } else {
            cur.push(c);
        }
        i = i + 1;
    }
    if cur.len() > 0 {
        let ghost before = out@;
        let text = crate::text::from_chars(&cur);
        out.push(text);
        proof {
            assert(crate::text::string_views(out@) =~= crate::text::string_views(before).push(text@));
        }
    }
    out
}

/// Scans the text of one file line by line, as `scan_lines` does with the
/// lines of `content`.
pub fn scan_content(file: &str, content: &str, query: &str, matches: &mut Vec<Json>, max: usize)
    requires
        content@.len() < u64::MAX,
    ensures
        final(matches)@.len() <= if old(matches)@.len() <= max { max as int } else { old(matches)@.len() as int },
        exists|upto: int| 0 <= upto <= lines_of(content@).len() && crate::json::json_seq_view(final(matches)@)
            == crate::json::json_seq_view(old(matches)@) + #[trigger] line_matches(file@, lines_of(content@), query@, upto)
            && (upto < lines_of(content@).len() ==> final(matches)@.len() >= max),
{
    let lines = split_lines(content);
    scan_lines(file, &lines, query, matches, max);
}

/// The answer of `search_files`: the query, the matches, their count, and
/// whether the limit was reached.
pub fn search_files_result(query: &str, matches: Vec<Json>) -> (r: Json)
    ensures
        r@ == JsonV::Object(seq![
            ("query"@, JsonV::Str(query@)),
            ("matches"@, JsonV::Array(crate::json::json_seq_view(matches@))),
            ("count"@, JsonV::Number(NumV::PosInt(matches@.len() as u64))),
            ("truncated"@, JsonV::Bool(matches@.len() >= MAX_SEARCH_MATCHES)),
        ]),
{
    let n = matches.len();
    let ghost mv = crate::json::json_seq_view(matches@);
    let mut m: Vec<(String, Json)> = Vec::new();
    push_entry(&mut m, "query", jstr(query));
    push_entry(&mut m, "matches", Json::Array(matches));
    push_entry(&mut m, "count", juint(n as u64));
    push_entry(&mut m, "truncated", Json::Bool(n >= MAX_SEARCH_MATCHES));
    assert(json_entries_view(m@) =~= seq![
        ("query"@, JsonV::Str(query@)),
        ("matches"@, JsonV::Array(mv)),
        ("count"@, JsonV::Number(NumV::PosInt(n as u64))),
        ("truncated"@, JsonV::Bool(n >= MAX_SEARCH_MATCHES)),
    ]);
    jobj(m)
}

/// The error answered when a file tool's host operation fails: the action,
/// the path in backquotes, and the host's error text.
pub fn host_failure(action: &str, path: &str, detail: &str) -> (r: ToolExecutionError)
    ensures
        r.message@ == action@ + " `"@ + path@ + "`: "@ + detail@,
        r.remediation_hint is None,
        !r.is_retryable,
{
    let mut msg = String::from_str(action);
    msg.append(" `");
    msg.append(path);
    msg.append("`: ");
    msg.append(detail);
    simple_error(msg)
}

} // verus!
