//! The static file resolver.
//!
//! Given a requested URI path, the resolver decides which output file
//! serves it, trying the path as given, then with `.html` appended,
//! then with `/index.html` appended; the first candidate present in
//! the output tree wins. A path with a `..` segment is rejected, so a
//! request can never escape the output root. The HTTP transport around
//! the resolver lives outside the library; for probes made against a
//! real disk, [`resolve_probes`] states which probe outcome decides.

use vstd::prelude::*;
use vstd::string::StrSliceExecFns;

use crate::paths::{segment_eq, SitePath};
use crate::tree::OutputTree;

verus! {

/// A URI path split at every `/`, kept raw: empty segments stay, and
/// the sequence always holds at least the (possibly empty) segment
/// being read. `a//b` gives `[a, , b]`; the empty path gives `[]`
/// with one empty segment.
pub open spec fn spec_raw_split(s: Seq<char>) -> Seq<Seq<char>>
    decreases s.len(),
{
    if s.len() == 0 {
        seq![Seq::<char>::empty()]
    } else if s.last() == '/' {
        spec_raw_split(s.drop_last()).push(Seq::<char>::empty())
    } else {
        let prev = spec_raw_split(s.drop_last());
        prev.update(prev.len() - 1, prev.last().push(s.last()))
    }
}

/// Whether a raw segment names a real path step: not empty, and not
/// the `.` segment.
pub open spec fn spec_keep_segment(seg: Seq<char>) -> bool {
    seg.len() > 0 && seg != "."@
}

/// The raw segments with empty and `.` segments dropped.
pub open spec fn spec_filtered(raw: Seq<Seq<char>>) -> Seq<Seq<char>>
    decreases raw.len(),
{
    if raw.len() == 0 {
        Seq::empty()
    } else {
        let rest = spec_filtered(raw.drop_last());
        if spec_keep_segment(raw.last()) {
            rest.push(raw.last())
        } else {
            rest
        }
    }
}

/// The real segments of a URI path.
pub open spec fn spec_segments(path: Seq<char>) -> Seq<Seq<char>> {
    spec_filtered(spec_raw_split(path))
}

/// Whether the path tries to step out of the root.
pub open spec fn spec_has_traversal(path: Seq<char>) -> bool {
    exists|i: int| 0 <= i < spec_segments(path).len() && spec_segments(path)[i] == ".."@
}

/// The segments of a request path, or nothing when the path holds a
/// `..` segment and is rejected.
pub open spec fn spec_parse_path(path: Seq<char>) -> Option<Seq<Seq<char>>> {
    if spec_has_traversal(path) {
        None
    } else {
        Some(spec_segments(path))
    }
}

/// Splits a request path into its real segments, rejecting any path
/// with a `..` segment.
pub fn parse_request_path(path: &str) -> (r: Option<SitePath>)
    ensures
        r matches Some(sp) ==> spec_parse_path(path@) == Some(sp@),
        r is None ==> spec_parse_path(path@) is None,
{
    let n = path.unicode_len();
    let dot = ".".to_owned();
    let dotdot = "..".to_owned();
    let mut segments: Vec<String> = Vec::new();
    let mut start: usize = 0;
    let mut j: usize = 0;
    proof {
        assert(path@.take(0) =~= Seq::<char>::empty());
        assert(segments.deep_view() =~= spec_filtered(
            spec_raw_split(path@.take(0)).drop_last(),
        ));
        assert(spec_raw_split(path@.take(0)).last() == path@.subrange(0, 0));
    }
    while j < n
        invariant
            n == path@.len(),
            start <= j <= n,
            dot@ == "."@,
            dotdot@ == ".."@,
            spec_raw_split(path@.take(j as int)).len() >= 1,
            spec_raw_split(path@.take(j as int)).last() == path@.subrange(start as int, j as int),
            segments.deep_view() =~= spec_filtered(
                spec_raw_split(path@.take(j as int)).drop_last(),
            ),
        decreases n - j,
    {
        let ghost raw = spec_raw_split(path@.take(j as int));
        proof {
            assert(path@.take(j + 1).drop_last() =~= path@.take(j as int));
            assert(path@.take(j + 1).last() == path@[j as int]);
        }
        if path.get_char(j) == '/' {
            proof {
                assert(spec_raw_split(path@.take(j + 1)) =~= raw.push(Seq::<char>::empty()));
                assert(spec_raw_split(path@.take(j + 1)).drop_last() =~= raw);
            }
            let seg = path.substring_char(start, j).to_owned();
            if !seg.as_str().is_empty() && !segment_eq(&seg, &dot) {
                segments.push(seg);
                proof {
                    assert(raw.drop_last().push(raw.last()) =~= raw);
                    assert(segments.deep_view() =~= spec_filtered(raw));
                }
            } else {
                proof {
                    assert(raw.drop_last().push(raw.last()) =~= raw);
                    assert(segments.deep_view() =~= spec_filtered(raw));
                }
            }
            start = j + 1;
            proof {
                assert(spec_raw_split(path@.take(j + 1)).last() =~= path@.subrange(
                    j + 1,
                    j + 1,
                ));
            }
        } else {
            proof {
                let prev = raw;
                let grown = spec_raw_split(path@.take(j + 1));
                assert(grown =~= prev.update(prev.len() - 1, prev.last().push(path@[j as int])));
                assert(grown.drop_last() =~= prev.drop_last());
                assert(grown.last() =~= path@.subrange(start as int, j + 1));
            }
        }
        j += 1;
    }
    proof {
        assert(path@.take(n as int) =~= path@);
    }
    let ghost raw = spec_raw_split(path@);
    let seg = path.substring_char(start, n).to_owned();
    if !seg.as_str().is_empty() && !segment_eq(&seg, &dot) {
        segments.push(seg);
        proof {
            assert(raw.drop_last().push(raw.last()) =~= raw);
            assert(segments.deep_view() =~= spec_filtered(raw));
        }
    } else {
        proof {
            assert(raw.drop_last().push(raw.last()) =~= raw);
            assert(segments.deep_view() =~= spec_filtered(raw));
        }
    }
    let k = segments.len();
    for i in 0..k
        invariant
            k == segments@.len(),
            dotdot@ == ".."@,
            segments.deep_view() =~= spec_segments(path@),
            forall|m: int| 0 <= m < i ==> segments.deep_view()[m] != ".."@,
    {
        if segment_eq(&segments[i], &dotdot) {
            proof {
                assert(spec_segments(path@)[i as int] == ".."@);
                assert(spec_has_traversal(path@));
            }
            return None;
        }
        proof {
            assert(segments.deep_view()[i as int] == segments@[i as int]@);
        }
    }
    proof {
        assert(!spec_has_traversal(path@));
    }
    Some(SitePath { segments })
}

/// What one probe of the output tree (or disk) found.
pub enum FileRequestStatus {
    /// File is not found
    NotFound,
    /// File is found, with its content
    Found(String),
    /// Error
    Error,
}

/// A request URI, split into its path and its query.
pub struct UriParts {
    /// The URI's path.
    pub path: String,
    /// The URI's query, if one was given.
    pub query: Option<String>,
}

/// Modifies the path of a URI: appends `appended` to the path and
/// keeps the query as it was.
pub fn append_to_uri(uri: &UriParts, appended: &str) -> (r: UriParts)
    ensures
        r.path@ == uri.path@ + appended@,
        uri.query matches Some(q) ==> (r.query matches Some(q2) && q2@ == q@),
        uri.query is None ==> r.query is None,
{
    let path = uri.path.clone().concat(appended);
    let query = match &uri.query {
        Some(q) => Some(q.clone()),
        None => None,
    };
    UriParts { path, query }
}

/// The file served for one candidate path: the content at the parsed
/// segments under the root, when the path parses and such a file
/// exists.
pub open spec fn spec_request_file(
    m: Map<Seq<Seq<char>>, Seq<char>>,
    root: Seq<Seq<char>>,
    path: Seq<char>,
) -> Option<Seq<char>> {
    match spec_parse_path(path) {
        None => None,
        Some(segs) => {
            if segs.len() > 0 && m.contains_key(root + segs) {
                Some(m[root + segs])
            } else {
                None
            }
        },
    }
}

/// Requests a file: probes the output tree for the file serving one
/// candidate path. A rejected or empty path finds nothing; probing
/// the in-memory tree cannot fail, so the result is never an error.
pub fn request_file(tree: &OutputTree, root: &SitePath, path: &str) -> (r: FileRequestStatus)
    ensures
        r matches FileRequestStatus::Found(c) ==> spec_request_file(tree@, root@, path@) == Some(
            c@,
        ),
        r is NotFound ==> spec_request_file(tree@, root@, path@) is None,
        !(r is Error),
{
    let parsed = match parse_request_path(path) {
        Some(p) => p,
        None => {
            return FileRequestStatus::NotFound;
        },
    };
    if parsed.segments.len() == 0 {
        proof {
            assert(parsed@.len() == parsed.segments@.len());
        }
        return FileRequestStatus::NotFound;
    }
    let key = root.join(&parsed);
    proof {
        assert(parsed@.len() == parsed.segments@.len());
    }
    match tree.get(&key) {
        Some(c) => FileRequestStatus::Found(c.clone()),
        None => FileRequestStatus::NotFound,
    }
}

/// The file served for a request path after the fallback chain: the
/// path as given, then with `.html` appended, then with `/index.html`
/// appended; the first candidate with a file wins.
pub open spec fn spec_resolve(
    m: Map<Seq<Seq<char>>, Seq<char>>,
    root: Seq<Seq<char>>,
    path: Seq<char>,
) -> Option<Seq<char>> {
    if spec_request_file(m, root, path) is Some {
        spec_request_file(m, root, path)
    } else if spec_request_file(m, root, path + ".html"@) is Some {
        spec_request_file(m, root, path + ".html"@)
    } else {
        spec_request_file(m, root, path + "/index.html"@)
    }
}

/// Handles a static file request: resolves the URI's path against the
/// output tree by the fallback chain and returns the file found, or
/// reports that no candidate matched.
pub fn fs_handler(tree: &OutputTree, root: &SitePath, uri: &UriParts) -> (r: FileRequestStatus)
    ensures
        r matches FileRequestStatus::Found(c) ==> spec_resolve(tree@, root@, uri.path@) == Some(
            c@,
        ),
        r is NotFound ==> spec_resolve(tree@, root@, uri.path@) is None,
        !(r is Error),
{
    match request_file(tree, root, uri.path.as_str()) {
        FileRequestStatus::Found(c) => {
            return FileRequestStatus::Found(c);
        },
        _ => {},
    }
    let with_html = append_to_uri(uri, ".html");
    match request_file(tree, root, with_html.path.as_str()) {
        FileRequestStatus::Found(c) => {
            return FileRequestStatus::Found(c);
        },
        _ => {},
    }
    let with_index = append_to_uri(uri, "/index.html");
    match request_file(tree, root, with_index.path.as_str()) {
        FileRequestStatus::Found(c) => {
            return FileRequestStatus::Found(c);
        },
        _ => {},
    }
    FileRequestStatus::NotFound
}

/// Which of an ordered list of probe outcomes decides the response:
/// the first probe that either found a file or failed. A later
/// candidate is consulted only when every earlier probe reported a
/// clean miss, so a real error is never masked as a fallback.
pub fn resolve_probes(probes: &Vec<FileRequestStatus>) -> (r: Option<usize>)
    ensures
        r matches Some(i) ==> i < probes@.len() && !(probes@[i as int] is NotFound) && (forall|
            j: int,
        |
            0 <= j < i ==> probes@[j] is NotFound),
        r is None ==> forall|j: int| 0 <= j < probes@.len() ==> probes@[j] is NotFound,
{
    let n = probes.len();
    for i in 0..n
        invariant
            n == probes@.len(),
            forall|j: int| 0 <= j < i ==> probes@[j] is NotFound,
    {
        match &probes[i] {
            FileRequestStatus::NotFound => {},
            _ => {
                return Some(i);
            },
        }
    }
    None
}

} // verus!
