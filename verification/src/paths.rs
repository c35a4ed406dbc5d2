//! Paths of source documents, templates and generated files.
//!
//! A [`SitePath`] is a list of path segments, outermost directory first,
//! with no separator syntax stored. Keeping paths in this shape lets the
//! mapping from a source document to its generated output file be stated
//! and proved exactly: the output path shares the source path's segments,
//! with the file name's extension replaced by `html`.

use vstd::prelude::*;
use vstd::string::StrSliceExecFns;

verus! {

/// A filesystem path as the build pipeline sees it: a sequence of
/// segments, root-to-leaf.
pub struct SitePath {
    /// The path's segments, outermost first.
    pub segments: Vec<String>,
}

impl View for SitePath {
    type V = Seq<Seq<char>>;

    open spec fn view(&self) -> Seq<Seq<char>> {
        self.segments.deep_view()
    }
}

impl Clone for SitePath {
    fn clone(&self) -> (r: Self)
        ensures
            r@ == self@,
    {
        let mut segments: Vec<String> = Vec::new();
        let n = self.segments.len();
        for i in 0..n
            invariant
                n == self.segments.len(),
                segments@.len() == i,
                segments.deep_view() =~= self@.take(i as int),
        {
            segments.push(self.segments[i].clone());
            proof {
                assert(segments.deep_view() =~= self@.take(i + 1));
            }
        }
        proof {
            assert(self@.take(n as int) =~= self@);
        }
        SitePath { segments }
    }
}

impl SitePath {
    /// The path with no segments.
    pub fn empty() -> (r: SitePath)
        ensures
            r@ == Seq::<Seq<char>>::empty(),
    {
        let r = SitePath { segments: Vec::new() };
        proof {
            assert(r@ =~= Seq::<Seq<char>>::empty());
        }
        r
    }

    /// Builds a path from its segments.
    pub fn from_segments(segments: Vec<String>) -> (r: SitePath)
        ensures
            r@ == segments.deep_view(),
    {
        SitePath { segments }
    }

    /// The number of segments.
    pub fn len(&self) -> (r: usize)
        ensures
            r == self@.len(),
    {
        self.segments.len()
    }

    /// The path extended by one further segment.
    pub fn push_segment(&self, name: &str) -> (r: SitePath)
        ensures
            r@ == self@.push(name@),
    {
        let mut r = self.clone();
        r.segments.push(name.to_owned());
        proof {
            assert(r@ =~= self@.push(name@));
        }
        r
    }

    /// The concatenation of two paths.
    pub fn join(&self, other: &SitePath) -> (r: SitePath)
        ensures
            r@ == self@ + other@,
    {
        let ghost whole: Seq<Seq<char>> = self@ + other@;
        let mut segments: Vec<String> = self.clone().segments;
        proof {
            assert(segments.deep_view() =~= whole.take(self@.len() as int));
        }
        let n = other.segments.len();
        for i in 0..n
            invariant
                n == other.segments.len(),
                whole == self@ + other@,
                segments@.len() == self@.len() + i,
                segments.deep_view() =~= whole.take(self@.len() + i),
        {
            segments.push(other.segments[i].clone());
            proof {
                assert(segments.deep_view() =~= whole.take(self@.len() + i + 1));
            }
        }
        proof {
            assert(whole.take(self@.len() + n) =~= whole);
        }
        SitePath { segments }
    }

    /// Whether two paths name the same location.
    pub fn same_as(&self, other: &SitePath) -> (r: bool)
        ensures
            r == (self@ == other@),
    {
        if self.segments.len() != other.segments.len() {
            proof {
                assert(self@.len() != other@.len());
            }
            return false;
        }
        let n = self.segments.len();
        for i in 0..n
            invariant
                n == self.segments.len() == other.segments.len(),
                forall|j: int| 0 <= j < i ==> self@[j] == other@[j],
        {
            if !segment_eq(&self.segments[i], &other.segments[i]) {
                proof {
                    assert(self@[i as int] != other@[i as int]);
                }
                return false;
            }
        }
        proof {
            assert(self@ =~= other@);
        }
        true
    }

    /// Strips `base` from the front of `self`: returns the remaining
    /// segments when `self` lies under `base`, and nothing otherwise.
    pub fn strip_prefix(&self, base: &SitePath) -> (r: Option<SitePath>)
        ensures
            base@.is_prefix_of(self@) ==> (r matches Some(rest) && rest@ == self@.skip(
                base@.len() as int,
            )),
            !base@.is_prefix_of(self@) ==> r is None,
    {
        if base.segments.len() > self.segments.len() {
            return None;
        }
        let k = base.segments.len();
        for i in 0..k
            invariant
                k == base.segments.len() <= self.segments.len(),
                forall|j: int| 0 <= j < i ==> self@[j] == base@[j],
        {
            if !segment_eq(&self.segments[i], &base.segments[i]) {
                proof {
                    assert(self@[i as int] != base@[i as int]);
                    assert(!base@.is_prefix_of(self@));
                }
                return None;
            }
        }
        proof {
            assert(base@ =~= self@.take(k as int));
        }
        let mut rest: Vec<String> = Vec::new();
        let n = self.segments.len();
        for i in k..n
            invariant
                k <= n == self.segments.len(),
                rest@.len() == i - k,
                rest.deep_view() =~= self@.subrange(k as int, i as int),
        {
            rest.push(self.segments[i].clone());
            proof {
                assert(rest.deep_view() =~= self@.subrange(k as int, i + 1));
            }
        }
        proof {
            assert(self@.subrange(k as int, n as int) =~= self@.skip(k as int));
        }
        Some(SitePath { segments: rest })
    }
}

/// Whether two path segments are equal, character for character.
pub fn segment_eq(a: &String, b: &String) -> (r: bool)
    ensures
        r == (a@ == b@),
{
    *a == *b
}

/// Whether `name` has an extension separator: a dot at any position
/// after the first character. A leading dot alone, as in a hidden file's
/// name, does not count as one.
pub open spec fn has_ext_dot(name: Seq<char>) -> bool {
    exists|i: int| 1 <= i < name.len() && name[i] == '.'
}

/// The file name with its extension (and the dot before it) removed;
/// the name itself when it has no extension.
pub open spec fn spec_stem(name: Seq<char>) -> Seq<char>
    decreases name.len(),
{
    if !has_ext_dot(name) {
        name
    } else if name.len() >= 2 && name.last() == '.' {
        name.drop_last()
    } else if name.len() >= 1 {
        spec_stem(name.drop_last())
    } else {
        name
    }
}

/// The file name's extension: the characters after the last extension
/// separator, or nothing when there is none.
pub open spec fn spec_ext(name: Seq<char>) -> Option<Seq<char>> {
    if has_ext_dot(name) {
        Some(name.skip(spec_stem(name).len() as int + 1))
    } else {
        None
    }
}

/// A name whose last extension separator sits at position `i` has the
/// characters before `i` as its stem.
proof fn lemma_stem_at(name: Seq<char>, i: int)
    requires
        1 <= i < name.len(),
        name[i] == '.',
        forall|j: int| i < j < name.len() ==> name[j] != '.',
    ensures
        spec_stem(name) == name.subrange(0, i),
    decreases name.len(),
{
    assert(has_ext_dot(name));
    if i == name.len() - 1 {
        assert(name.drop_last() =~= name.subrange(0, i));
    } else {
        assert(name.last() != '.');
        let shorter = name.drop_last();
        assert(shorter[i] == '.');
        assert(forall|j: int| i < j < shorter.len() ==> shorter[j] != '.');
        lemma_stem_at(shorter, i);
        assert(shorter.subrange(0, i) =~= name.subrange(0, i));
    }
}

/// Finds the position of the last extension separator in `name`.
fn find_ext_dot(name: &str) -> (r: Option<usize>)
    ensures
        r matches Some(i) ==> 1 <= i < name@.len() && name@[i as int] == '.' && (forall|j: int|
            i < j < name@.len() ==> name@[j] != '.'),
        r is None ==> !has_ext_dot(name@),
{
    let n = name.unicode_len();
    let mut last_dot: Option<usize> = None;
    let mut i: usize = 1;
    while i < n
        invariant
            1 <= i,
            n == name@.len(),
            last_dot matches Some(d) ==> 1 <= d < i <= name@.len() && name@[d as int] == '.' && (
            forall|j: int| d < j < i ==> name@[j] != '.'),
            last_dot is None ==> forall|j: int| 1 <= j < i ==> name@[j] != '.',
        decreases n - i,
    {
        if name.get_char(i) == '.' {
            last_dot = Some(i);
        }
        i += 1;
    }
    last_dot
}

/// The file name with its extension replaced by `html`: the stem,
/// then a dot, then `html`. A name with no extension gets `.html`
/// appended whole.
pub open spec fn spec_html_name(name: Seq<char>) -> Seq<char> {
    spec_stem(name) + ".html"@
}

/// Replaces the extension of a file name with `html`.
pub fn replace_extension_html(name: &str) -> (r: String)
    ensures
        r@ == spec_html_name(name@),
{
    let n = name.unicode_len();
    match find_ext_dot(name) {
        Some(i) => {
            proof {
                lemma_stem_at(name@, i as int);
            }
            let stem = name.substring_char(0, i);
            let r = stem.to_owned().concat(".html");
            r
        },
        None => {
            let r = name.to_owned().concat(".html");
            r
        },
    }
}

/// Whether the file name's extension is exactly `ext`.
pub fn has_extension(name: &str, ext: &str) -> (r: bool)
    ensures
        r == (spec_ext(name@) == Some(ext@)),
{
    match find_ext_dot(name) {
        Some(i) => {
            proof {
                lemma_stem_at(name@, i as int);
            }
            let n = name.unicode_len();
            let tail = name.substring_char(i + 1, n);
            let r = tail.to_owned() == ext.to_owned();
            proof {
                assert(spec_ext(name@) == Some(name@.skip(i + 1)));
            }
            r
        },
        None => false,
    }
}

} // verus!
