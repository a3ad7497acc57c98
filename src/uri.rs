//! Turning a user-supplied source (a URI, or an absolute or relative file
//! path) into the URI handed to the media engine.
use vstd::prelude::*;
use vstd::string::*;

verus! {

/// `s` holds the scheme separator `://` starting at position `i`.
pub open spec fn separator_at(s: Seq<char>, i: int) -> bool {
    0 <= i && i + 3 <= s.len() && s[i] == ':' && s[i + 1] == '/' && s[i + 2] == '/'
}

/// The source is taken as a URI as it stands.
pub open spec fn has_scheme_separator(s: Seq<char>) -> bool {
    exists|i: int| #[trigger] separator_at(s, i)
}

/// A Unix path is absolute when it starts at the root.
pub open spec fn is_absolute_path(p: Seq<char>) -> bool {
    p.len() > 0 && p[0] == '/'
}

/// Joining `rel` onto `base` as a Unix path: an absolute `rel` replaces
/// `base`; otherwise one separator goes between them unless `base` is empty
/// or already ends with one.
pub open spec fn join_path(base: Seq<char>, rel: Seq<char>) -> Seq<char> {
    if is_absolute_path(rel) {
        rel
    } else if base.len() == 0 || base.last() == '/' {
        base + rel
    } else {
        base + seq!['/'] + rel
    }
}

/// A source that is neither a URI nor an absolute path is resolved against
/// the working directory.
pub open spec fn needs_working_dir(input: Seq<char>) -> bool {
    !has_scheme_separator(input) && !is_absolute_path(input)
}

/// The `file://` URL of an absolute path.
pub uninterp spec fn file_url_of(path: Seq<char>) -> Seq<char>;

/// The URI that `input` stands for with `cwd` as working directory, or
/// `None` when the resolved path is not absolute.
pub open spec fn source_uri(input: Seq<char>, cwd: Seq<char>) -> Option<Seq<char>> {
    if has_scheme_separator(input) {
        Some(input)
    } else if is_absolute_path(join_path(cwd, input)) {
        Some(file_url_of(join_path(cwd, input)))
    } else {
        None
    }
}

/// `r` is what resolving `input` gives with `cwd` as the outcome of reading
/// the working directory: the read's error only when the directory is
/// needed, else the URI of `source_uri`, or the resolved path when it has
/// none.
pub open spec fn resolves_to(
    input: Seq<char>,
    cwd: Result<String, String>,
    r: Result<String, UriError>,
) -> bool {
    if needs_working_dir(input) && cwd is Err {
        r == Err::<String, UriError>(UriError::WorkingDir(cwd->Err_0))
    } else {
        let dir = if cwd is Ok {
            cwd->Ok_0@
        } else {
            Seq::empty()
        };
        match source_uri(input, dir) {
            Some(u) => r is Ok && r->Ok_0@ == u,
            None => r matches Err(UriError::InvalidFilePath(p)) && p@ == join_path(dir, input),
        }
    }
}

/// Why a source could not be turned into a URI.
#[derive(Debug, PartialEq, Eq)]
pub enum UriError {
    /// The working directory was needed and could not be read.
    WorkingDir(String),
    /// The resolved path is not absolute, so it has no file URL.
    InvalidFilePath(String),
}

/// Relies on `url::Url::from_file_path` with a Unix path: it fails exactly
/// when the path is not absolute, its serialization starts with `file://`,
/// and it depends on the path alone.
#[verifier::external_body]
fn file_url(path: &str) -> (r: Result<String, ()>)
    ensures
        r is Ok <==> is_absolute_path(path@),
        r matches Ok(u) ==> u@ == file_url_of(path@),
        r matches Ok(u) ==> u@.len() >= 7 && u@.take(7) == seq!['f', 'i', 'l', 'e', ':', '/', '/'],
{
    url::Url::from_file_path(std::path::Path::new(path)).map(|u| u.to_string())
}

/// Whether `s` contains `://`.
pub fn contains_scheme_separator(s: &str) -> (r: bool)
    ensures
        r == has_scheme_separator(s@),
{
    let n = s.unicode_len();
    let mut i: usize = 0;
    while n >= 3 && i <= n - 3
        invariant
            n == s@.len(),
            i <= n,
            forall|j: int| 0 <= j < i ==> !separator_at(s@, j),
        decreases n - i,
    {
        if s.get_char(i) == ':' && s.get_char(i + 1) == '/' && s.get_char(i + 2) == '/' {
            assert(separator_at(s@, i as int));
            return true;
        }
        i = i + 1;
    }
    assert forall|j: int| !separator_at(s@, j) by {
        if 0 <= j && j < i {
        } else if j >= i {
            assert(!(j + 3 <= n));
        }
    }
    false
}

/// Whether `p` is an absolute Unix path.
pub fn path_is_absolute(p: &str) -> (r: bool)
    ensures
        r == is_absolute_path(p@),
{
    p.unicode_len() > 0 && p.get_char(0) == '/'
}

/// `rel` joined onto `base` as a Unix path.
pub fn join(base: &str, rel: &str) -> (r: String)
    ensures
        r@ == join_path(base@, rel@),
{
    if path_is_absolute(rel) {
        return rel.to_owned();
    }
    let mut out = base.to_owned();
    let n = base.unicode_len();
    if n > 0 && base.get_char(n - 1) != '/' {
        proof {
            reveal_strlit("/");
        }
        out.append("/");
    }
    out.append(rel);
    out
}

/// The URI to play for `input`: a URI is kept as it is; a path becomes a
/// `file://` URL, a relative one after joining it onto the working
/// directory `cwd` (consulted only then).
pub fn ensure_uri(input: &str, cwd: Result<String, String>) -> (r: Result<String, UriError>)
    ensures
        resolves_to(input@, cwd, r),
{
    if contains_scheme_separator(input) {
        return Ok(input.to_owned());
    }
    let path = if path_is_absolute(input) {
        input.to_owned()
    } else {
        match cwd {
            Ok(dir) => join(dir.as_str(), input),
            Err(e) => {
                return Err(UriError::WorkingDir(e));
            },
        }
    };
    match file_url(path.as_str()) {
        Ok(u) => Ok(u),
        Err(()) => Err(UriError::InvalidFilePath(path)),
    }
}

/// Loading a relative path gives the same URI as loading the absolute path
/// it stands for in its working directory, whatever the working directory is
/// at that second load.
pub proof fn lemma_relative_path_resolves_like_absolute(
    rel: Seq<char>,
    cwd: Seq<char>,
    other_cwd: Seq<char>,
)
    requires
        is_absolute_path(cwd),
        !is_absolute_path(rel),
        !has_scheme_separator(rel),
        !has_scheme_separator(join_path(cwd, rel)),
    ensures
        needs_working_dir(rel),
        !needs_working_dir(join_path(cwd, rel)),
        source_uri(rel, cwd) is Some,
        source_uri(rel, cwd) == source_uri(join_path(cwd, rel), other_cwd),
{
    let abs = join_path(cwd, rel);
    assert(abs[0] == cwd[0]);
    assert(join_path(other_cwd, abs) == abs);
}

} // verus!
