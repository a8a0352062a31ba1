//! Sandboxed path resolution: classification of an untrusted reference as a
//! `file` URI or a plain path, the segment-aligned containment check against
//! the permitted roots, and the decision logic of absolute and relative
//! resolution over observed canonicalization outcomes.

use vstd::prelude::*;
use crate::error::ToolError;
use crate::roots::RootSet;
use crate::roots::roots_listing;
use crate::strfmt::quoted;
use crate::uri::file_uri;

verus! {

// ------------------------------------------------------------------
// Classification of the caller-supplied reference
// ------------------------------------------------------------------
/// What a reference decodes to when it parses as a URI with scheme `file`
/// (case-insensitive) whose path converts to a local path: that path.
/// The name stands for the url crate's composite
/// `Url::parse` / `Url::scheme` / `Url::to_file_path` computation, a pure
/// function of the reference text.
pub uninterp spec fn file_uri_path(s: Seq<char>) -> Option<Seq<char>>;

/// Whether a reference parses as a URI at all (any scheme). The name stands
/// for the url crate's `Url::parse` succeeding, a pure function of the
/// reference text.
pub uninterp spec fn parses_as_uri(s: Seq<char>) -> bool;

/// Relies on url's `Url::parse`, `Url::scheme` (always lower-case, so the
/// scheme comparison is case-insensitive) and `Url::to_file_path`: decodes a
/// `file`-scheme URI to its local path (rendered as a string, lossily for
/// non-UTF-8 paths), and returns `None` for anything that is not such a URI.
#[verifier::external_body]
fn parse_file_uri(s: &str) -> (r: Option<String>)
    ensures
        match file_uri_path(s@) {
            Some(p) => r matches Some(q) && q@ == p,
            None => r is None,
        },
{
    url::Url::parse(s)
        .ok()
        .filter(|u| u.scheme() == "file")
        .and_then(|u| u.to_file_path().ok())
        .map(|p| p.to_string_lossy().into_owned())
}

/// Relies on url's `Url::parse`: whether the reference parses as a URI at
/// all.
#[verifier::external_body]
fn is_uri_reference(s: &str) -> (r: bool)
    ensures
        r == parses_as_uri(s@),
{
    url::Url::parse(s).is_ok()
}

/// Validate a root candidate advertised by the peer: only a `file` URI that
/// decodes to a local path yields a usable root.
pub fn root_path_from_uri(uri: &str) -> (r: Option<String>)
    ensures
        match file_uri_path(uri@) {
            Some(p) => r matches Some(q) && q@ == p,
            None => r is None,
        },
{
    parse_file_uri(uri)
}

/// A plain path is absolute when it starts with the path separator.
pub open spec fn is_absolute_path(s: Seq<char>) -> bool {
    s.len() > 0 && s[0] == '/'
}

/// The classified form of a caller-supplied reference.
pub enum PathReference {
    /// A `file` URI, decoded to a local path; always treated as absolute.
    FileUri(String),
    /// A URI with a scheme other than `file`, or a `file` URI that does not
    /// decode to a local path; never attempted as a local path.
    OtherUri,
    /// A plain absolute path.
    PlainAbsolute(String),
    /// A plain path relative to the permitted roots.
    PlainRelative(String),
}

/// Classify a caller-supplied reference in a single step.
pub fn classify_reference(reference: &str) -> (r: PathReference)
    ensures
        match file_uri_path(reference@) {
            Some(p) => r matches PathReference::FileUri(q) && q@ == p,
            None => if parses_as_uri(reference@) {
                r is OtherUri
            } else if is_absolute_path(reference@) {
                r matches PathReference::PlainAbsolute(q) && q@ == reference@
            } else {
                r matches PathReference::PlainRelative(q) && q@ == reference@
            },
        },
{
    match parse_file_uri(reference) {
        Some(p) => PathReference::FileUri(p),
        None => {
            if is_uri_reference(reference) {
                PathReference::OtherUri
            } else if reference.unicode_len() > 0 && reference.get_char(0) == '/' {
                PathReference::PlainAbsolute(String::from_str(reference))
            } else {
                PathReference::PlainRelative(String::from_str(reference))
            }
        },
    }
}

// ------------------------------------------------------------------
// Segment-aligned containment
// ------------------------------------------------------------------
/// `root` is a segment-aligned prefix of `path`: a character-level prefix
/// that ends on a path-segment boundary. A plain string prefix is not enough
/// (`/root` must not contain `/root-evil`), so the prefix must be the whole
/// path, end right before a `/`, or itself end with `/`.
pub open spec fn seg_prefix(root: Seq<char>, path: Seq<char>) -> bool {
    &&& root.len() <= path.len()
    &&& path.subrange(0, root.len() as int) == root
    &&& (root.len() == path.len() || path[root.len() as int] == '/' || (root.len() > 0 && root[
        root.len() - 1
    ] == '/'))
}

/// The containment invariant: some permitted root is a segment-aligned
/// prefix of the path.
pub open spec fn contained_in(path: Seq<char>, roots: Seq<Seq<char>>) -> bool {
    exists|i: int| 0 <= i < roots.len() && seg_prefix(#[trigger] roots[i], path)
}

/// A path is always contained in a root set that lists the path itself: the
/// containment check accepts every permitted root as a reference to itself.
pub proof fn lemma_root_contained_in_own_set(roots: Seq<Seq<char>>, i: int)
    requires
        0 <= i < roots.len(),
    ensures
        contained_in(roots[i], roots),
{
    assert(roots[i].subrange(0, roots[i].len() as int) =~= roots[i]);
    assert(seg_prefix(roots[i], roots[i]));
}

/// Decide whether `root` is a segment-aligned prefix of `path`.
pub fn is_seg_prefix(root: &str, path: &str) -> (r: bool)
    ensures
        r == seg_prefix(root@, path@),
{
    let rl = root.unicode_len();
    let pl = path.unicode_len();
    if rl > pl {
        return false;
    }
    let mut i: usize = 0;
    while i < rl
        invariant
            i <= rl,
            rl == root@.len(),
            pl == path@.len(),
            rl <= pl,
            forall|j: int| 0 <= j < i ==> root@[j] == path@[j],
        decreases rl - i,
    {
        if root.get_char(i) != path.get_char(i) {
            proof {
                assert(path@.subrange(0, rl as int)[i as int] == path@[i as int]);
            }
            return false;
        }
        i += 1;
    }
    proof {
        assert(path@.subrange(0, rl as int) =~= root@);
    }
    if rl == pl {
        return true;
    }
    if path.get_char(rl) == '/' {
        return true;
    }
    if rl > 0 && root.get_char(rl - 1) == '/' {
        return true;
    }
    proof {
        assert(!seg_prefix(root@, path@));
    }
    false
}

/// Decide whether `path` is contained in some permitted root.
pub fn is_contained(path: &str, roots: &RootSet) -> (r: bool)
    ensures
        r == contained_in(path@, roots@),
{
    let n = roots.len();
    let mut i: usize = 0;
    while i < n
        invariant
            i <= n,
            n == roots@.len(),
            forall|j: int| 0 <= j < i ==> !seg_prefix(#[trigger] roots@[j], path@),
        decreases n - i,
    {
        if is_seg_prefix(roots.get(i).as_str(), path) {
            return true;
        }
        i += 1;
    }
    false
}

// ------------------------------------------------------------------
// Resolution over observed canonicalization outcomes
// ------------------------------------------------------------------
/// What the operating system answered when a candidate path was
/// canonicalized: the canonical path, "does not exist", or another failure
/// with its diagnostic.
pub enum CanonOutcome {
    Found(String),
    Missing,
    Failed(String),
}

/// Diagnostic for an absolute reference that does not exist.
pub open spec fn not_found_absolute_message(reference: Seq<char>) -> Seq<char> {
    "File not found: "@ + quoted(reference)
        + "\nPlease check the directory listing to confirm the correct path."@
}

/// Diagnostic for a relative reference (or one that is no local path at all)
/// found under no permitted root; it enumerates the current roots.
pub open spec fn not_found_relative_message(reference: Seq<char>, roots: Seq<Seq<char>>) -> Seq<
    char,
> {
    "File not found: "@ + quoted(reference)
        + "\nPlease check the directory listing to confirm the correct path. The path should be either absolute or relative to any of the user’s current workspace directories:\n"@
        + roots_listing(roots)
}

/// How a denied path is shown: absolute paths as `file://` URIs, anything
/// else as the raw path.
pub open spec fn denied_shown(path: Seq<char>) -> Seq<char> {
    if is_absolute_path(path) {
        file_uri(path)
    } else {
        path
    }
}

/// Diagnostic for a real file outside every permitted root; it enumerates
/// the current roots.
pub open spec fn permission_denied_message(path: Seq<char>, roots: Seq<Seq<char>>) -> Seq<char> {
    "Access denied: "@ + quoted(denied_shown(path))
        + "\nThe file is outside the user’s current workspace directories:\n"@ + roots_listing(
        roots,
    )
}

fn not_found_absolute_error(reference: &str) -> (e: ToolError)
    ensures
        e matches ToolError::NotFound(m) && m@ == not_found_absolute_message(reference@),
{
    let mut m = String::from_str("File not found: ");
    let q = crate::strfmt::quote_for_message(reference);
    m.append(q.as_str());
    m.append("\nPlease check the directory listing to confirm the correct path.");
    proof {
        assert(m@ =~= not_found_absolute_message(reference@));
    }
    ToolError::NotFound(m)
}

/// Build the not-found error for a reference that resolved under no
/// permitted root; the diagnostic enumerates the current roots.
pub fn not_found_relative_error(reference: &str, roots: &RootSet) -> (e: ToolError)
    ensures
        e matches ToolError::NotFound(m) && m@ == not_found_relative_message(reference@, roots@),
{
    let mut m = String::from_str("File not found: ");
    let q = crate::strfmt::quote_for_message(reference);
    m.append(q.as_str());
    m.append(
        "\nPlease check the directory listing to confirm the correct path. The path should be either absolute or relative to any of the user’s current workspace directories:\n",
    );
    let listing = roots.as_uri_list();
    m.append(listing.as_str());
    proof {
        assert(m@ =~= not_found_relative_message(reference@, roots@));
    }
    ToolError::NotFound(m)
}

fn permission_denied_error(path: &str, roots: &RootSet) -> (e: ToolError)
    ensures
        e matches ToolError::PermissionDenied(m) && m@ == permission_denied_message(path@, roots@),
{
    let shown: String = if path.unicode_len() > 0 && path.get_char(0) == '/' {
        crate::uri::file_uri_string(path)
    } else {
        String::from_str(path)
    };
    let mut m = String::from_str("Access denied: ");
    let q = crate::strfmt::quote_for_message(shown.as_str());
    m.append(q.as_str());
    m.append("\nThe file is outside the user’s current workspace directories:\n");
    let listing = roots.as_uri_list();
    m.append(listing.as_str());
    proof {
        assert(m@ =~= permission_denied_message(path@, roots@));
    }
    ToolError::PermissionDenied(m)
}

/// Decide an absolute resolution from the observed canonicalization outcome:
/// an existing canonical path passes only the segment-aligned containment
/// check; a missing file is `NotFound`; any other failure propagates as-is.
pub fn resolve_absolute(reference: &str, outcome: CanonOutcome, roots: &RootSet) -> (r: Result<
    String,
    ToolError,
>)
    ensures
        match outcome {
            CanonOutcome::Found(p) => if contained_in(p@, roots@) {
                r matches Ok(q) && q@ == p@
            } else {
                r matches Err(e) && e matches ToolError::PermissionDenied(m) && m@
                    == permission_denied_message(p@, roots@)
            },
            CanonOutcome::Missing => r matches Err(e) && e matches ToolError::NotFound(m) && m@
                == not_found_absolute_message(reference@),
            CanonOutcome::Failed(io) => r matches Err(e) && e matches ToolError::Io(m) && m@
                == io@,
        },
        r matches Ok(q) ==> contained_in(q@, roots@),
{
    match outcome {
        CanonOutcome::Found(p) => {
            if is_contained(p.as_str(), roots) {
                Ok(p)
            } else {
                Err(permission_denied_error(p.as_str(), roots))
            }
        },
        CanonOutcome::Missing => Err(not_found_absolute_error(reference)),
        CanonOutcome::Failed(io) => Err(ToolError::Io(io)),
    }
}

/// The candidate path probed under a root for a relative reference.
pub open spec fn joined_candidate(root: Seq<char>, reference: Seq<char>) -> Seq<char> {
    if root.len() > 0 && root[root.len() - 1] == '/' {
        root + reference
    } else {
        root + seq!['/'] + reference
    }
}

/// Join a root and a relative reference with the path separator.
pub fn relative_candidate(root: &str, reference: &str) -> (r: String)
    ensures
        r@ == joined_candidate(root@, reference@),
{
    let mut out = String::from_str(root);
    let n = root.unicode_len();
    if n == 0 || root.get_char(n - 1) != '/' {
        crate::strfmt::push_char(&mut out, '/');
    }
    out.append(reference);
    proof {
        assert(out@ =~= joined_candidate(root@, reference@));
    }
    out
}

/// How a reference is to be resolved.
pub enum ResolutionQuery {
    /// Canonicalize this path, then run the containment check on the result.
    Absolute(String),
    /// Probe this reference under each permitted root in order.
    Relative(String),
    /// A URI that names no local file: always `NotFound`, never attempted as
    /// a local path.
    Unresolvable,
}

/// Plan the resolution of a caller-supplied reference: a `file` URI or a
/// plain absolute path is resolved absolutely, another URI scheme is never
/// attempted as a local path, and anything else is probed under the
/// permitted roots.
pub fn plan_resolution(reference: &str) -> (q: ResolutionQuery)
    ensures
        match file_uri_path(reference@) {
            Some(p) => q matches ResolutionQuery::Absolute(a) && a@ == p,
            None => if parses_as_uri(reference@) {
                q is Unresolvable
            } else if is_absolute_path(reference@) {
                q matches ResolutionQuery::Absolute(a) && a@ == reference@
            } else {
                q matches ResolutionQuery::Relative(a) && a@ == reference@
            },
        },
{
    match classify_reference(reference) {
        PathReference::FileUri(p) => ResolutionQuery::Absolute(p),
        PathReference::OtherUri => ResolutionQuery::Unresolvable,
        PathReference::PlainAbsolute(p) => ResolutionQuery::Absolute(p),
        PathReference::PlainRelative(p) => ResolutionQuery::Relative(p),
    }
}

/// A root accepts an outcome when the candidate exists and its canonical
/// path is still inside that same root.
pub open spec fn rel_accepts(root: Seq<char>, outcome: CanonOutcome) -> bool {
    outcome matches CanonOutcome::Found(p) && seg_prefix(root, p@)
}

/// A root is skipped when the candidate does not exist there, or exists but
/// escapes the root (treated as not found, never as an error).
pub open spec fn rel_skips(root: Seq<char>, outcome: CanonOutcome) -> bool {
    match outcome {
        CanonOutcome::Found(p) => !seg_prefix(root, p@),
        CanonOutcome::Missing => true,
        CanonOutcome::Failed(_) => false,
    }
}

/// Decide a relative resolution from the canonicalization outcome of
/// `root[i] + "/" + reference` for each root, in order: the first root whose
/// candidate exists and stays inside it wins; a missing or escaping
/// candidate moves to the next root; any other failure aborts; when every
/// root is skipped the reference is `NotFound` and the diagnostic enumerates
/// the roots.
pub fn resolve_relative(reference: &str, roots: &RootSet, outcomes: Vec<CanonOutcome>) -> (r:
    Result<String, ToolError>)
    requires
        outcomes@.len() == roots@.len(),
    ensures
        (match r {
            Ok(p) => exists|i: int|
                {
                    &&& 0 <= i < roots@.len()
                    &&& #[trigger] rel_accepts(roots@[i], outcomes@[i])
                    &&& outcomes@[i] matches CanonOutcome::Found(q) && p@ == q@
                    &&& forall|j: int| 0 <= j < i ==> rel_skips(#[trigger] roots@[j], outcomes@[j])
                },
            Err(e) => match e {
                ToolError::Io(m) => exists|i: int|
                    {
                        &&& 0 <= i < roots@.len()
                        &&& #[trigger] outcomes@[i] matches CanonOutcome::Failed(io) && m@ == io@
                        &&& forall|j: int|
                            0 <= j < i ==> rel_skips(#[trigger] roots@[j], outcomes@[j])
                    },
                ToolError::NotFound(m) => {
                    &&& forall|j: int|
                        0 <= j < roots@.len() ==> rel_skips(#[trigger] roots@[j], outcomes@[j])
                    &&& m@ == not_found_relative_message(reference@, roots@)
                },
                _ => false,
            },
        }),
        r matches Ok(p) ==> contained_in(p@, roots@),
{
    let n = roots.len();
    let mut i: usize = 0;
    while i < n
        invariant
            i <= n,
            n == roots@.len(),
            outcomes@.len() == roots@.len(),
            forall|j: int| 0 <= j < i ==> rel_skips(#[trigger] roots@[j], outcomes@[j]),
        decreases n - i,
    {
        match &outcomes[i] {
            CanonOutcome::Found(p) => {
                if is_seg_prefix(roots.get(i).as_str(), p.as_str()) {
                    assert(rel_accepts(roots@[i as int], outcomes@[i as int]));
                    return Ok(p.clone());
                }
            },
            CanonOutcome::Missing => {},
            CanonOutcome::Failed(io) => {
                return Err(ToolError::Io(io.clone()));
            },
        }
        assert(rel_skips(roots@[i as int], outcomes@[i as int]));
        i += 1;
    }
    Err(not_found_relative_error(reference, roots))
}

} // verus!
