//! The security boundary: deciding whether a filesystem path lies under one
//! of the configured accessible roots, and whether a shell command string is
//! permitted by a prefix allow-list.
//!
//! Paths are compared in canonical form (absolute, symlink-free), and the
//! containment test is segment-wise: a root `/tmp/ab` does not match
//! `/tmp/abc`. Canonicalization itself depends on the filesystem and stands
//! behind two small trusted wrappers; everything that decides is verified
//! over the byte strings they hand back.

use vstd::prelude::*;
use vstd::slice::slice_to_vec;
use vstd::utf8::encode_utf8;
use crate::clone_strings;

verus! {

/// The path separator byte, `/`.
pub const SLASH: u8 = 47;

/// The byte of `.`, the relative name of the current working directory.
pub const DOT: u8 = 46;

/// `p` is a prefix of `s`, byte for byte.
pub open spec fn is_seq_prefix(p: Seq<u8>, s: Seq<u8>) -> bool {
    p.len() <= s.len() && s.take(p.len() as int) == p
}

/// `target` lies at or below `root` in the directory tree: it is `root`
/// itself, or extends it at a segment boundary. Both are expected in
/// canonical form, where only the filesystem root ends in a separator.
pub open spec fn descends_from(target: Seq<u8>, root: Seq<u8>) -> bool {
    target == root || (target.len() > root.len() && target.take(root.len() as int) == root && (
    target[root.len() as int] == SLASH || (root.len() > 0 && root[root.len() - 1] == SLASH)))
}

/// A canonical target is accessible iff it descends from at least one of the
/// canonical roots.
pub open spec fn path_accessible(target: Seq<u8>, roots: Seq<Seq<u8>>) -> bool {
    exists|i: int| 0 <= i < roots.len() && descends_from(target, #[trigger] roots[i])
}

/// A command is allowed iff the allow-list is empty (the check is switched
/// off) or the command starts with at least one configured prefix.
pub open spec fn command_allowed(command: Seq<u8>, prefixes: Seq<Seq<u8>>) -> bool {
    prefixes.len() == 0 || exists|i: int|
        0 <= i < prefixes.len() && is_seq_prefix(#[trigger] prefixes[i], command)
}

/// The UTF-8 encodings of a sequence of strings.
pub open spec fn bytes_of_strings(v: Seq<Seq<char>>) -> Seq<Seq<u8>> {
    v.map_values(|s: Seq<char>| encode_utf8(s))
}

/// The position of the last separator in `p`, if any.
pub open spec fn last_slash(p: Seq<u8>) -> Option<int>
    decreases p.len(),
{
    if p.len() == 0 {
        None
    } else if p[p.len() - 1] == SLASH {
        Some(p.len() - 1)
    } else {
        last_slash(p.take(p.len() - 1))
    }
}

/// Everything before the trailing separators, if any.
pub open spec fn strip_trailing_slashes(p: Seq<u8>) -> Seq<u8>
    decreases p.len(),
{
    if p.len() > 0 && p[p.len() - 1] == SLASH {
        strip_trailing_slashes(p.drop_last())
    } else {
        p
    }
}

/// The directory a non-existent path would be created in. Trailing
/// separators are ignored; then everything before the last separator is the
/// parent, itself shorn of separators: `.` for a bare filename, the
/// filesystem root for a top-level name. An empty path, and the root
/// itself, have no parent.
pub open spec fn spec_parent(p: Seq<u8>) -> Option<Seq<u8>> {
    let q = strip_trailing_slashes(p);
    if q.len() == 0 {
        None
    } else {
        match last_slash(q) {
            None => Some(seq![DOT]),
            Some(i) => {
                let par = strip_trailing_slashes(q.take(i));
                if par.len() == 0 {
                    Some(seq![SLASH])
                } else {
                    Some(par)
                }
            },
        }
    }
}

/// Why a path check failed.
pub enum AccessError {
    /// The path does not exist and has no parent segment to resolve.
    NoParentDirectory { path: String },
    /// The path (or, for a new file, its parent directory) could not be
    /// canonicalized: it may not exist, or permissions forbid resolving it.
    /// `attempted` holds what was handed to canonicalization and `cause` the
    /// underlying error's text.
    PathResolutionFailed { path: String, attempted: Vec<u8>, cause: String },
    /// Canonicalization succeeded but no configured root contains the path.
    NotAccessible { path: String, roots: Vec<String> },
}

/// Why a command check failed.
pub enum CommandError {
    /// The command starts with none of the configured prefixes.
    CommandDenied { command: String, prefixes: Vec<String> },
}

/// Relies on std::path::Path::exists: whether the path refers to an entity
/// that exists on the filesystem. The result depends on the state of the
/// filesystem, so nothing is claimed of it.
#[verifier::external_body]
fn path_exists(path: &str) -> bool {
    std::path::Path::new(path).exists()
}

/// Relies on std::path::Path::canonicalize: the canonical, absolute,
/// symlink-free form of the path, as the operating system's own path bytes,
/// unchanged; or the error's text if resolution fails. The result depends
/// on the state of the filesystem, so nothing is claimed of it.
#[verifier::external_body]
fn canonicalize_bytes(path: &Vec<u8>) -> Result<Vec<u8>, String> {
    let s = String::from_utf8_lossy(path);
    match std::path::Path::new(s.as_ref()).canonicalize() {
        Ok(p) => Ok(p.into_os_string().into_encoded_bytes()),
        Err(e) => Err(e.to_string()),
    }
}

/// The position of the last separator, exactly as [`last_slash`] says.
fn find_last_slash(p: &Vec<u8>) -> (r: Option<usize>)
    ensures
        r is None <==> last_slash(p@) is None,
        r matches Some(i) ==> i < p@.len() && last_slash(p@) == Some(i as int),
{
    let mut j: usize = p.len();
    proof {
        assert(p@.take(p@.len() as int) =~= p@);
    }
    while j > 0
        invariant
            j <= p.len(),
            last_slash(p@) == last_slash(p@.take(j as int)),
        decreases j,
    {
        if p[j - 1] == SLASH {
            proof {
                assert(p@.take(j as int)[j - 1] == SLASH);
            }
            return Some(j - 1);
        }
        proof {
            assert(p@.take(j as int)[j - 1] != SLASH);
            assert(p@.take(j as int).take(j - 1) =~= p@.take(j - 1));
        }
        j -= 1;
    }
    proof {
        assert(p@.take(0) =~= Seq::<u8>::empty());
    }
    None
}

/// How many leading bytes remain once trailing separators are dropped,
/// exactly as [`strip_trailing_slashes`] says.
fn stripped_len(p: &Vec<u8>) -> (n: usize)
    ensures
        n <= p@.len(),
        p@.take(n as int) == strip_trailing_slashes(p@),
{
    let mut n: usize = p.len();
    proof {
        assert(p@.take(p@.len() as int) =~= p@);
    }
    while n > 0
        invariant
            n <= p@.len(),
            strip_trailing_slashes(p@) == strip_trailing_slashes(p@.take(n as int)),
        decreases n,
    {
        if p[n - 1] != SLASH {
            proof {
                assert(p@.take(n as int)[n - 1] != SLASH);
            }
            return n;
        }
        proof {
            assert(p@.take(n as int)[n - 1] == SLASH);
            assert(p@.take(n as int).drop_last() =~= p@.take(n - 1));
        }
        n -= 1;
    }
    proof {
        assert(p@.take(0) =~= Seq::<u8>::empty());
    }
    0
}

/// The first `n` bytes of `p`, copied.
fn take_bytes(p: &Vec<u8>, n: usize) -> (r: Vec<u8>)
    requires
        n <= p@.len(),
    ensures
        r@ == p@.take(n as int),
{
    let mut r: Vec<u8> = Vec::new();
    proof {
        assert(r@ =~= p@.take(0));
    }
    let mut k: usize = 0;
    while k < n
        invariant
            k <= n,
            n <= p@.len(),
            r@ == p@.take(k as int),
        decreases n - k,
    {
        r.push(p[k]);
        proof {
            assert(r@ =~= p@.take(k + 1));
        }
        k += 1;
    }
    r
}

/// The parent directory to check for a path that does not exist, exactly as
/// [`spec_parent`] describes it.
fn parent_path(p: &Vec<u8>) -> (r: Option<Vec<u8>>)
    ensures
        r is Some <==> spec_parent(p@) is Some,
        r matches Some(v) ==> spec_parent(p@) == Some(v@),
{
    let n = stripped_len(p);
    if n == 0 {
        // nothing but separators, or empty: no parent to resolve
        return None;
    }
    let q = take_bytes(p, n);
    match find_last_slash(&q) {
        None => {
            // no separator: a bare filename resolves against the working directory
            let mut v: Vec<u8> = Vec::new();
            v.push(DOT);
            proof {
                assert(v@ =~= seq![DOT]);
            }
            Some(v)
        },
        Some(i) => {
            let before = take_bytes(&q, i);
            let m = stripped_len(&before);
            if m == 0 {
                // a top-level name: the parent is the filesystem root
                let mut v: Vec<u8> = Vec::new();
                v.push(SLASH);
                proof {
                    assert(v@ =~= seq![SLASH]);
                }
                Some(v)
            } else {
                Some(take_bytes(&before, m))
            }
        },
    }
}

/// Whether `target` lies at or below `root`, segment-wise.
pub fn is_descendant(target: &Vec<u8>, root: &Vec<u8>) -> (r: bool)
    ensures
        r == descends_from(target@, root@),
{
    if root.len() > target.len() {
        return false;
    }
    let mut k: usize = 0;
    while k < root.len()
        invariant
            k <= root.len(),
            root.len() <= target.len(),
            forall|j: int| 0 <= j < k ==> target@[j] == root@[j],
        decreases root.len() - k,
    {
        if target[k] != root[k] {
            proof {
                assert(target@.take(root@.len() as int)[k as int] != root@[k as int]);
                assert(target@ != root@);
            }
            return false;
        }
        k += 1;
    }
    proof {
        assert(target@.take(root@.len() as int) =~= root@);
    }
    if target.len() == root.len() {
        proof {
            assert(target@ =~= root@);
        }
        true
    } else {
        target[root.len()] == SLASH || (root.len() > 0 && root[root.len() - 1] == SLASH)
    }
}

/// Whether a canonical target descends from any of the canonical roots.
pub fn accessible_from(target: &Vec<u8>, roots: &Vec<Vec<u8>>) -> (r: bool)
    ensures
        r == path_accessible(target@, roots.deep_view()),
{
    let mut i: usize = 0;
    while i < roots.len()
        invariant
            i <= roots.len(),
            forall|k: int| 0 <= k < i ==> !descends_from(target@, #[trigger] roots.deep_view()[k]),
        decreases roots.len() - i,
    {
        if is_descendant(target, &roots[i]) {
            proof {
                assert(roots.deep_view()[i as int] =~= roots@[i as int]@);
                assert(descends_from(target@, roots.deep_view()[i as int]));
            }
            return true;
        }
        proof {
            assert(roots.deep_view()[i as int] =~= roots@[i as int]@);
        }
        i += 1;
    }
    false
}

/// Checks if a given file path is within the list of accessible paths.
///
/// If the path exists, the path itself must lie under an accessible root; if
/// it does not exist (a file about to be created), its parent directory
/// must. Paths are canonicalized before comparison; a configured root that
/// fails to canonicalize simply grants no access, rather than failing the
/// whole check.
pub fn is_path_accessible(path: &str, accessible_paths: &Vec<String>) -> (r: Result<
    (),
    AccessError,
>)
    ensures
        accessible_paths@.len() == 0 ==> !(r is Ok),
        r matches Err(AccessError::NoParentDirectory { path: p }) ==> p@ == path@ && spec_parent(
            encode_utf8(path@),
        ) is None,
        r matches Err(AccessError::PathResolutionFailed { path: p, attempted, .. }) ==> p@
            == path@ && (attempted@ == encode_utf8(path@) || Some(attempted@) == spec_parent(
            encode_utf8(path@),
        )),
        r matches Err(AccessError::NotAccessible { path: p, roots }) ==> p@ == path@
            && roots.deep_view() == accessible_paths.deep_view(),
{
    let exists = path_exists(path);
    let target: Vec<u8> = slice_to_vec(path.as_bytes());
    let base: Vec<u8> = if exists {
        target
    } else {
        match parent_path(&target) {
            None => {
                return Err(AccessError::NoParentDirectory { path: path.to_owned() });
            },
            Some(parent) => parent,
        }
    };
    let canonical = match canonicalize_bytes(&base) {
        Err(cause) => {
            return Err(
                AccessError::PathResolutionFailed {
                    path: path.to_owned(),
                    attempted: base,
                    cause,
                },
            );
        },
        Ok(c) => c,
    };
    let mut canonical_roots: Vec<Vec<u8>> = Vec::new();
    let mut i: usize = 0;
    while i < accessible_paths.len()
        invariant
            accessible_paths@.len() == 0 ==> canonical_roots@.len() == 0,
        decreases accessible_paths.len() - i,
    {
        let root_bytes: Vec<u8> = slice_to_vec(accessible_paths[i].as_str().as_bytes());
        if let Ok(canonical_root) = canonicalize_bytes(&root_bytes) {
            canonical_roots.push(canonical_root);
        }
        i += 1;
    }
    if accessible_from(&canonical, &canonical_roots) {
        Ok(())
    } else {
        Err(
            AccessError::NotAccessible {
                path: path.to_owned(),
                roots: clone_strings(accessible_paths),
            },
        )
    }
}

/// Checks if a shell command is allowed based on a prefix allow-list. An
/// empty list switches the check off: every command is allowed. This is a
/// coarse, case-sensitive textual test, not a shell parser.
pub fn is_command_allowed(command: &str, allowed_prefixes: &Vec<String>) -> (r: Result<
    (),
    CommandError,
>)
    ensures
        r is Ok <==> command_allowed(
            encode_utf8(command@),
            bytes_of_strings(allowed_prefixes.deep_view()),
        ),
        r matches Err(CommandError::CommandDenied { command: c, prefixes }) ==> c@ == command@
            && prefixes.deep_view() == allowed_prefixes.deep_view(),
{
    let ghost prefix_views: Seq<Seq<u8>> = bytes_of_strings(allowed_prefixes.deep_view());
    if allowed_prefixes.len() == 0 {
        return Ok(());
    }
    let command_bytes: Vec<u8> = slice_to_vec(command.as_bytes());
    let mut i: usize = 0;
    while i < allowed_prefixes.len()
        invariant
            i <= allowed_prefixes.len(),
            allowed_prefixes@.len() > 0,
            command_bytes@ == encode_utf8(command@),
            prefix_views == bytes_of_strings(allowed_prefixes.deep_view()),
            forall|k: int| 0 <= k < i ==> !is_seq_prefix(
                #[trigger] prefix_views[k],
                encode_utf8(command@),
            ),
        decreases allowed_prefixes.len() - i,
    {
        let prefix_bytes: Vec<u8> = slice_to_vec(allowed_prefixes[i].as_str().as_bytes());
        proof {
            assert(prefix_bytes@ == prefix_views[i as int]);
        }
        if starts_with_bytes(&command_bytes, &prefix_bytes) {
            return Ok(());
        }
        i += 1;
    }
    Err(
        CommandError::CommandDenied {
            command: command.to_owned(),
            prefixes: clone_strings(allowed_prefixes),
        },
    )
}

/// Whether `s` starts with `p`, byte for byte.
fn starts_with_bytes(s: &Vec<u8>, p: &Vec<u8>) -> (r: bool)
    ensures
        r == is_seq_prefix(p@, s@),
{
    if p.len() > s.len() {
        return false;
    }
    let mut k: usize = 0;
    while k < p.len()
        invariant
            k <= p.len(),
            p.len() <= s.len(),
            forall|j: int| 0 <= j < k ==> s@[j] == p@[j],
        decreases p.len() - k,
    {
        if s[k] != p[k] {
            proof {
                assert(s@.take(p@.len() as int)[k as int] != p@[k as int]);
            }
            return false;
        }
        k += 1;
    }
    proof {
        assert(s@.take(p@.len() as int) =~= p@);
    }
    true
}

/// Law: a path at or below any single configured root is accessible,
/// whichever root it is.
pub proof fn lemma_root_member_grants_access(target: Seq<u8>, roots: Seq<Seq<u8>>, i: int)
    requires
        0 <= i < roots.len(),
        descends_from(target, roots[i]),
    ensures
        path_accessible(target, roots),
{
}

/// Law: descending is transitive, so access granted to a root extends to
/// subdirectories nested arbitrarily deep below it.
pub proof fn lemma_descends_transitive(a: Seq<u8>, b: Seq<u8>, c: Seq<u8>)
    requires
        descends_from(a, b),
        descends_from(b, c),
    ensures
        descends_from(a, c),
{
    if a == b || b == c {
    } else {
        assert(a.take(b.len() as int).take(c.len() as int) =~= a.take(c.len() as int));
        if c.len() > 0 && c[c.len() - 1] == SLASH {
        } else {
            assert(a.take(b.len() as int)[c.len() as int] == b[c.len() as int]);
        }
    }
}

/// Law: a name joined directly under a root descends from it.
pub proof fn lemma_child_descends(root: Seq<u8>, name: Seq<u8>)
    ensures
        descends_from(root + seq![SLASH] + name, root),
{
    let t = root + seq![SLASH] + name;
    assert(t.take(root.len() as int) =~= root);
    assert(t[root.len() as int] == SLASH);
}

/// Law: a path that descends from none of the roots is not accessible.
pub proof fn lemma_outside_all_roots_not_accessible(target: Seq<u8>, roots: Seq<Seq<u8>>)
    requires
        forall|i: int| 0 <= i < roots.len() ==> !descends_from(target, #[trigger] roots[i]),
    ensures
        !path_accessible(target, roots),
{
}

/// Law: accessibility is not upward. A root strictly below a path never
/// grants access to the path above it.
pub proof fn lemma_no_upward_access(target: Seq<u8>, root: Seq<u8>)
    requires
        descends_from(root, target),
        root != target,
    ensures
        !descends_from(target, root),
{
}

/// Law: an empty prefix list allows every command, including the empty one.
pub proof fn lemma_empty_prefix_list_allows_all(command: Seq<u8>)
    ensures
        command_allowed(command, Seq::<Seq<u8>>::empty()),
{
}

/// Law: with a non-empty prefix list, a command is allowed iff it starts
/// with at least one configured prefix.
pub proof fn lemma_prefix_governs(command: Seq<u8>, prefixes: Seq<Seq<u8>>)
    requires
        prefixes.len() > 0,
    ensures
        command_allowed(command, prefixes) <==> exists|i: int|
            0 <= i < prefixes.len() && is_seq_prefix(#[trigger] prefixes[i], command),
{
}

} // verus!
