//! Virtual path normalisation and the containment check behind `SafePath`.
//!
//! Paths are byte strings with `/` as separator. A user path is read against a
//! virtual root: `.` and empty components vanish, `..` steps up and is a no-op
//! at the root. Resolving symbolic links needs the filesystem and is done by
//! the caller; the result of that resolution is accepted only by
//! [`SafePath::confirm`], which checks containment.

use vstd::prelude::*;
use crate::bytes::{append_bytes, bytes_eq, copy_range};

verus! {

pub const SLASH: u8 = 47;
pub const DOT: u8 = 46;

/// The stack of components after one more component is read.
pub open spec fn apply_component(stack: Seq<Seq<u8>>, comp: Seq<u8>) -> Seq<Seq<u8>> {
    if comp.len() == 0 || comp == seq![DOT] {
        stack
    } else if comp == seq![DOT, DOT] {
        if stack.len() > 0 {
            stack.drop_last()
        } else {
            stack
        }
    } else {
        stack.push(comp)
    }
}

/// The component stack and the unfinished component after reading `s`.
pub open spec fn scan(s: Seq<u8>) -> (Seq<Seq<u8>>, Seq<u8>)
    decreases s.len(),
{
    if s.len() == 0 {
        (Seq::empty(), Seq::empty())
    } else {
        let prev = scan(s.drop_last());
        if s.last() == SLASH {
            (apply_component(prev.0, prev.1), Seq::empty())
        } else {
            (prev.0, prev.1.push(s.last()))
        }
    }
}

/// The components of `s` below the virtual root, with `.` and `..` collapsed.
pub open spec fn normalized_components(s: Seq<u8>) -> Seq<Seq<u8>> {
    apply_component(scan(s).0, scan(s).1)
}

/// Each component preceded by a separator.
pub open spec fn join_components(cs: Seq<Seq<u8>>) -> Seq<u8>
    decreases cs.len(),
{
    if cs.len() == 0 {
        Seq::empty()
    } else {
        join_components(cs.drop_last()) + seq![SLASH] + cs.last()
    }
}

/// The absolute virtual path that `s` names: `/` when no component is left.
pub open spec fn virtual_path(s: Seq<u8>) -> Seq<u8> {
    if normalized_components(s).len() == 0 {
        seq![SLASH]
    } else {
        join_components(normalized_components(s))
    }
}

/// A component that names an entry: not empty, not `.` or `..`, no separator.
pub open spec fn is_plain_component(c: Seq<u8>) -> bool {
    c.len() > 0 && c != seq![DOT] && c != seq![DOT, DOT] && !c.contains(SLASH)
}

/// The byte strings held by a vector of vectors.
pub open spec fn views(v: Seq<Vec<u8>>) -> Seq<Seq<u8>> {
    Seq::new(v.len(), |i: int| v[i]@)
}

/// Every component that normalisation keeps is a plain name, so the result
/// never steps above the virtual root.
pub proof fn lemma_normalized_components_plain(s: Seq<u8>)
    ensures
        forall|i: int|
            0 <= i < normalized_components(s).len() ==> is_plain_component(
                #[trigger] normalized_components(s)[i],
            ),
{
    lemma_scan_plain(s);
}

proof fn lemma_scan_plain(s: Seq<u8>)
    ensures
        forall|i: int| 0 <= i < scan(s).0.len() ==> is_plain_component(#[trigger] scan(s).0[i]),
        !scan(s).1.contains(SLASH),
        forall|i: int|
            0 <= i < normalized_components(s).len() ==> is_plain_component(
                #[trigger] normalized_components(s)[i],
            ),
    decreases s.len(),
{
    if s.len() > 0 {
        lemma_scan_plain(s.drop_last());
        let prev = scan(s.drop_last());
        if s.last() != SLASH {
            assert forall|b: u8| prev.1.push(s.last()).contains(b) implies b != SLASH by {
                let j = choose|j: int| 0 <= j < prev.1.push(s.last()).len() && prev.1.push(s.last())[j] == b;
                if j < prev.1.len() {
                    assert(prev.1.contains(prev.1[j]));
                }
            }
        }
    }
}

fn is_dot(c: &Vec<u8>) -> (r: bool)
    ensures
        r == (c@ == seq![DOT]),
{
    if c.len() == 1 && c[0] == DOT {
        assert(c@ =~= seq![DOT]);
        true
    } else {
        false
    }
}

fn is_dot_dot(c: &Vec<u8>) -> (r: bool)
    ensures
        r == (c@ == seq![DOT, DOT]),
{
    if c.len() == 2 && c[0] == DOT && c[1] == DOT {
        assert(c@ =~= seq![DOT, DOT]);
        true
    } else {
        false
    }
}

fn apply(stack: &mut Vec<Vec<u8>>, comp: Vec<u8>)
    ensures
        views(final(stack)@) == apply_component(views(old(stack)@), comp@),
{
    if comp.len() == 0 || is_dot(&comp) {
    } else if is_dot_dot(&comp) {
        if stack.len() > 0 {
            stack.pop();
            assert(views(stack@) =~= views(old(stack)@).drop_last());
        }
    } else {
        stack.push(comp);
        assert(views(stack@) =~= views(old(stack)@).push(comp@));
    }
}

/// Splits a path into the components that remain below the virtual root.
pub fn normalize_components(path: &[u8]) -> (stack: Vec<Vec<u8>>)
    ensures
        views(stack@) == normalized_components(path@),
{
    let mut stack: Vec<Vec<u8>> = Vec::new();
    let mut cur: Vec<u8> = Vec::new();
    let mut i: usize = 0;
    assert(path@.subrange(0, 0) =~= Seq::<u8>::empty());
    assert(views(stack@) =~= Seq::<Seq<u8>>::empty());
    while i < path.len()
        invariant
            i <= path@.len(),
            views(stack@) == scan(path@.subrange(0, i as int)).0,
            cur@ == scan(path@.subrange(0, i as int)).1,
        decreases path@.len() - i,
    {
        let b: u8 = path[i];
        proof {
            let next = path@.subrange(0, i + 1);
            assert(next.drop_last() =~= path@.subrange(0, i as int));
            assert(next.last() == b);
        }
        if b == SLASH {
            apply(&mut stack, cur);
            cur = Vec::new();
        } else {
            cur.push(b);
        }
        i = i + 1;
    }
    assert(path@.subrange(0, path@.len() as int) =~= path@);
    apply(&mut stack, cur);
    stack
}

/// Joins components into an absolute path, each preceded by `/`.
pub fn join(components: &Vec<Vec<u8>>) -> (out: Vec<u8>)
    ensures
        out@ == join_components(views(components@)),
{
    let mut out: Vec<u8> = Vec::new();
    let mut i: usize = 0;
    assert(views(components@).subrange(0, 0) =~= Seq::<Seq<u8>>::empty());
    while i < components.len()
        invariant
            i <= components@.len(),
            out@ == join_components(views(components@).subrange(0, i as int)),
        decreases components@.len() - i,
    {
        let ghost before = out@;
        out.push(SLASH);
        append_bytes(&mut out, components[i].as_slice());
        i = i + 1;
        proof {
            let next = views(components@).subrange(0, i as int);
            assert(next.drop_last() =~= views(components@).subrange(0, i - 1));
            assert(next.last() == components@[i - 1]@);
            assert(out@ =~= before + seq![SLASH] + components@[i - 1]@);
        }
    }
    assert(views(components@).subrange(0, components@.len() as int) =~= views(components@));
    out
}

/// The absolute virtual path that `path` names.
pub fn normalize(path: &[u8]) -> (out: Vec<u8>)
    ensures
        out@ == virtual_path(path@),
{
    let components = normalize_components(path);
    if components.len() == 0 {
        let mut out: Vec<u8> = Vec::new();
        out.push(SLASH);
        assert(out@ =~= seq![SLASH]);
        out
    } else {
        join(&components)
    }
}

/// Whether `resolved` is `root` itself or lies below it: `root` followed by a
/// separator is a prefix of it. A root that ends in a separator (the
/// filesystem root) contains every path it is a prefix of.
pub open spec fn is_within(root: Seq<u8>, resolved: Seq<u8>) -> bool {
    root.len() > 0 && root.is_prefix_of(resolved) && (resolved.len() == root.len() || root.last()
        == SLASH || resolved[root.len() as int] == SLASH)
}

/// Whether `resolved` lies strictly below `root`.
pub open spec fn is_strictly_within(root: Seq<u8>, resolved: Seq<u8>) -> bool {
    is_within(root, resolved) && resolved.len() > root.len()
}

/// Joined components are empty or begin with a separator.
pub proof fn lemma_join_starts_with_slash(cs: Seq<Seq<u8>>)
    ensures
        join_components(cs).len() == 0 || join_components(cs)[0] == SLASH,
        cs.len() > 0 ==> join_components(cs).len() > 0,
    decreases cs.len(),
{
    if cs.len() > 0 {
        lemma_join_starts_with_slash(cs.drop_last());
        let head = join_components(cs.drop_last());
        let all = join_components(cs);
        assert(all =~= head + seq![SLASH] + cs.last());
        if head.len() == 0 {
            assert(all[0] == SLASH);
        } else {
            assert(all[0] == head[0]);
        }
    }
}

/// Whatever the user path, the path it names under a root lies within the
/// root before symbolic links are resolved: `..` never climbs above it.
pub proof fn lemma_lexical_within(root: Seq<u8>, path: Seq<u8>)
    requires
        root.len() > 0,
    ensures
        is_within(root, root + join_components(normalized_components(path))),
{
    let tail = join_components(normalized_components(path));
    lemma_join_starts_with_slash(normalized_components(path));
    let full = root + tail;
    assert(root.is_prefix_of(full)) by {
        assert(full.subrange(0, root.len() as int) =~= root);
    }
    if tail.len() > 0 {
        assert(full[root.len() as int] == tail[0]);
    }
}

/// Decides containment of a canonical path in a canonical root.
pub fn within(root: &[u8], resolved: &[u8]) -> (r: bool)
    ensures
        r == is_within(root@, resolved@),
{
    if root.len() == 0 || resolved.len() < root.len() {
        return false;
    }
    let head = vstd::slice::slice_subrange(resolved, 0, root.len());
    if !bytes_eq(root, head) {
        assert(!root@.is_prefix_of(resolved@)) by {
            if root@.is_prefix_of(resolved@) {
                assert(resolved@.subrange(0, root@.len() as int) =~= root@);
            }
        }
        return false;
    }
    assert(root@.is_prefix_of(resolved@)) by {
        assert(resolved@.subrange(0, root@.len() as int) =~= root@);
    }
    resolved.len() == root.len() || root[root.len() - 1] == SLASH || resolved[root.len()] == SLASH
}

/// The error of a path that resolves outside its root.
#[derive(Debug, Clone, Copy, PartialEq, Eq)]
pub struct PathEscape;

/// A path known to lie inside a root after symbolic links were resolved.
#[derive(Debug)]
pub struct SafePath {
    root: Vec<u8>,
    resolved: Vec<u8>,
}

impl SafePath {
    #[verifier::type_invariant]
    spec fn inside(&self) -> bool {
        is_within(self.root@, self.resolved@)
    }

    /// The canonical root.
    pub closed spec fn root_view(&self) -> Seq<u8> {
        self.root@
    }

    /// The canonical resolved path.
    pub closed spec fn resolved_view(&self) -> Seq<u8> {
        self.resolved@
    }

    /// The path under `root` that a user path names before symbolic links are
    /// resolved: the root followed by the normalised components.
    pub fn lexical(root: &[u8], path: &[u8]) -> (out: Vec<u8>)
        ensures
            out@ == root@ + join_components(normalized_components(path@)),
    {
        let components = normalize_components(path);
        let tail = join(&components);
        let mut out = copy_range(root, 0, root.len());
        assert(root@.subrange(0, root@.len() as int) =~= root@);
        append_bytes(&mut out, tail.as_slice());
        out
    }

    /// Accepts a canonical path exactly when it lies within the canonical root.
    pub fn confirm(root: Vec<u8>, resolved: Vec<u8>) -> (r: Result<SafePath, PathEscape>)
        ensures
            r.is_ok() == is_within(root@, resolved@),
            r.is_ok() ==> r.unwrap().root_view() == root@ && r.unwrap().resolved_view()
                == resolved@,
    {
        if within(root.as_slice(), resolved.as_slice()) {
            Ok(SafePath { root, resolved })
        } else {
            Err(PathEscape)
        }
    }

    /// The root this path was confirmed against.
    pub fn root(&self) -> (r: &Vec<u8>)
        ensures
            r@ == self.root_view(),
    {
        &self.root
    }

    /// The resolved path, which lies within the root.
    pub fn resolved(&self) -> (r: &Vec<u8>)
        ensures
            r@ == self.resolved_view(),
            is_within(self.root_view(), r@),
    {
        proof {
            use_type_invariant(self);
        }
        &self.resolved
    }
}

} // verus!
