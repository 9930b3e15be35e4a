//! Paths as sequences of names.
//!
//! A path is the list of its components, outermost first. Nothing is said of
//! separators or of what a name may hold: two paths are the same when they
//! have the same components, and one lies under another when the other's
//! components are its first ones.

use vstd::prelude::*;

verus! {

/// A path, one `String` per component.
#[derive(Debug)]
pub struct TreePath {
    pub components: Vec<String>,
}

impl View for TreePath {
    type V = Seq<Seq<char>>;

    open spec fn view(&self) -> Seq<Seq<char>> {
        Seq::new(self.components@.len(), |i: int| self.components@[i]@)
    }
}

/// The part of `path` that follows `base`, for a `path` that lies under `base`.
pub open spec fn relative_to(path: Seq<Seq<char>>, base: Seq<Seq<char>>) -> Seq<Seq<char>> {
    path.skip(base.len() as int)
}

/// Where `path`, found under `from`, belongs under `to`: the same relative
/// path, with `to` in front.
pub open spec fn mirrored(from: Seq<Seq<char>>, to: Seq<Seq<char>>, path: Seq<Seq<char>>) -> Seq<
    Seq<char>,
> {
    to + relative_to(path, from)
}

impl TreePath {
    /// The path with no components.
    pub fn new() -> (p: TreePath)
        ensures
            p@ == Seq::<Seq<char>>::empty(),
    {
        let p = TreePath { components: Vec::new() };
        assert(p@ =~= Seq::<Seq<char>>::empty());
        p
    }

    /// The path made of the given components, in their order.
    pub fn from_components(components: Vec<String>) -> (p: TreePath)
        ensures
            p.components == components,
    {
        TreePath { components }
    }

    /// How many components the path has.
    pub fn len(&self) -> (n: usize)
        ensures
            n == self@.len(),
    {
        self.components.len()
    }

    /// Whether the first components of `self` are those of `base`.
    pub fn starts_with(&self, base: &TreePath) -> (b: bool)
        ensures
            b == base@.is_prefix_of(self@),
    {
        let n = base.components.len();
        if self.components.len() < n {
            return false;
        }
        let mut i: usize = 0;
        while i < n
            invariant
                n == base.components@.len(),
                n <= self.components@.len(),
                i <= n,
                forall|j: int| 0 <= j < i ==> self@[j] == base@[j],
            decreases n - i,
        {
            if self.components[i] != base.components[i] {
                assert(self@[i as int] != base@[i as int]);
                return false;
            }
            i += 1;
        }
        assert(base@ =~= self@.subrange(0, base@.len() as int));
        true
    }

    /// A copy of the components from position `start` on.
    fn tail_from(&self, start: usize) -> (p: TreePath)
        requires
            start <= self@.len(),
        ensures
            p@ == self@.skip(start as int),
    {
        let mut out: Vec<String> = Vec::new();
        let mut i: usize = start;
        while i < self.components.len()
            invariant
                start <= i <= self.components@.len(),
                out@.len() == i - start,
                forall|j: int| 0 <= j < out@.len() ==> out@[j]@ == self@[start + j],
            decreases self.components@.len() - i,
        {
            out.push(self.components[i].clone());
            i += 1;
        }
        let p = TreePath { components: out };
        assert(p@ =~= self@.skip(start as int));
        p
    }

    /// The path that is left when `base` is taken from the front of `self`;
    /// `None` when `self` does not lie under `base`.
    pub fn strip_prefix(&self, base: &TreePath) -> (r: Option<TreePath>)
        ensures
            match r {
                Some(rest) => base@.is_prefix_of(self@) && rest@ == relative_to(self@, base@),
                None => !base@.is_prefix_of(self@),
            },
    {
        if self.starts_with(base) {
            Some(self.tail_from(base.components.len()))
        } else {
            None
        }
    }

    /// `self` followed by the components of `rest`.
    pub fn join(&self, rest: &TreePath) -> (p: TreePath)
        ensures
            p@ == self@ + rest@,
    {
        let mut out: Vec<String> = Vec::new();
        let mut i: usize = 0;
        while i < self.components.len()
            invariant
                i <= self.components@.len(),
                out@.len() == i,
                forall|j: int| 0 <= j < i ==> out@[j]@ == self@[j],
            decreases self.components@.len() - i,
        {
            out.push(self.components[i].clone());
            i += 1;
        }
        let mut k: usize = 0;
        while k < rest.components.len()
            invariant
                k <= rest.components@.len(),
                out@.len() == self@.len() + k,
                forall|j: int| 0 <= j < self@.len() ==> out@[j]@ == self@[j],
                forall|j: int| 0 <= j < k ==> out@[self@.len() + j]@ == rest@[j],
            decreases rest.components@.len() - k,
        {
            out.push(rest.components[k].clone());
            k += 1;
        }
        let p = TreePath { components: out };
        assert(p@ =~= self@ + rest@);
        p
    }

    /// The place under `to` of a path that lies under `from`.
    pub fn mirror(&self, from: &TreePath, to: &TreePath) -> (p: TreePath)
        requires
            from@.is_prefix_of(self@),
        ensures
            p@ == mirrored(from@, to@, self@),
    {
        let rest = self.tail_from(from.len());
        to.join(&rest)
    }

    /// Whether the two paths have the same components.
    pub fn same_as(&self, other: &TreePath) -> (b: bool)
        ensures
            b == (self@ == other@),
    {
        if self.components.len() != other.components.len() {
            return false;
        }
        let same = self.starts_with(other);
        proof {
            if same {
                assert(self@ =~= other@);
            }
        }
        same
    }
}

impl Clone for TreePath {
    fn clone(&self) -> (p: TreePath)
        ensures
            p@ == self@,
    {
        self.tail_from(0)
    }
}

/// A path moved from under `from` to under `to` lies under `to`, and the path
/// that leads to it from `to` is the one that led to it from `from`.
pub proof fn lemma_mirror_keeps_relative_path(
    from: Seq<Seq<char>>,
    to: Seq<Seq<char>>,
    path: Seq<Seq<char>>,
)
    requires
        from.is_prefix_of(path),
    ensures
        to.is_prefix_of(mirrored(from, to, path)),
        relative_to(mirrored(from, to, path), to) == relative_to(path, from),
{
    let m = mirrored(from, to, path);
    assert(m.subrange(0, to.len() as int) =~= to);
    assert(m.skip(to.len() as int) =~= path.skip(from.len() as int));
}

/// The root of the source is moved to the root of the destination.
pub proof fn lemma_mirror_of_root(from: Seq<Seq<char>>, to: Seq<Seq<char>>)
    ensures
        mirrored(from, to, from) == to,
{
    assert(mirrored(from, to, from) =~= to);
}

/// Two paths under `from` that are moved to the same place are the same path.
pub proof fn lemma_mirror_is_injective(
    from: Seq<Seq<char>>,
    to: Seq<Seq<char>>,
    a: Seq<Seq<char>>,
    b: Seq<Seq<char>>,
)
    requires
        from.is_prefix_of(a),
        from.is_prefix_of(b),
        mirrored(from, to, a) == mirrored(from, to, b),
    ensures
        a == b,
{
    lemma_mirror_keeps_relative_path(from, to, a);
    lemma_mirror_keeps_relative_path(from, to, b);
    assert(a =~= from + relative_to(a, from));
    assert(b =~= from + relative_to(b, from));
}

/// What lies under a directory of the source lies under that directory's
/// place in the destination.
pub proof fn lemma_mirror_keeps_ancestors(
    from: Seq<Seq<char>>,
    to: Seq<Seq<char>>,
    dir: Seq<Seq<char>>,
    path: Seq<Seq<char>>,
)
    requires
        from.is_prefix_of(dir),
        dir.is_prefix_of(path),
    ensures
        mirrored(from, to, dir).is_prefix_of(mirrored(from, to, path)),
{
    let d = mirrored(from, to, dir);
    let p = mirrored(from, to, path);
    assert(p.subrange(0, d.len() as int) =~= d);
}

} // verus!
