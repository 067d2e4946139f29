//! The path model of the sandbox.
//!
//! A filesystem location is a list of `/`-separated components together with
//! a flag saying whether the path is absolute.  Parsing keeps `..` components
//! (only the host's canonicalization may resolve them, since a `..` may cross
//! a symlink), and drops empty components and `.` components, mirroring how
//! the platform's own path comparison treats `a//b` and `a/./b`.

use vstd::prelude::*;

verus! {

/// The mathematical value of an [`FsPath`]: an absolute flag and the
/// component names as character sequences.
#[verifier::ext_equal]
pub struct PathView {
    pub absolute: bool,
    pub parts: Seq<Seq<char>>,
}

impl PathView {
    /// `self` is a (component-wise) prefix of `other`.
    ///
    /// Both sides must agree on absoluteness; the sandbox policy only ever
    /// compares canonical absolute forms.
    pub open spec fn is_prefix_of(self, other: PathView) -> bool {
        &&& self.absolute == other.absolute
        &&& self.parts.len() <= other.parts.len()
        &&& self.parts =~= other.parts.subrange(0, self.parts.len() as int)
    }

    /// The directory containing this path: the path without its last
    /// component.  The root (or an empty relative path) has no parent.
    pub open spec fn parent(self) -> Option<PathView> {
        if self.parts.len() == 0 {
            None
        } else {
            Some(PathView { absolute: self.absolute, parts: self.parts.drop_last() })
        }
    }
}

/// The views of a list of component names.
pub open spec fn views_of(components: Seq<String>) -> Seq<Seq<char>> {
    components.map_values(|c: String| c@)
}

/// A parsed component is kept when it is neither empty nor the no-op `.`.
pub open spec fn keep_part(part: Seq<char>) -> bool {
    part.len() > 0 && part != seq!['.']
}

/// The components of `s` from position `i` on, with `cur` the (possibly
/// empty) chunk read since the last separator.
pub open spec fn split_from(s: Seq<char>, i: int, cur: Seq<char>) -> Seq<Seq<char>>
    decreases s.len() - i,
{
    if i < 0 || i >= s.len() {
        if keep_part(cur) {
            seq![cur]
        } else {
            seq![]
        }
    } else if s[i] == '/' {
        (if keep_part(cur) {
            seq![cur]
        } else {
            seq![]
        }) + split_from(s, i + 1, seq![])
    } else {
        split_from(s, i + 1, cur.push(s[i]))
    }
}

/// The component list of a path string.
pub open spec fn spec_parts(s: Seq<char>) -> Seq<Seq<char>> {
    split_from(s, 0, seq![])
}

/// A path string is absolute when it starts with `/`.
pub open spec fn spec_absolute(s: Seq<char>) -> bool {
    s.len() > 0 && s[0] == '/'
}

/// What parsing a path string yields.
pub open spec fn spec_parse(s: Seq<char>) -> PathView {
    PathView { absolute: spec_absolute(s), parts: spec_parts(s) }
}

/// The components of a path joined with `/`, without a leading separator.
pub open spec fn render_parts(parts: Seq<Seq<char>>) -> Seq<char>
    decreases parts.len(),
{
    if parts.len() == 0 {
        Seq::<char>::empty()
    } else if parts.len() == 1 {
        parts[0]
    } else {
        parts[0] + seq!['/'] + render_parts(parts.drop_first())
    }
}

/// The textual form of a path: `/a/b` when absolute, `a/b` when relative.
/// The bare root renders as `/`, the empty relative path as the empty string.
pub open spec fn spec_render(p: PathView) -> Seq<char> {
    if p.absolute {
        seq!['/'] + render_parts(p.parts)
    } else {
        render_parts(p.parts)
    }
}

/// Resolving `candidate` against `base`: an absolute candidate stands as
/// given, a relative one is appended to `base`.
pub open spec fn spec_resolve(base: PathView, candidate: PathView) -> PathView {
    if candidate.absolute {
        candidate
    } else {
        PathView { absolute: base.absolute, parts: base.parts + candidate.parts }
    }
}

/// The `..` component, which climbs to the enclosing directory.
pub open spec fn dot_dot() -> Seq<char> {
    seq!['.', '.']
}

/// Lexically fold the `..` components of a list, left to right: a `..`
/// removes the component before it.  Folding fails when a `..` would climb
/// past the start of the list.
pub open spec fn spec_fold_parts(parts: Seq<Seq<char>>) -> Option<Seq<Seq<char>>>
    decreases parts.len(),
{
    if parts.len() == 0 {
        Some(Seq::<Seq<char>>::empty())
    } else {
        match spec_fold_parts(parts.drop_last()) {
            Option::None => None,
            Option::Some(front) => if parts.last() == dot_dot() {
                if front.len() == 0 {
                    None
                } else {
                    Some(front.drop_last())
                }
            } else {
                Some(front.push(parts.last()))
            },
        }
    }
}

/// The lexically normalized resolution of `candidate` against `base`:
/// resolve, then fold the `..` components away.
pub open spec fn spec_resolve_norm(base: PathView, candidate: PathView) -> Option<PathView> {
    let resolved = spec_resolve(base, candidate);
    match spec_fold_parts(resolved.parts) {
        Option::None => None,
        Option::Some(parts) => Some(PathView { absolute: resolved.absolute, parts }),
    }
}

/// Folding leaves no `..` behind: every component of a folded list is an
/// ordinary name.
pub proof fn lemma_fold_parts_no_dot_dot(parts: Seq<Seq<char>>)
    ensures
        spec_fold_parts(parts) matches Some(folded) ==> forall|j: int|
            0 <= j < folded.len() ==> folded[j] != dot_dot(),
    decreases parts.len(),
{
    if parts.len() > 0 {
        lemma_fold_parts_no_dot_dot(parts.drop_last());
        if let Option::Some(front) = spec_fold_parts(parts.drop_last()) {
            if parts.last() == dot_dot() {
                if front.len() > 0 {
                    assert forall|j: int|
                        0 <= j < front.drop_last().len() implies front.drop_last()[j]
                        != dot_dot() by {
                        assert(front.drop_last()[j] == front[j]);
                    }
                }
            } else {
                let folded = front.push(parts.last());
                assert forall|j: int| 0 <= j < folded.len() implies folded[j] != dot_dot() by {
                    if j < front.len() {
                        assert(folded[j] == front[j]);
                    } else {
                        assert(folded[j] == parts.last());
                    }
                }
            }
        }
    }
}

/// Once a prefix of the list fails to fold, the whole list fails too.
proof fn lemma_fold_none_extends(parts: Seq<Seq<char>>, k: int)
    requires
        0 <= k <= parts.len(),
        spec_fold_parts(parts.subrange(0, k)) is None,
    ensures
        spec_fold_parts(parts) is None,
    decreases parts.len() - k,
{
    if k < parts.len() {
        assert(parts.subrange(0, k + 1).drop_last() =~= parts.subrange(0, k));
        assert(spec_fold_parts(parts.subrange(0, k + 1)) is None);
        lemma_fold_none_extends(parts, k + 1);
    } else {
        assert(parts.subrange(0, parts.len() as int) =~= parts);
    }
}

/// Appending one more component extends the rendered text by `/` and the
/// component (or is the component itself for a first component).
proof fn lemma_render_push(parts: Seq<Seq<char>>, last: Seq<char>)
    ensures
        render_parts(parts.push(last)) == if parts.len() == 0 {
            last
        } else {
            render_parts(parts) + seq!['/'] + last
        },
    decreases parts.len(),
{
    let whole = parts.push(last);
    if parts.len() == 0 {
        assert(whole.len() == 1);
        assert(whole[0] == last);
    } else if parts.len() == 1 {
        assert(whole.drop_first() =~= seq![last]);
        assert(render_parts(whole.drop_first()) == last);
        assert(render_parts(parts) == parts[0]);
    } else {
        assert(whole.drop_first() =~= parts.drop_first().push(last));
        lemma_render_push(parts.drop_first(), last);
        assert(render_parts(whole) == parts[0] + seq!['/'] + (render_parts(parts.drop_first())
            + seq!['/'] + last));
        assert(parts[0] + seq!['/'] + (render_parts(parts.drop_first()) + seq!['/'] + last) =~= (
        parts[0] + seq!['/'] + render_parts(parts.drop_first())) + seq!['/'] + last);
    }
}

/// A filesystem location: an absolute flag and a list of components.
#[derive(Debug)]
pub struct FsPath {
    absolute: bool,
    components: Vec<String>,
}

impl View for FsPath {
    type V = PathView;

    closed spec fn view(&self) -> PathView {
        PathView { absolute: self.absolute, parts: views_of(self.components@) }
    }
}

impl FsPath {
    /// Whether the path is absolute.
    pub fn is_absolute(&self) -> (r: bool)
        ensures
            r == self@.absolute,
    {
        self.absolute
    }

    /// How many components the path has.
    pub fn depth(&self) -> (r: usize)
        ensures
            r == self@.parts.len(),
    {
        self.components.len()
    }

    /// Parse a path string into its components.
    ///
    /// Empty components and `.` are dropped; `..` is kept as a component of
    /// its own, to be resolved only by the host's canonicalization.
    pub fn parse(s: &str) -> (r: FsPath)
        ensures
            r@ == spec_parse(s@),
    {
        let n = s.unicode_len();
        let absolute = n > 0 && s.get_char(0) == '/';
        let mut components: Vec<String> = Vec::new();
        let mut start: usize = 0;
        let mut i: usize = 0;
        proof {
            assert(s@.subrange(0, 0) =~= Seq::<char>::empty());
            assert(views_of(components@) + split_from(s@, 0, s@.subrange(0, 0)) =~= spec_parts(
                s@,
            ));
        }
        while i < n
            invariant
                n == s@.len(),
                start <= i <= n,
                views_of(components@) + split_from(
                    s@,
                    i as int,
                    s@.subrange(start as int, i as int),
                ) =~= spec_parts(s@),
            decreases n - i,
        {
            let ghost cur = s@.subrange(start as int, i as int);
            if s.get_char(i) == '/' {
                let keep = Self::chunk_kept(s, start, i);
                if keep {
                    let chunk = s.substring_char(start, i).to_owned();
                    let ghost before = components@;
                    components.push(chunk);
                    proof {
                        assert(views_of(components@) =~= views_of(before).push(chunk@));
                    }
                }
                start = i + 1;
                proof {
                    assert(s@.subrange((i + 1) as int, (i + 1) as int) =~= Seq::<char>::empty());
                }
            } else {
                proof {
                    assert(s@.subrange(start as int, (i + 1) as int) =~= cur.push(s@[i as int]));
                }
            }
            i = i + 1;
        }
        let keep = Self::chunk_kept(s, start, i);
        if keep {
            let chunk = s.substring_char(start, i).to_owned();
            let ghost before = components@;
            components.push(chunk);
            proof {
                assert(views_of(components@) =~= views_of(before).push(chunk@));
            }
        }
        let r = FsPath { absolute, components };
        proof {
            assert(r@.parts =~= spec_parts(s@));
            assert(r@ =~= spec_parse(s@));
        }
        r
    }

    /// A copy of the first `upto` entries of a component list.
    fn copy_components(src: &Vec<String>, upto: usize) -> (r: Vec<String>)
        requires
            upto <= src@.len(),
        ensures
            r@ == src@.subrange(0, upto as int),
    {
        let mut components: Vec<String> = Vec::new();
        let mut k: usize = 0;
        while k < upto
            invariant
                k <= upto <= src@.len(),
                components@ =~= src@.subrange(0, k as int),
            decreases upto - k,
        {
            components.push(src[k].clone());
            k = k + 1;
        }
        proof {
            assert(components@ =~= src@.subrange(0, upto as int));
        }
        components
    }

    /// An exact copy of the path.
    pub fn duplicate(&self) -> (r: FsPath)
        ensures
            r@ == self@,
    {
        let components = Self::copy_components(&self.components, self.components.len());
        proof {
            assert(components@ =~= self.components@);
        }
        let r = FsPath { absolute: self.absolute, components };
        proof {
            assert(r@ =~= self@);
        }
        r
    }

    /// The textual form of the path, components joined with `/`.
    pub fn render(&self) -> (r: String)
        ensures
            r@ == spec_render(self@),
    {
        let mut out = if self.absolute {
            String::from_str("/")
        } else {
            String::new()
        };
        proof {
            reveal_strlit("/");
            assert("/"@ =~= seq!['/']);
            assert(self@.parts.subrange(0, 0) =~= Seq::<Seq<char>>::empty());
            assert(out@ == spec_render(
                PathView { absolute: self@.absolute, parts: self@.parts.subrange(0, 0) },
            ));
        }
        let mut j: usize = 0;
        while j < self.components.len()
            invariant
                j <= self.components.len(),
                self@.parts == views_of(self.components@),
                self@.absolute == self.absolute,
                out@ == spec_render(
                    PathView { absolute: self@.absolute, parts: self@.parts.subrange(0, j as int) },
                ),
            decreases self.components.len() - j,
        {
            let ghost done = self@.parts.subrange(0, j as int);
            let ghost part = self@.parts[j as int];
            if j > 0 {
                out.append("/");
            }
            out.append(self.components[j].as_str());
            proof {
                reveal_strlit("/");
                assert("/"@ =~= seq!['/']);
                lemma_render_push(done, part);
                assert(self@.parts.subrange(0, (j + 1) as int) =~= done.push(part));
                if self.absolute {
                    assert(out@ =~= seq!['/'] + render_parts(done.push(part)));
                } else {
                    assert(out@ =~= render_parts(done.push(part)));
                }
            }
            j = j + 1;
        }
        proof {
            assert(self@.parts.subrange(0, self.components@.len() as int) =~= self@.parts);
        }
        out
    }

    /// Resolve `candidate` against `self`: an absolute candidate stands as
    /// given, a relative one is appended.
    pub fn join(&self, candidate: &FsPath) -> (r: FsPath)
        ensures
            r@ == spec_resolve(self@, candidate@),
    {
        if candidate.absolute {
            candidate.duplicate()
        } else {
            let mut components = Self::copy_components(&self.components, self.components.len());
            proof {
                assert(components@ =~= self.components@);
            }
            let mut k: usize = 0;
            while k < candidate.components.len()
                invariant
                    k <= candidate.components@.len(),
                    components@ =~= self.components@ + candidate.components@.subrange(0, k as int),
                decreases candidate.components.len() - k,
            {
                components.push(candidate.components[k].clone());
                proof {
                    assert(components@ =~= self.components@ + candidate.components@.subrange(
                        0,
                        (k + 1) as int,
                    ));
                }
                k = k + 1;
            }
            proof {
                assert(components@ =~= self.components@ + candidate.components@);
            }
            let joined = FsPath { absolute: self.absolute, components };
            proof {
                assert(views_of(self.components@ + candidate.components@) =~= views_of(
                    self.components@,
                ) + views_of(candidate.components@));
                assert(joined@ =~= spec_resolve(self@, candidate@));
            }
            joined
        }
    }

    /// The directory containing this path, or `None` for the bare root and
    /// the empty relative path.
    pub fn parent_path(&self) -> (r: Option<FsPath>)
        ensures
            match r {
                Option::None => self@.parent() is None,
                Option::Some(p) => self@.parent() == Some(p@),
            },
    {
        if self.components.len() == 0 {
            None
        } else {
            let components = Self::copy_components(&self.components, self.components.len() - 1);
            let d = FsPath { absolute: self.absolute, components };
            proof {
                assert(d.components@ =~= self.components@.drop_last());
                assert(views_of(self.components@.drop_last()) =~= views_of(
                    self.components@,
                ).drop_last());
                assert(d@ =~= (PathView {
                    absolute: self@.absolute,
                    parts: self@.parts.drop_last(),
                }));
            }
            Some(d)
        }
    }

    /// Whether `prefix` is a component-wise prefix of `self`.
    pub fn starts_with(&self, prefix: &FsPath) -> (r: bool)
        ensures
            r == prefix@.is_prefix_of(self@),
    {
        if self.absolute != prefix.absolute {
            return false;
        }
        if prefix.components.len() > self.components.len() {
            return false;
        }
        let mut k: usize = 0;
        while k < prefix.components.len()
            invariant
                k <= prefix.components.len() <= self.components.len(),
                self.absolute == prefix.absolute,
                forall|j: int|
                    0 <= j < k ==> prefix@.parts[j] == self@.parts[j],
            decreases prefix.components.len() - k,
        {
            if !(prefix.components[k] == self.components[k]) {
                proof {
                    assert(prefix@.parts[k as int] != self@.parts[k as int]);
                    assert(!prefix@.is_prefix_of(self@)) by {
                        if prefix@.is_prefix_of(self@) {
                            assert(prefix@.parts[k as int] == self@.parts.subrange(
                                0,
                                prefix@.parts.len() as int,
                            )[k as int]);
                        }
                    }
                }
                return false;
            }
            k = k + 1;
        }
        proof {
            assert(prefix@.parts =~= self@.parts.subrange(0, prefix@.parts.len() as int));
        }
        true
    }

    /// The final component of the path, if there is one.
    pub fn file_name(&self) -> (r: Option<String>)
        ensures
            match r {
                Option::None => self@.parts.len() == 0,
                Option::Some(name) => self@.parts.len() > 0 && name@ == self@.parts.last(),
            },
    {
        if self.components.len() == 0 {
            None
        } else {
            Some(self.components[self.components.len() - 1].clone())
        }
    }

    /// Whether two paths are the same location, component by component.
    pub fn path_eq(&self, other: &FsPath) -> (r: bool)
        ensures
            r == (self@ == other@),
    {
        if self.absolute != other.absolute {
            return false;
        }
        if self.components.len() != other.components.len() {
            proof {
                assert(self@.parts.len() != other@.parts.len());
            }
            return false;
        }
        let mut k: usize = 0;
        while k < self.components.len()
            invariant
                k <= self.components.len() == other.components.len(),
                self.absolute == other.absolute,
                forall|j: int| 0 <= j < k ==> self@.parts[j] == other@.parts[j],
            decreases self.components.len() - k,
        {
            if !(self.components[k] == other.components[k]) {
                proof {
                    assert(self@.parts[k as int] != other@.parts[k as int]);
                }
                return false;
            }
            k = k + 1;
        }
        proof {
            assert(self@.parts =~= other@.parts);
            assert(self@ =~= other@);
        }
        true
    }

    /// Whether a component is the `..` climb.
    fn is_dot_dot(component: &String) -> (r: bool)
        ensures
            r == (component@ == dot_dot()),
    {
        let s = component.as_str();
        if s.unicode_len() == 2 && s.get_char(0) == '.' && s.get_char(1) == '.' {
            proof {
                assert(component@ =~= dot_dot());
            }
            true
        } else {
            proof {
                if component@ == dot_dot() {
                    assert(component@.len() == 2);
                    assert(component@[0] == '.');
                    assert(component@[1] == '.');
                }
            }
            false
        }
    }

    /// The path with its `..` components folded away lexically, or `None`
    /// when a `..` would climb past the start of the path.
    ///
    /// Folding is sound only where no symlink can stand in the folded-over
    /// region — the sandbox uses it on the not-yet-existing part of a
    /// create-case target, which cannot contain one.
    pub fn normalize(&self) -> (r: Option<FsPath>)
        ensures
            match r {
                Option::Some(p) => spec_fold_parts(self@.parts) == Some(p@.parts) && p@.absolute
                    == self@.absolute,
                Option::None => spec_fold_parts(self@.parts) is None,
            },
    {
        let mut kept: Vec<String> = Vec::new();
        let mut k: usize = 0;
        proof {
            assert(self@.parts.subrange(0, 0) =~= Seq::<Seq<char>>::empty());
            assert(views_of(kept@) =~= Seq::<Seq<char>>::empty());
        }
        while k < self.components.len()
            invariant
                k <= self.components.len(),
                self@.parts == views_of(self.components@),
                spec_fold_parts(self@.parts.subrange(0, k as int)) == Some(views_of(kept@)),
            decreases self.components.len() - k,
        {
            let ghost pre = self@.parts.subrange(0, k as int);
            let ghost next = self@.parts.subrange(0, (k + 1) as int);
            proof {
                assert(next.drop_last() =~= pre);
                assert(next.last() == self@.parts[k as int]);
            }
            if Self::is_dot_dot(&self.components[k]) {
                if kept.len() == 0 {
                    proof {
                        assert(spec_fold_parts(next) is None);
                        lemma_fold_none_extends(self@.parts, (k + 1) as int);
                    }
                    return None;
                }
                let ghost before = kept@;
                kept.pop();
                proof {
                    assert(views_of(kept@) =~= views_of(before).drop_last());
                }
            } else {
                let ghost before = kept@;
                kept.push(self.components[k].clone());
                proof {
                    assert(views_of(kept@) =~= views_of(before).push(self@.parts[k as int]));
                }
            }
            k = k + 1;
        }
        proof {
            assert(self@.parts.subrange(0, self.components@.len() as int) =~= self@.parts);
        }
        let p = FsPath { absolute: self.absolute, components: kept };
        proof {
            assert(p@.parts =~= views_of(kept@));
        }
        Some(p)
    }

    /// Whether the chunk of `s` between `start` and `end` is a component
    /// that parsing keeps.
    fn chunk_kept(s: &str, start: usize, end: usize) -> (r: bool)
        requires
            start <= end <= s@.len(),
        ensures
            r == keep_part(s@.subrange(start as int, end as int)),
    {
        let ghost cur = s@.subrange(start as int, end as int);
        if end - start == 0 {
            proof {
                assert(!keep_part(cur));
            }
            false
        } else if end - start == 1 && s.get_char(start) == '.' {
            proof {
                assert(cur =~= seq!['.']);
            }
            false
        } else {
            proof {
                if cur.len() == 1 {
                    assert(cur[0] == s@[start as int]);
                    assert(cur != seq!['.']) by {
                        assert(cur[0] != '.');
                    }
                } else {
                    assert(cur.len() != 1);
                    assert(cur != seq!['.']) by {
                        assert(seq!['.'].len() == 1);
                        if cur == seq!['.'] {
                            assert(cur.len() == 1);
                        }
                    }
                }
            }
            true
        }
    }
}

} // verus!
