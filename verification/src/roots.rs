//! The set of permitted root directories: an insertion-ordered set of
//! canonicalized absolute paths (duplicates suppressed), the refresh rule
//! (replace whole on a usable listing, keep the previous set otherwise, fall
//! back to the working directory only on first load) and the `file://`
//! rendering used in diagnostics.

use vstd::prelude::*;
use crate::uri::directory_uri;
use crate::uri::directory_uri_string;

verus! {

/// The permitted root directories, in insertion order, without duplicates.
#[derive(Clone)]
pub struct RootSet {
    roots: Vec<String>,
}

impl View for RootSet {
    type V = Seq<Seq<char>>;

    closed spec fn view(&self) -> Seq<Seq<char>> {
        self.roots.deep_view()
    }
}

/// How one root is shown to the caller: absolute paths as `file://` URIs,
/// anything else (a root kept uncanonicalized on a best-effort basis) as the
/// raw path.
pub open spec fn root_shown(path: Seq<char>) -> Seq<char> {
    if path.len() > 0 && path[0] == '/' {
        directory_uri(path)
    } else {
        path
    }
}

/// The lines after the first of the bulleted root listing.
pub open spec fn roots_listing_tail(roots: Seq<Seq<char>>) -> Seq<char>
    decreases roots.len(),
{
    if roots.len() == 0 {
        Seq::empty()
    } else {
        "\n* "@ + root_shown(roots[0]) + roots_listing_tail(roots.drop_first())
    }
}

/// The bulleted listing of the current roots, `(empty)` when there are none.
pub open spec fn roots_listing(roots: Seq<Seq<char>>) -> Seq<char> {
    if roots.len() == 0 {
        "(empty)"@
    } else {
        "* "@ + root_shown(roots[0]) + roots_listing_tail(roots.drop_first())
    }
}

proof fn lemma_listing_tail_snoc(roots: Seq<Seq<char>>, x: Seq<char>)
    ensures
        roots_listing_tail(roots.push(x)) == roots_listing_tail(roots) + "\n* "@ + root_shown(x),
    decreases roots.len(),
{
    if roots.len() == 0 {
        assert(roots.push(x).drop_first() =~= Seq::<Seq<char>>::empty());
        assert(roots_listing_tail(Seq::<Seq<char>>::empty()) =~= Seq::<char>::empty());
        assert(roots_listing_tail(roots.push(x)) =~= roots_listing_tail(roots) + "\n* "@
            + root_shown(x));
    } else {
        assert(roots.push(x).drop_first() =~= roots.drop_first().push(x));
        lemma_listing_tail_snoc(roots.drop_first(), x);
        assert(roots_listing_tail(roots.push(x)) =~= roots_listing_tail(roots) + "\n* "@
            + root_shown(x));
    }
}

fn root_shown_string(path: &String) -> (r: String)
    ensures
        r@ == root_shown(path@),
{
    if path.unicode_len() > 0 && path.as_str().get_char(0) == '/' {
        directory_uri_string(path.as_str())
    } else {
        let copy: String = String::from_str(path.as_str());
        copy
    }
}

impl RootSet {
    /// Membership, on the mathematical view.
    pub open spec fn spec_contains(self, path: Seq<char>) -> bool {
        exists|i: int| 0 <= i < self@.len() && self@[i] == path
    }

    /// No two entries are equal.
    pub open spec fn wf(self) -> bool {
        forall|i: int, j: int| 0 <= i < j < self@.len() ==> self@[i] != self@[j]
    }

    pub fn new() -> (r: RootSet)
        ensures
            r@ =~= Seq::<Seq<char>>::empty(),
            r.wf(),
    {
        RootSet { roots: Vec::new() }
    }

    pub fn len(&self) -> (n: usize)
        ensures
            n == self@.len(),
    {
        self.roots.len()
    }

    pub fn is_empty(&self) -> (r: bool)
        ensures
            r == (self@.len() == 0),
    {
        self.roots.len() == 0
    }

    /// The root at position `i`.
    pub fn get(&self, i: usize) -> (r: &String)
        requires
            i < self@.len(),
        ensures
            r@ == self@[i as int],
    {
        &self.roots[i]
    }

    pub fn contains(&self, path: &String) -> (r: bool)
        ensures
            r == self.spec_contains(path@),
    {
        let n = self.roots.len();
        let mut i: usize = 0;
        while i < n
            invariant
                i <= n,
                n == self@.len(),
                forall|j: int| 0 <= j < i ==> self@[j] != path@,
            decreases n - i,
        {
            if self.roots[i].eq(path) {
                assert(self@[i as int] == path@);
                return true;
            }
            i += 1;
        }
        false
    }

    /// Insert a root, keeping insertion order and suppressing duplicates.
    pub fn insert(&mut self, path: String)
        requires
            old(self).wf(),
        ensures
            final(self).wf(),
            final(self)@ == if old(self).spec_contains(path@) {
                old(self)@
            } else {
                old(self)@.push(path@)
            },
    {
        if !self.contains(&path) {
            self.roots.push(path);
            assert(self@ =~= old(self)@.push(path@));
        } else {
            assert(self@ =~= old(self)@);
        }
    }

    /// Insert a validated root candidate: the canonicalized path when
    /// canonicalization succeeded, else the original path, kept best-effort.
    pub fn insert_candidate(&mut self, original: String, canonical: Option<String>)
        requires
            old(self).wf(),
        ensures
            final(self).wf(),
            ({
                let chosen = match canonical {
                    Some(c) => c@,
                    None => original@,
                };
                final(self)@ == if old(self).spec_contains(chosen) {
                    old(self)@
                } else {
                    old(self)@.push(chosen)
                }
            }),
    {
        match canonical {
            Some(c) => self.insert(c),
            None => self.insert(original),
        }
    }

    /// The bulleted `file://` listing of the current roots, for diagnostics.
    pub fn as_uri_list(&self) -> (r: String)
        ensures
            r@ == roots_listing(self@),
    {
        let n = self.roots.len();
        if n == 0 {
            let r = String::from_str("(empty)");
            return r;
        }
        let mut out = String::from_str("* ");
        let shown0 = root_shown_string(&self.roots[0]);
        out.append(shown0.as_str());
        proof {
            assert(self@.subrange(1, 1) =~= Seq::<Seq<char>>::empty());
            assert(roots_listing_tail(self@.subrange(1, 1)) =~= Seq::<char>::empty());
            assert(out@ =~= "* "@ + root_shown(self@[0]) + roots_listing_tail(
                self@.subrange(1, 1),
            ));
        }
        let mut i: usize = 1;
        while i < n
            invariant
                1 <= i <= n,
                n == self@.len(),
                out@ == "* "@ + root_shown(self@[0]) + roots_listing_tail(
                    self@.subrange(1, i as int),
                ),
            decreases n - i,
        {
            out.append("\n* ");
            let shown = root_shown_string(&self.roots[i]);
            out.append(shown.as_str());
            proof {
                assert(self@.subrange(1, i + 1) =~= self@.subrange(1, i as int).push(
                    self@[i as int],
                ));
                lemma_listing_tail_snoc(self@.subrange(1, i as int), self@[i as int]);
                assert(out@ =~= "* "@ + root_shown(self@[0]) + roots_listing_tail(
                    self@.subrange(1, i + 1),
                ));
            }
            i += 1;
        }
        proof {
            assert(self@.subrange(1, n as int) =~= self@.drop_first());
        }
        out
    }
}

/// The set that stands when a refresh found nothing usable: the previous set
/// where there is one, else the process working directory, else nothing.
pub open spec fn kept_or_fallback(previous: Option<RootSet>, fallback: Option<String>) -> Seq<
    Seq<char>,
> {
    match previous {
        Some(p) => p@,
        None => match fallback {
            Some(cwd) => seq![cwd@],
            None => Seq::<Seq<char>>::empty(),
        },
    }
}

/// Decide the root set after one refresh attempt. A usable listing (at least
/// one root) replaces the whole set atomically; an unusable one (the peer
/// lacks the capability, the request failed, or it yielded zero usable
/// entries, i.e. `listed` is `None` or empty) preserves the previous set —
/// a failed refresh never degrades it — except on first load, where the set
/// falls back to the process working directory, or stays empty when that is
/// unknown.
pub fn next_root_set(previous: Option<RootSet>, listed: Option<RootSet>, fallback: Option<String>)
    -> (r: RootSet)
    requires
        previous matches Some(p) ==> p.wf(),
        listed matches Some(l) ==> l.wf(),
    ensures
        r.wf(),
        match listed {
            Some(l) => if l@.len() > 0 {
                r@ == l@
            } else {
                r@ == kept_or_fallback(previous, fallback)
            },
            None => r@ == kept_or_fallback(previous, fallback),
        },
{
    match listed {
        Some(l) => {
            if l.len() > 0 {
                return l;
            }
        },
        None => {},
    }
    match previous {
        Some(p) => p,
        None => {
            match fallback {
                Some(cwd) => {
                    let mut r = RootSet::new();
                    r.insert(cwd);
                    assert(r@ =~= kept_or_fallback(None, Some(cwd)));
                    r
                },
                None => {
                    let r = RootSet::new();
                    assert(r@ =~= Seq::<Seq<char>>::empty());
                    r
                },
            }
        },
    }
}

} // verus!
