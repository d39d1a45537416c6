//! The weak association registry: a bidirectional map between *links* (the
//! side owned by a query or mutation identity) and *targets* (the side owned
//! by a cache), holding one value per associated pair.
//!
//! Either side can be destroyed at any time, in any order; destruction
//! removes exactly the rows keyed by the destroyed side and nothing else.
//! The registry's well-formedness guarantees that an association row never
//! outlives either of its two endpoints (see
//! [`Registry::lemma_row_endpoints_alive`]).

use vstd::prelude::*;

verus! {

/// The identity-side key of an association: one per query or mutation
/// identity.
#[derive(Clone, Copy, Debug, PartialEq, Eq, Structural)]
pub struct WeakLink {
    /// The slot index in the registry that issued this key.
    pub id: usize,
}

/// The cache-side key of an association: one per cache.
#[derive(Clone, Copy, Debug, PartialEq, Eq, Structural)]
pub struct Target {
    /// The slot index in the registry that issued this key.
    pub id: usize,
}

struct Row<T> {
    link: usize,
    target: usize,
    value: T,
}

/// The arena holding every link, every target, and every association row
/// between them.
pub struct Registry<T> {
    links: Vec<bool>,
    targets: Vec<bool>,
    rows: Vec<Row<T>>,
}

impl<T> Registry<T> {
    /// Whether `l` has been issued by this registry and not yet destroyed.
    pub closed spec fn link_alive(self, l: WeakLink) -> bool {
        l.id < self.links@.len() && self.links@[l.id as int]
    }

    /// Whether `t` has been issued by this registry and not yet destroyed.
    pub closed spec fn target_alive(self, t: Target) -> bool {
        t.id < self.targets@.len() && self.targets@[t.id as int]
    }

    spec fn is_row_for(self, i: int, l: WeakLink, t: Target) -> bool {
        &&& 0 <= i < self.rows@.len()
        &&& self.rows@[i].link == l.id
        &&& self.rows@[i].target == t.id
    }

    /// Whether the pair `(l, t)` currently has an association row.
    pub closed spec fn has_row(self, l: WeakLink, t: Target) -> bool {
        exists|i: int| self.is_row_for(i, l, t)
    }

    /// The value stored for the pair `(l, t)`.
    pub closed spec fn row_value(self, l: WeakLink, t: Target) -> T
        recommends
            self.has_row(l, t),
    {
        self.rows@[choose|i: int| self.is_row_for(i, l, t)].value
    }

    spec fn row_ok(self, i: int) -> bool {
        &&& self.rows@[i].link < self.links@.len()
        &&& self.links@[self.rows@[i].link as int]
        &&& self.rows@[i].target < self.targets@.len()
        &&& self.targets@[self.rows@[i].target as int]
    }

    spec fn rows_distinct(self) -> bool {
        forall|i: int, j: int|
            #![trigger self.rows@[i], self.rows@[j]]
            0 <= i < self.rows@.len() && 0 <= j < self.rows@.len() && i != j ==> !(self.rows@[i].link
                == self.rows@[j].link && self.rows@[i].target == self.rows@[j].target)
    }

    /// The registry's invariant: every row joins two live endpoints, and no
    /// pair has more than one row.
    pub closed spec fn wf(self) -> bool {
        &&& forall|i: int| 0 <= i < self.rows@.len() ==> #[trigger] self.row_ok(i)
        &&& self.rows_distinct()
    }

    /// `a` and `b` agree on every association except the pair `(l, t)`.
    pub open spec fn same_assoc_except(a: Self, b: Self, l: WeakLink, t: Target) -> bool {
        forall|l2: WeakLink, t2: Target|
            !(l2 == l && t2 == t) ==> #[trigger] a.has_row(l2, t2) == b.has_row(l2, t2) && (
            a.has_row(l2, t2) ==> a.row_value(l2, t2) == b.row_value(l2, t2))
    }

    /// `a` and `b` agree on every association whose link is not `l`.
    pub open spec fn same_assoc_except_link(a: Self, b: Self, l: WeakLink) -> bool {
        forall|l2: WeakLink, t2: Target|
            l2 != l ==> #[trigger] a.has_row(l2, t2) == b.has_row(l2, t2) && (a.has_row(l2, t2)
                ==> a.row_value(l2, t2) == b.row_value(l2, t2))
    }

    /// `a` and `b` agree on every association whose target is not `t`.
    pub open spec fn same_assoc_except_target(a: Self, b: Self, t: Target) -> bool {
        forall|l2: WeakLink, t2: Target|
            t2 != t ==> #[trigger] a.has_row(l2, t2) == b.has_row(l2, t2) && (a.has_row(l2, t2)
                ==> a.row_value(l2, t2) == b.row_value(l2, t2))
    }

    /// `a` and `b` agree on which links and targets are alive.
    pub open spec fn same_alive(a: Self, b: Self) -> bool {
        &&& forall|l: WeakLink| #[trigger] a.link_alive(l) == b.link_alive(l)
        &&& forall|t: Target| #[trigger] a.target_alive(t) == b.target_alive(t)
    }

    /// Identity isolation: an operation that touches at most the pair
    /// `(l, t)` leaves every association of any other target exactly as it
    /// was — two caches never see each other's rows change, even for the
    /// same identity.
    pub proof fn lemma_target_isolation(
        a: Self,
        b: Self,
        l: WeakLink,
        t: Target,
        l2: WeakLink,
        t2: Target,
    )
        requires
            Self::same_assoc_except(a, b, l, t),
            t2 != t,
        ensures
            a.has_row(l2, t2) == b.has_row(l2, t2),
            a.has_row(l2, t2) ==> a.row_value(l2, t2) == b.row_value(l2, t2),
    {
    }

    /// Agreement on all associations but one pair is transitive.
    pub proof fn lemma_assoc_except_trans(a: Self, b: Self, c: Self, l: WeakLink, t: Target)
        requires
            Self::same_assoc_except(a, b, l, t),
            Self::same_assoc_except(b, c, l, t),
        ensures
            Self::same_assoc_except(a, c, l, t),
    {
        assert forall|l2: WeakLink, t2: Target| !(l2 == l && t2 == t) implies #[trigger] a.has_row(
            l2,
            t2,
        ) == c.has_row(l2, t2) && (a.has_row(l2, t2) ==> a.row_value(l2, t2) == c.row_value(
            l2,
            t2,
        )) by {
            assert(a.has_row(l2, t2) == b.has_row(l2, t2) && (a.has_row(l2, t2) ==> a.row_value(
                l2,
                t2,
            ) == b.row_value(l2, t2)));
            assert(b.has_row(l2, t2) == c.has_row(l2, t2) && (b.has_row(l2, t2) ==> b.row_value(
                l2,
                t2,
            ) == c.row_value(l2, t2)));
        }
    }

    /// Agreement on aliveness is transitive.
    pub proof fn lemma_alive_trans(a: Self, b: Self, c: Self)
        requires
            Self::same_alive(a, b),
            Self::same_alive(b, c),
        ensures
            Self::same_alive(a, c),
    {
        assert forall|l2: WeakLink| #[trigger] a.link_alive(l2) == c.link_alive(l2) by {
            assert(a.link_alive(l2) == b.link_alive(l2));
            assert(b.link_alive(l2) == c.link_alive(l2));
        }
        assert forall|t2: Target| #[trigger] a.target_alive(t2) == c.target_alive(t2) by {
            assert(a.target_alive(t2) == b.target_alive(t2));
            assert(b.target_alive(t2) == c.target_alive(t2));
        }
    }

    /// A row exists only while both of its endpoints are alive: destroying
    /// either the identity or the cache removes the association, so no row
    /// is ever left dangling.
    pub proof fn lemma_row_endpoints_alive(self, l: WeakLink, t: Target)
        requires
            self.wf(),
            self.has_row(l, t),
        ensures
            self.link_alive(l),
            self.target_alive(t),
    {
        let i = choose|i: int| self.is_row_for(i, l, t);
        assert(self.row_ok(i));
    }

    proof fn lemma_unique_index(self, l: WeakLink, t: Target, i: int, j: int)
        requires
            self.rows_distinct(),
            self.is_row_for(i, l, t),
            self.is_row_for(j, l, t),
        ensures
            i == j,
    {
        if i != j {
            assert(!(self.rows@[i].link == self.rows@[j].link && self.rows@[i].target
                == self.rows@[j].target));
        }
    }

    proof fn lemma_row_value_at(self, l: WeakLink, t: Target, i: int)
        requires
            self.rows_distinct(),
            self.is_row_for(i, l, t),
        ensures
            self.has_row(l, t),
            self.row_value(l, t) == self.rows@[i].value,
    {
        let j = choose|j: int| self.is_row_for(j, l, t);
        self.lemma_unique_index(l, t, i, j);
    }

    proof fn lemma_same_rows_same_assoc(a: Self, b: Self)
        requires
            a.rows@ == b.rows@,
            a.rows_distinct(),
        ensures
            forall|l2: WeakLink, t2: Target| #[trigger]
                a.has_row(l2, t2) == b.has_row(l2, t2) && (a.has_row(l2, t2) ==> a.row_value(
                    l2,
                    t2,
                ) == b.row_value(l2, t2)),
    {
        assert forall|l2: WeakLink, t2: Target| #[trigger]
            a.has_row(l2, t2) == b.has_row(l2, t2) && (a.has_row(l2, t2) ==> a.row_value(l2, t2)
                == b.row_value(l2, t2)) by {
            if a.has_row(l2, t2) {
                let i = choose|i: int| a.is_row_for(i, l2, t2);
                assert(b.is_row_for(i, l2, t2));
            }
            if b.has_row(l2, t2) {
                let i = choose|i: int| b.is_row_for(i, l2, t2);
                assert(a.is_row_for(i, l2, t2));
            }
            if a.has_row(l2, t2) {
                let ia = choose|i: int| a.is_row_for(i, l2, t2);
                let ib = choose|i: int| b.is_row_for(i, l2, t2);
                assert(a.is_row_for(ib, l2, t2));
                a.lemma_unique_index(l2, t2, ia, ib);
            }
        }
    }

    /// A new registry with no links, no targets and no rows.
    pub fn new() -> (r: Self)
        ensures
            r.wf(),
            forall|l: WeakLink| !(#[trigger] r.link_alive(l)),
            forall|t: Target| !(#[trigger] r.target_alive(t)),
            forall|l: WeakLink, t: Target| !(#[trigger] r.has_row(l, t)),
    {
        let r = Registry { links: Vec::new(), targets: Vec::new(), rows: Vec::new() };
        proof {
            assert(forall|l: WeakLink, t: Target|
                #[trigger] r.has_row(l, t) ==> r.is_row_for(choose|i: int| r.is_row_for(i, l, t), l, t));
        }
        r
    }

    /// Issues a fresh link key, distinct from every key issued before.
    pub fn new_link(&mut self) -> (r: WeakLink)
        requires
            old(self).wf(),
        ensures
            final (self).wf(),
            final (self).link_alive(r),
            !old(self).link_alive(r),
            forall|l2: WeakLink|
                l2 != r ==> #[trigger] final (self).link_alive(l2) == old(self).link_alive(l2),
            forall|t2: Target| #[trigger]
                final (self).target_alive(t2) == old(self).target_alive(t2),
            forall|l2: WeakLink, t2: Target| #[trigger]
                final (self).has_row(l2, t2) == old(self).has_row(l2, t2) && (final (self).has_row(
                    l2,
                    t2,
                ) ==> final (self).row_value(l2, t2) == old(self).row_value(l2, t2)),
    {
        let id = self.links.len();
        self.links.push(true);
        let r = WeakLink { id };
        proof {
            let pre = *old(self);
            let post = *self;
            assert forall|i: int| 0 <= i < post.rows@.len() implies #[trigger] post.row_ok(i) by {
                assert(pre.row_ok(i));
            }
            Self::lemma_same_rows_same_assoc(pre, post);
            assert forall|l2: WeakLink, t2: Target| #[trigger]
                post.has_row(l2, t2) == pre.has_row(l2, t2) && (post.has_row(l2, t2)
                ==> post.row_value(l2, t2) == pre.row_value(l2, t2)) by {
                assert(pre.has_row(l2, t2) == post.has_row(l2, t2) && (pre.has_row(l2, t2)
                    ==> pre.row_value(l2, t2) == post.row_value(l2, t2)));
            }
        }
        r
    }

    /// Issues a fresh target key, distinct from every key issued before.
    pub fn new_target(&mut self) -> (r: Target)
        requires
            old(self).wf(),
        ensures
            final (self).wf(),
            final (self).target_alive(r),
            !old(self).target_alive(r),
            forall|t2: Target|
                t2 != r ==> #[trigger] final (self).target_alive(t2) == old(self).target_alive(t2),
            forall|l2: WeakLink| #[trigger] final (self).link_alive(l2) == old(self).link_alive(l2),
            forall|l2: WeakLink, t2: Target| #[trigger]
                final (self).has_row(l2, t2) == old(self).has_row(l2, t2) && (final (self).has_row(
                    l2,
                    t2,
                ) ==> final (self).row_value(l2, t2) == old(self).row_value(l2, t2)),
    {
        let id = self.targets.len();
        self.targets.push(true);
        let r = Target { id };
        proof {
            let pre = *old(self);
            let post = *self;
            assert forall|i: int| 0 <= i < post.rows@.len() implies #[trigger] post.row_ok(i) by {
                assert(pre.row_ok(i));
            }
            Self::lemma_same_rows_same_assoc(pre, post);
            assert forall|l2: WeakLink, t2: Target| #[trigger]
                post.has_row(l2, t2) == pre.has_row(l2, t2) && (post.has_row(l2, t2)
                ==> post.row_value(l2, t2) == pre.row_value(l2, t2)) by {
                assert(pre.has_row(l2, t2) == post.has_row(l2, t2) && (pre.has_row(l2, t2)
                    ==> pre.row_value(l2, t2) == post.row_value(l2, t2)));
            }
        }
        r
    }

    /// Whether `l` is alive.
    pub fn is_link_alive(&self, l: WeakLink) -> (r: bool)
        ensures
            r == self.link_alive(l),
    {
        l.id < self.links.len() && self.links[l.id]
    }

    /// Whether `t` is alive.
    pub fn is_target_alive(&self, t: Target) -> (r: bool)
        ensures
            r == self.target_alive(t),
    {
        t.id < self.targets.len() && self.targets[t.id]
    }

    fn find_row(&self, l: WeakLink, t: Target) -> (r: Option<usize>)
        ensures
            match r {
                Some(i) => self.is_row_for(i as int, l, t),
                None => !self.has_row(l, t),
            },
    {
        let mut i: usize = 0;
        while i < self.rows.len()
            invariant
                i <= self.rows@.len(),
                forall|j: int|
                    0 <= j < i ==> !((#[trigger] self.rows@[j]).link == l.id && self.rows@[j].target
                        == t.id),
            decreases self.rows@.len() - i,
        {
            if self.rows[i].link == l.id && self.rows[i].target == t.id {
                return Some(i);
            }
            i = i + 1;
        }
        None
    }

    /// Whether the pair `(l, t)` has a row.
    pub fn contains_row(&self, l: WeakLink, t: Target) -> (r: bool)
        ensures
            r == self.has_row(l, t),
    {
        match self.find_row(l, t) {
            Some(_) => true,
            None => false,
        }
    }

    /// The value stored for `(l, t)`, if the pair has a row.
    pub fn get(&self, l: WeakLink, t: Target) -> (r: Option<&T>)
        requires
            self.wf(),
        ensures
            match r {
                Some(v) => self.has_row(l, t) && *v == self.row_value(l, t),
                None => !self.has_row(l, t),
            },
    {
        match self.find_row(l, t) {
            Some(i) => {
                proof {
                    self.lemma_row_value_at(l, t, i as int);
                }
                Some(&self.rows[i].value)
            },
            None => None,
        }
    }

    /// Removes and returns the row for `(l, t)`, if there is one. Nothing
    /// else changes.
    pub fn remove(&mut self, l: WeakLink, t: Target) -> (r: Option<T>)
        requires
            old(self).wf(),
        ensures
            final (self).wf(),
            !final (self).has_row(l, t),
            Self::same_assoc_except(*final (self), *old(self), l, t),
            Self::same_alive(*final (self), *old(self)),
            r == if old(self).has_row(l, t) {
                Some(old(self).row_value(l, t))
            } else {
                None::<T>
            },
    {
        match self.find_row(l, t) {
            None => None,
            Some(i) => {
                proof {
                    old(self).lemma_row_value_at(l, t, i as int);
                }
                let row = self.rows.remove(i);
                proof {
                    let pre = *old(self);
                    let post = *self;
                    assert forall|i2: int| 0 <= i2 < post.rows@.len() implies #[trigger] post.row_ok(
                        i2,
                    ) by {
                        if i2 < i {
                            assert(post.rows@[i2] == pre.rows@[i2]);
                            assert(pre.row_ok(i2));
                        } else {
                            assert(post.rows@[i2] == pre.rows@[i2 + 1]);
                            assert(pre.row_ok(i2 + 1));
                        }
                    }
                    assert forall|i2: int, j2: int|
                        0 <= i2 < post.rows@.len() && 0 <= j2 < post.rows@.len() && i2 != j2 implies !((
                    #[trigger] post.rows@[i2]).link == (#[trigger] post.rows@[j2]).link
                        && post.rows@[i2].target == post.rows@[j2].target) by {
                        let oi = if i2 < i {
                            i2
                        } else {
                            i2 + 1
                        };
                        let oj = if j2 < i {
                            j2
                        } else {
                            j2 + 1
                        };
                        assert(post.rows@[i2] == pre.rows@[oi]);
                        assert(post.rows@[j2] == pre.rows@[oj]);
                    }
                    assert forall|i2: int| !(#[trigger] post.is_row_for(i2, l, t)) by {
                        if post.is_row_for(i2, l, t) {
                            let oi = if i2 < i {
                                i2
                            } else {
                                i2 + 1
                            };
                            assert(pre.is_row_for(oi, l, t));
                            pre.lemma_unique_index(l, t, oi, i as int);
                        }
                    }
                    assert forall|l2: WeakLink, t2: Target| !(l2 == l && t2 == t) implies #[trigger]
                    post.has_row(l2, t2) == pre.has_row(l2, t2) && (post.has_row(l2, t2)
                        ==> post.row_value(l2, t2) == pre.row_value(l2, t2)) by {
                        if pre.has_row(l2, t2) {
                            let oi = choose|oi: int| pre.is_row_for(oi, l2, t2);
                            let ni = if oi < i {
                                oi
                            } else {
                                oi - 1
                            };
                            assert(oi != i);
                            assert(post.is_row_for(ni, l2, t2));
                            assert(post.has_row(l2, t2));
                            post.lemma_row_value_at(l2, t2, ni);
                            pre.lemma_row_value_at(l2, t2, oi);
                        }
                        if post.has_row(l2, t2) {
                            let ni = choose|ni: int| post.is_row_for(ni, l2, t2);
                            let oi = if ni < i {
                                ni
                            } else {
                                ni + 1
                            };
                            assert(pre.is_row_for(oi, l2, t2));
                            assert(pre.has_row(l2, t2));
                        }
                    }
                }
                Some(row.value)
            },
        }
    }

    /// Stores `value` for the pair `(l, t)`, creating the association if it
    /// did not exist, and returns the value it replaced, if any. Nothing
    /// else changes.
    pub fn insert(&mut self, l: WeakLink, t: Target, value: T) -> (r: Option<T>)
        requires
            old(self).wf(),
            old(self).link_alive(l),
            old(self).target_alive(t),
        ensures
            final (self).wf(),
            final (self).has_row(l, t),
            final (self).row_value(l, t) == value,
            Self::same_assoc_except(*final (self), *old(self), l, t),
            Self::same_alive(*final (self), *old(self)),
            r == if old(self).has_row(l, t) {
                Some(old(self).row_value(l, t))
            } else {
                None::<T>
            },
    {
        let prev = self.remove(l, t);
        let ghost mid = *self;
        self.rows.push(Row { link: l.id, target: t.id, value });
        proof {
            let post = *self;
            let n = mid.rows@.len() as int;
            assert forall|i2: int| 0 <= i2 < post.rows@.len() implies #[trigger] post.row_ok(
                i2,
            ) by {
                if i2 < n {
                    assert(post.rows@[i2] == mid.rows@[i2]);
                    assert(mid.row_ok(i2));
                } else {
                    assert(mid.link_alive(l) && mid.target_alive(t));
                }
            }
            assert forall|i2: int, j2: int|
                0 <= i2 < post.rows@.len() && 0 <= j2 < post.rows@.len() && i2 != j2 implies !((
            #[trigger] post.rows@[i2]).link == (#[trigger] post.rows@[j2]).link
                && post.rows@[i2].target == post.rows@[j2].target) by {
                if i2 < n && j2 < n {
                    assert(post.rows@[i2] == mid.rows@[i2]);
                    assert(post.rows@[j2] == mid.rows@[j2]);
                } else if i2 == n {
                    assert(post.rows@[j2] == mid.rows@[j2]);
                    if post.rows@[j2].link == l.id && post.rows@[j2].target == t.id {
                        assert(mid.is_row_for(j2, l, t));
                        assert(mid.has_row(l, t));
                    }
                } else {
                    assert(post.rows@[i2] == mid.rows@[i2]);
                    if post.rows@[i2].link == l.id && post.rows@[i2].target == t.id {
                        assert(mid.is_row_for(i2, l, t));
                        assert(mid.has_row(l, t));
                    }
                }
            }
            assert(post.is_row_for(n, l, t));
            post.lemma_row_value_at(l, t, n);
            assert forall|l2: WeakLink, t2: Target| !(l2 == l && t2 == t) implies #[trigger]
            post.has_row(l2, t2) == mid.has_row(l2, t2) && (post.has_row(l2, t2)
                ==> post.row_value(l2, t2) == mid.row_value(l2, t2)) by {
                if mid.has_row(l2, t2) {
                    let oi = choose|oi: int| mid.is_row_for(oi, l2, t2);
                    assert(post.rows@[oi] == mid.rows@[oi]);
                    assert(post.is_row_for(oi, l2, t2));
                    post.lemma_row_value_at(l2, t2, oi);
                    mid.lemma_row_value_at(l2, t2, oi);
                }
                if post.has_row(l2, t2) {
                    let ni = choose|ni: int| post.is_row_for(ni, l2, t2);
                    assert(ni != n);
                    assert(post.rows@[ni] == mid.rows@[ni]);
                    assert(mid.is_row_for(ni, l2, t2));
                    assert(mid.has_row(l2, t2));
                }
            }
            assert forall|l2: WeakLink| #[trigger]
                post.link_alive(l2) == old(self).link_alive(l2) by {
                assert(post.link_alive(l2) == mid.link_alive(l2));
            }
            assert forall|t2: Target| #[trigger]
                post.target_alive(t2) == old(self).target_alive(t2) by {
                assert(post.target_alive(t2) == mid.target_alive(t2));
            }
        }
        prev
    }

    /// Destroys the link `l`: every association row keyed by `l`, in any
    /// target, is removed, and `l` can never be associated again. No other
    /// link, no target, and no other row is affected.
    pub fn destroy_link(&mut self, l: WeakLink)
        requires
            old(self).wf(),
        ensures
            final (self).wf(),
            !final (self).link_alive(l),
            forall|t2: Target| !(#[trigger] final (self).has_row(l, t2)),
            forall|l2: WeakLink|
                l2 != l ==> #[trigger] final (self).link_alive(l2) == old(self).link_alive(l2),
            forall|t2: Target| #[trigger]
                final (self).target_alive(t2) == old(self).target_alive(t2),
            Self::same_assoc_except_link(*final (self), *old(self), l),
    {
        let mut i: usize = 0;
        while i < self.rows.len()
            invariant
                old(self).wf(),
                self.wf(),
                i <= self.rows@.len(),
                self.links@ == old(self).links@,
                self.targets@ == old(self).targets@,
                forall|j: int| 0 <= j < i ==> (#[trigger] self.rows@[j]).link != l.id,
                Self::same_assoc_except_link(*self, *old(self), l),
                forall|t2: Target| #[trigger]
                    self.has_row(l, t2) ==> exists|j: int|
                        i <= j && self.is_row_for(j, l, t2),
            decreases self.rows@.len() - i,
        {
            if self.rows[i].link == l.id {
                let ghost pre = *self;
                let ghost t2 = Target { id: pre.rows@[i as int].target };
                proof {
                    assert(pre.is_row_for(i as int, l, t2));
                }
                self.rows.remove(i);
                proof {
                    let post = *self;
                    assert forall|i2: int| 0 <= i2 < post.rows@.len() implies #[trigger]
                    post.row_ok(i2) by {
                        if i2 < i {
                            assert(post.rows@[i2] == pre.rows@[i2]);
                            assert(pre.row_ok(i2));
                        } else {
                            assert(post.rows@[i2] == pre.rows@[i2 + 1]);
                            assert(pre.row_ok(i2 + 1));
                        }
                    }
                    assert forall|i2: int, j2: int|
                        0 <= i2 < post.rows@.len() && 0 <= j2 < post.rows@.len() && i2 != j2 implies !((
                    #[trigger] post.rows@[i2]).link == (#[trigger] post.rows@[j2]).link
                        && post.rows@[i2].target == post.rows@[j2].target) by {
                        let oi = if i2 < i {
                            i2
                        } else {
                            i2 + 1
                        };
                        let oj = if j2 < i {
                            j2
                        } else {
                            j2 + 1
                        };
                        assert(post.rows@[i2] == pre.rows@[oi]);
                        assert(post.rows@[j2] == pre.rows@[oj]);
                    }
                    assert forall|j: int| 0 <= j < i implies (#[trigger] post.rows@[j]).link
                        != l.id by {
                        assert(post.rows@[j] == pre.rows@[j]);
                    }
                    assert forall|l2: WeakLink, t3: Target| l2 != l implies #[trigger] post.has_row(
                        l2,
                        t3,
                    ) == old(self).has_row(l2, t3) && (post.has_row(l2, t3) ==> post.row_value(
                        l2,
                        t3,
                    ) == old(self).row_value(l2, t3)) by {
                        if pre.has_row(l2, t3) {
                            let oi = choose|oi: int| pre.is_row_for(oi, l2, t3);
                            assert(oi != i);
                            let ni = if oi < i {
                                oi
                            } else {
                                oi - 1
                            };
                            assert(post.is_row_for(ni, l2, t3));
                            post.lemma_row_value_at(l2, t3, ni);
                            pre.lemma_row_value_at(l2, t3, oi);
                        }
                        if post.has_row(l2, t3) {
                            let ni = choose|ni: int| post.is_row_for(ni, l2, t3);
                            let oi = if ni < i {
                                ni
                            } else {
                                ni + 1
                            };
                            assert(pre.is_row_for(oi, l2, t3));
                            assert(pre.has_row(l2, t3));
                        }
                    }
                    assert forall|t3: Target| #[trigger] post.has_row(l, t3) implies exists|j: int|
                        i <= j && post.is_row_for(j, l, t3) by {
                        let ni = choose|ni: int| post.is_row_for(ni, l, t3);
                        assert(post.rows@[ni].link == l.id);
                        assert(ni >= i);
                    }
                }
            } else {
                i = i + 1;
            }
        }
        proof {
            assert forall|t2: Target| !(#[trigger] self.has_row(l, t2)) by {
                if self.has_row(l, t2) {
                    let j = choose|j: int| i <= j && self.is_row_for(j, l, t2);
                    assert(self.rows@[j].link != l.id);
                }
            }
        }
        let ghost mid = *self;
        if l.id < self.links.len() {
            self.links[l.id] = false;
        }
        proof {
            let post = *self;
            assert forall|i2: int| 0 <= i2 < post.rows@.len() implies #[trigger] post.row_ok(
                i2,
            ) by {
                assert(mid.row_ok(i2));
                assert(mid.rows@[i2].link != l.id) by {
                    if mid.rows@[i2].link == l.id {
                        let t3 = Target { id: mid.rows@[i2].target };
                        assert(mid.is_row_for(i2, l, t3));
                        assert(mid.has_row(l, t3));
                    }
                }
            }
            Self::lemma_same_rows_same_assoc(mid, post);
            assert forall|l2: WeakLink, t2: Target| l2 != l implies #[trigger] post.has_row(l2, t2)
                == old(self).has_row(l2, t2) && (post.has_row(l2, t2) ==> post.row_value(l2, t2)
                == old(self).row_value(l2, t2)) by {
                assert(mid.has_row(l2, t2) == post.has_row(l2, t2));
            }
            assert forall|t2: Target| !(#[trigger] post.has_row(l, t2)) by {
                assert(mid.has_row(l, t2) == post.has_row(l, t2));
            }
        }
    }

    /// Destroys the target `t`: every association row keyed by `t`, in any
    /// link, is removed, and `t` can never be associated again. No link, no
    /// other target, and no other row is affected.
    pub fn destroy_target(&mut self, t: Target)
        requires
            old(self).wf(),
        ensures
            final (self).wf(),
            !final (self).target_alive(t),
            forall|l2: WeakLink| !(#[trigger] final (self).has_row(l2, t)),
            forall|t2: Target|
                t2 != t ==> #[trigger] final (self).target_alive(t2) == old(self).target_alive(t2),
            forall|l2: WeakLink| #[trigger] final (self).link_alive(l2) == old(self).link_alive(l2),
            Self::same_assoc_except_target(*final (self), *old(self), t),
    {
        let mut i: usize = 0;
        while i < self.rows.len()
            invariant
                old(self).wf(),
                self.wf(),
                i <= self.rows@.len(),
                self.links@ == old(self).links@,
                self.targets@ == old(self).targets@,
                forall|j: int| 0 <= j < i ==> (#[trigger] self.rows@[j]).target != t.id,
                Self::same_assoc_except_target(*self, *old(self), t),
                forall|l2: WeakLink| #[trigger]
                    self.has_row(l2, t) ==> exists|j: int|
                        i <= j && self.is_row_for(j, l2, t),
            decreases self.rows@.len() - i,
        {
            if self.rows[i].target == t.id {
                let ghost pre = *self;
                let ghost l2 = WeakLink { id: pre.rows@[i as int].link };
                proof {
                    assert(pre.is_row_for(i as int, l2, t));
                }
                self.rows.remove(i);
                proof {
                    let post = *self;
                    assert forall|i2: int| 0 <= i2 < post.rows@.len() implies #[trigger]
                    post.row_ok(i2) by {
                        if i2 < i {
                            assert(post.rows@[i2] == pre.rows@[i2]);
                            assert(pre.row_ok(i2));
                        } else {
                            assert(post.rows@[i2] == pre.rows@[i2 + 1]);
                            assert(pre.row_ok(i2 + 1));
                        }
                    }
                    assert forall|i2: int, j2: int|
                        0 <= i2 < post.rows@.len() && 0 <= j2 < post.rows@.len() && i2 != j2 implies !((
                    #[trigger] post.rows@[i2]).link == (#[trigger] post.rows@[j2]).link
                        && post.rows@[i2].target == post.rows@[j2].target) by {
                        let oi = if i2 < i {
                            i2
                        } else {
                            i2 + 1
                        };
                        let oj = if j2 < i {
                            j2
                        } else {
                            j2 + 1
                        };
                        assert(post.rows@[i2] == pre.rows@[oi]);
                        assert(post.rows@[j2] == pre.rows@[oj]);
                    }
                    assert forall|j: int| 0 <= j < i implies (#[trigger] post.rows@[j]).target
                        != t.id by {
                        assert(post.rows@[j] == pre.rows@[j]);
                    }
                    assert forall|l3: WeakLink, t3: Target| t3 != t implies #[trigger] post.has_row(
                        l3,
                        t3,
                    ) == old(self).has_row(l3, t3) && (post.has_row(l3, t3) ==> post.row_value(
                        l3,
                        t3,
                    ) == old(self).row_value(l3, t3)) by {
                        if pre.has_row(l3, t3) {
                            let oi = choose|oi: int| pre.is_row_for(oi, l3, t3);
                            assert(oi != i);
                            let ni = if oi < i {
                                oi
                            } else {
                                oi - 1
                            };
                            assert(post.is_row_for(ni, l3, t3));
                            post.lemma_row_value_at(l3, t3, ni);
                            pre.lemma_row_value_at(l3, t3, oi);
                        }
                        if post.has_row(l3, t3) {
                            let ni = choose|ni: int| post.is_row_for(ni, l3, t3);
                            let oi = if ni < i {
                                ni
                            } else {
                                ni + 1
                            };
                            assert(pre.is_row_for(oi, l3, t3));
                            assert(pre.has_row(l3, t3));
                        }
                    }
                    assert forall|l3: WeakLink| #[trigger] post.has_row(l3, t) implies exists|
                        j: int,
                    |
                        i <= j && post.is_row_for(j, l3, t) by {
                        let ni = choose|ni: int| post.is_row_for(ni, l3, t);
                        assert(post.rows@[ni].target == t.id);
                        assert(ni >= i);
                    }
                }
            } else {
                i = i + 1;
            }
        }
        proof {
            assert forall|l2: WeakLink| !(#[trigger] self.has_row(l2, t)) by {
                if self.has_row(l2, t) {
                    let j = choose|j: int| i <= j && self.is_row_for(j, l2, t);
                    assert(self.rows@[j].target != t.id);
                }
            }
        }
        let ghost mid = *self;
        if t.id < self.targets.len() {
            self.targets[t.id] = false;
        }
        proof {
            let post = *self;
            assert forall|i2: int| 0 <= i2 < post.rows@.len() implies #[trigger] post.row_ok(
                i2,
            ) by {
                assert(mid.row_ok(i2));
                assert(mid.rows@[i2].target != t.id) by {
                    if mid.rows@[i2].target == t.id {
                        let l3 = WeakLink { id: mid.rows@[i2].link };
                        assert(mid.is_row_for(i2, l3, t));
                        assert(mid.has_row(l3, t));
                    }
                }
            }
            Self::lemma_same_rows_same_assoc(mid, post);
            assert forall|l2: WeakLink, t2: Target| t2 != t implies #[trigger] post.has_row(l2, t2)
                == old(self).has_row(l2, t2) && (post.has_row(l2, t2) ==> post.row_value(l2, t2)
                == old(self).row_value(l2, t2)) by {
                assert(mid.has_row(l2, t2) == post.has_row(l2, t2));
            }
            assert forall|l2: WeakLink| !(#[trigger] post.has_row(l2, t)) by {
                assert(mid.has_row(l2, t) == post.has_row(l2, t));
            }
        }
    }
}

} // verus!
