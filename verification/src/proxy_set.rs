use crate::proxy::Proxy;
use vstd::prelude::*;

verus! {

/// One past the largest word index a 64-bit handle index can fall in,
/// so a word vector never needs to grow beyond it.
const WORD_LIMIT: u64 = 0x0400000000000000;

/// Whether bit `b` of `word` is set.
spec fn bit_set(word: u64, b: u64) -> bool {
    (word >> b) & 1 == 1
}

/// Whether index `i` is present in the bitmap `words`: bit `i % 64` of
/// word `i / 64`.
spec fn id_present(words: Seq<u64>, i: u64) -> bool {
    i / 64 < words.len() && bit_set(words[(i / 64) as int], i % 64)
}

/// A set of handles of one element type, specialised for large and
/// often-dense index ranges.
///
/// Membership is tracked as a bitmap: bit `i % 64` of word `i / 64`
/// records whether the handle with index `i` has been inserted.  The
/// word vector only grows far enough to hold the highest index inserted
/// so far, so dense handle populations in the tens of thousands cost a
/// few kilobytes, and membership tests are a single word probe.
///
/// Observably the set behaves exactly like a mathematical set of the
/// handles' indices: see [`ProxySet::ids`].
pub struct ProxySet<T> {
    _marker: core::marker::PhantomData<T>,
    words: Vec<u64>,
}

impl<T> ProxySet<T> {
    /// The set of handle indices inserted so far.
    pub closed spec fn ids(self) -> Set<u64> {
        Set::new(|i: u64| id_present(self.words@, i))
    }

    #[verifier::type_invariant]
    spec fn wf(self) -> bool {
        self.words@.len() <= WORD_LIMIT
    }

    /// Create a new, empty set.
    pub fn new() -> (s: ProxySet<T>)
        ensures
            s.ids() == Set::<u64>::empty(),
    {
        let s = ProxySet { _marker: core::marker::PhantomData, words: Vec::new() };
        proof {
            assert(s.ids() =~= Set::<u64>::empty());
        }
        s
    }

    /// Whether `p` has been inserted into this set.
    pub fn contains(&self, p: &Proxy<T>) -> (r: bool)
        ensures
            r == self.ids().contains(p.id()),
    {
        let i = p.index();
        let w = i / 64;
        if w < self.words.len() as u64 {
            let word = self.words[w as usize];
            let b = i % 64;
            (word >> b) & 1 == 1
        } else {
            false
        }
    }

    /// Insert `p` into this set.  Inserting a handle twice leaves the
    /// set unchanged.
    pub fn insert(&mut self, p: Proxy<T>)
        ensures
            final(self).ids() == old(self).ids().insert(p.id()),
    {
        proof {
            use_type_invariant(&*self);
        }
        let i = p.index();
        let w = i / 64;
        let mut ws: Vec<u64> = Vec::new();
        core::mem::swap(&mut self.words, &mut ws);
        let ghost prior: Seq<u64> = ws@;
        while ws.len() as u64 <= w
            invariant
                w == p.id() / 64,
                w < WORD_LIMIT,
                ws@.len() <= w + 1 || ws@ == prior,
                prior.is_prefix_of(ws@),
                forall|k: int| prior.len() <= k < ws@.len() ==> ws@[k] == 0u64,
            decreases w + 1 - ws@.len(),
        {
            ws.push(0u64);
        }
        proof {
            assert forall|j: u64| id_present(ws@, j) == id_present(prior, j) by {
                if j / 64 < prior.len() {
                    assert(ws@[(j / 64) as int] == prior[(j / 64) as int]);
                } else if j / 64 < ws@.len() {
                    assert(ws@[(j / 64) as int] == 0u64);
                    assert(!bit_set(0u64, j % 64)) by (bit_vector);
                }
            }
        }
        let ghost grown: Seq<u64> = ws@;
        let b = i % 64;
        let word = ws[w as usize];
        let slot = &mut ws[w as usize];
        *slot = word | (1u64 << b);
        core::mem::swap(&mut self.words, &mut ws);
        proof {
            assert(self.words@ == grown.update(w as int, word | (1u64 << b)));
            assert forall|j: u64|
                self.ids().contains(j) == old(self).ids().insert(i).contains(j) by {
                lemma_div_mod_identity(j);
                lemma_div_mod_identity(i);
                if j == i {
                    assert(b < 64) by (bit_vector)
                        requires
                            b == i % 64,
                    ;
                    assert(bit_set(word | (1u64 << b), b)) by (bit_vector)
                        requires
                            b < 64,
                    ;
                } else if j / 64 == w {
                    let c = j % 64;
                    assert(c != b);
                    assert(bit_set(word | (1u64 << b), c) == bit_set(word, c)) by (bit_vector)
                        requires
                            c != b,
                    ;
                    assert(grown[(j / 64) as int] == prior[(j / 64) as int] || (grown[(j / 64)
                        as int] == 0u64 && prior.len() <= j / 64));
                    assert(!bit_set(0u64, c)) by (bit_vector);
                } else {
                    assert(self.words@[(j / 64) as int] == grown[(j / 64) as int] || j / 64
                        >= self.words@.len());
                    assert(id_present(grown, j) == id_present(prior, j));
                }
            }
            assert(self.ids() =~= old(self).ids().insert(i));
        }
    }

    /// All handles in the set, in ascending index order.
    ///
    /// The returned run mentions each member of the set exactly once:
    /// its indices are strictly ascending, every entry is a member, and
    /// every member appears.
    pub fn elements(&self) -> (out: Vec<Proxy<T>>)
        ensures
            forall|k1: int, k2: int|
                0 <= k1 < k2 < out@.len() ==> out@[k1].id() < out@[k2].id(),
            forall|k: int| 0 <= k < out@.len() ==> self.ids().contains((#[trigger] out@[k]).id()),
            forall|v: u64|
                self.ids().contains(v) ==> exists|k: int|
                    0 <= k < out@.len() && (#[trigger] out@[k]).id() == v,
    {
        let mut out: Vec<Proxy<T>> = Vec::new();
        let mut it = self.iter();
        loop
            invariant
                it.contents() == self.ids(),
                forall|k1: int, k2: int|
                    0 <= k1 < k2 < out@.len() ==> out@[k1].id() < out@[k2].id(),
                forall|k: int|
                    0 <= k < out@.len() ==> self.ids().contains((#[trigger] out@[k]).id()),
                forall|k: int| 0 <= k < out@.len() ==> (#[trigger] out@[k]).id() < it.cursor(),
                forall|v: u64|
                    self.ids().contains(v) && v < it.cursor() ==> exists|k: int|
                        0 <= k < out@.len() && (#[trigger] out@[k]).id() == v,
            decreases u64::MAX as int + 1 - it.cursor(),
        {
            let ghost before = it.cursor();
            let step = it.next();
            match step {
                Some(p) => {
                    let ghost prev = out@;
                    out.push(p);
                    proof {
                        assert forall|v: u64|
                            self.ids().contains(v) && v < it.cursor() implies exists|k: int|
                            0 <= k < out@.len() && (#[trigger] out@[k]).id() == v by {
                            if v == p.id() {
                                assert(out@[prev.len() as int].id() == v);
                            } else if v < before {
                                let k = choose|k: int|
                                    0 <= k < prev.len() && (#[trigger] prev[k]).id() == v;
                                assert(out@[k].id() == v);
                            }
                        }
                    }
                },
                None => {
                    return out;
                },
            }
        }
    }

    /// Iterate over the handles in this set, in ascending index order.
    pub fn iter(&self) -> (it: ProxySetIterator<'_, T>)
        ensures
            it.contents() == self.ids(),
            it.cursor() == 0,
    {
        proof {
            use_type_invariant(self);
        }
        ProxySetIterator {
            _marker: core::marker::PhantomData,
            words: &self.words,
            cur: 0,
            done: false,
        }
    }
}

impl<T> Default for ProxySet<T> {
    /// Sets are created empty.
    fn default() -> (s: ProxySet<T>)
        ensures
            s.ids() == Set::<u64>::empty(),
    {
        ProxySet::new()
    }
}

/// The Euclidean decomposition of an index into its word and bit parts.
proof fn lemma_div_mod_identity(j: u64)
    ensures
        j == 64 * (j / 64) + j % 64,
        j % 64 < 64,
{
}

/// A cursor over the handles in a [`ProxySet`], yielding them in
/// ascending index order, each exactly once.
pub struct ProxySetIterator<'a, T> {
    _marker: core::marker::PhantomData<T>,
    words: &'a Vec<u64>,
    cur: u64,
    done: bool,
}

impl<'a, T> ProxySetIterator<'a, T> {
    /// The set of handle indices being walked.
    pub closed spec fn contents(self) -> Set<u64> {
        Set::new(|i: u64| id_present(self.words@, i))
    }

    /// The next candidate index: every index below it has either been
    /// yielded or was never in the set.
    pub closed spec fn cursor(self) -> int {
        if self.done {
            u64::MAX as int + 1
        } else {
            self.cur as int
        }
    }

    #[verifier::type_invariant]
    spec fn wf(self) -> bool {
        self.words@.len() <= WORD_LIMIT
    }

    /// The smallest handle in the set at or above the cursor, or `None`
    /// once every handle has been yielded.
    pub fn next(&mut self) -> (r: Option<Proxy<T>>)
        ensures
            final(self).contents() == old(self).contents(),
            r.is_some() ==> (old(self).cursor() <= r.unwrap().id()
                && old(self).contents().contains(r.unwrap().id()) && (forall|j: u64|
                old(self).cursor() <= j < r.unwrap().id() ==> !old(self).contents().contains(j))
                && final(self).cursor() == r.unwrap().id() + 1),
            r.is_none() ==> ((forall|j: u64|
                old(self).cursor() <= j ==> !old(self).contents().contains(j))
                && final(self).cursor() >= old(self).cursor()),
    {
        proof {
            use_type_invariant(&*self);
        }
        if self.done {
            return None;
        }
        let n = self.words.len();
        let mut i = self.cur;
        if i / 64 >= n as u64 {
            proof {
                assert forall|j: u64| i <= j implies !id_present(self.words@, j) by {
                    vstd::arithmetic::div_mod::lemma_div_is_ordered(i as int, j as int, 64);
                }
            }
            self.done = true;
            return None;
        }
        proof {
            lemma_div_mod_identity(i);
            assert(i < 64 * (n as u64)) by (nonlinear_arith)
                requires
                    i / 64 < n,
                    i == 64 * (i / 64) + i % 64,
                    i % 64 < 64,
            ;
        }
        loop
            invariant
                !self.done,
                !old(self).done,
                self.cur == old(self).cur,
                self.words == old(self).words,
                n == self.words@.len(),
                n <= WORD_LIMIT,
                self.cur <= i,
                i < 64 * (n as u64),
                forall|j: u64| self.cur <= j < i ==> !id_present(self.words@, j),
            decreases 64 * (n as int) - i,
        {
            let w = i / 64;
            proof {
                assert(w < n as u64) by (nonlinear_arith)
                    requires
                        w == i / 64,
                        i < 64 * (n as u64),
                ;
            }
            let word = self.words[w as usize];
            let b = i % 64;
            if (word >> b) & 1 == 1 {
                proof {
                    assert(id_present(self.words@, i));
                }
                if i < u64::MAX {
                    self.cur = i + 1;
                } else {
                    self.done = true;
                }
                return Some(Proxy::from_index(i));
            }
            if word >> b == 0 {
                proof {
                    lemma_div_mod_identity(i);
                }
                if w + 1 >= n as u64 {
                    proof {
                        assert forall|j: u64| i <= j implies !id_present(self.words@, j) by {
                            lemma_div_mod_identity(j);
                            vstd::arithmetic::div_mod::lemma_div_is_ordered(
                                i as int,
                                j as int,
                                64,
                            );
                            if j / 64 < n {
                                let c = j % 64;
                                assert(b <= c < 64);
                                assert((word >> b == 0 && b <= c < 64) ==> !bit_set(word, c))
                                    by (bit_vector);
                            }
                        }
                    }
                    self.done = true;
                    return None;
                }
                proof {
                    assert forall|j: u64| i <= j < (w + 1) * 64 implies !id_present(
                        self.words@,
                        j,
                    ) by {
                        lemma_div_mod_identity(j);
                        vstd::arithmetic::div_mod::lemma_div_is_ordered(i as int, j as int, 64);
                        let c = j % 64;
                        assert(b <= c < 64);
                        assert((word >> b == 0 && b <= c < 64) ==> !bit_set(word, c))
                            by (bit_vector);
                    }
                    assert((w + 1) * 64 <= 64 * (n as u64));
                }
                i = (w + 1) * 64;
            } else {
                proof {
                    assert((!(word >> b == 0) && !((word >> b) & 1 == 1) && b == i % 64
                        && b < 64) ==> i % 64 < 63) by (bit_vector);
                }
                i = i + 1;
            }
        }
    }
}

/// The ids a run of insertions builds up, one insertion at a time.
pub open spec fn inserted_ids(run: Seq<u64>) -> Set<u64>
    decreases run.len(),
{
    if run.len() == 0 {
        Set::<u64>::empty()
    } else {
        inserted_ids(run.drop_last()).insert(run.last())
    }
}

/// For any run of insertions, including duplicates, membership is
/// exactly "inserted at least once".  [`ProxySet::insert`] turns a run
/// into `inserted_ids` of the inserted indices, starting from the empty
/// set of [`ProxySet::new`], so [`ProxySet::contains`] answers whether
/// the run mentions the index.
pub proof fn lemma_membership_after_run(run: Seq<u64>, i: u64)
    ensures
        inserted_ids(run).contains(i) == run.contains(i),
    decreases run.len(),
{
    if run.len() > 0 {
        lemma_membership_after_run(run.drop_last(), i);
        if run.contains(i) {
            let k = choose|k: int| 0 <= k < run.len() && run[k] == i;
            if k < run.len() - 1 {
                assert(run.drop_last()[k] == i);
            }
        } else {
            assert(forall|k: int| 0 <= k < run.len() - 1 ==> run.drop_last()[k] == run[k]);
        }
    }
}

/// Whether a run of indices is strictly ascending.
pub open spec fn ascending(run: Seq<u64>) -> bool {
    forall|k1: int, k2: int| 0 <= k1 < k2 < run.len() ==> run[k1] < run[k2]
}

/// Ascending enumeration is canonical: two strictly ascending runs with
/// the same membership are the same run.  Each handle a
/// [`ProxySetIterator`] yields is above the one before and the gaps hold
/// no members, so the run it yields mentions each member exactly once in
/// ascending order and coincides with the enumeration any ordered-set
/// reference produces.
pub proof fn lemma_ascending_run_unique(xs: Seq<u64>, ys: Seq<u64>)
    requires
        ascending(xs),
        ascending(ys),
        forall|v: u64| xs.contains(v) == ys.contains(v),
    ensures
        xs == ys,
    decreases xs.len(),
{
    if xs.len() == 0 {
        if ys.len() > 0 {
            assert(ys.contains(ys[0]));
        }
        assert(xs =~= ys);
    } else {
        assert(xs.contains(xs[0]));
        assert(ys.len() > 0);
        let kx = choose|k: int| 0 <= k < ys.len() && ys[k] == xs[0];
        assert(ys[0] <= ys[kx]);
        assert(ys.contains(ys[0]));
        let ky = choose|k: int| 0 <= k < xs.len() && xs[k] == ys[0];
        assert(xs[0] <= xs[ky]);
        assert(xs[0] == ys[0]);
        let xs1 = xs.subrange(1, xs.len() as int);
        let ys1 = ys.subrange(1, ys.len() as int);
        assert forall|v: u64| xs1.contains(v) == ys1.contains(v) by {
            lemma_tail_membership(xs, v);
            lemma_tail_membership(ys, v);
        }
        lemma_ascending_run_unique(xs1, ys1);
        assert forall|k: int| 0 <= k < xs.len() implies xs[k] == ys[k] by {
            if k > 0 {
                assert(xs[k] == xs1[k - 1] && ys[k] == ys1[k - 1]);
            }
        }
        assert(xs =~= ys);
    }
}

/// In a strictly ascending run, the tail mentions exactly the members
/// above the head.
proof fn lemma_tail_membership(run: Seq<u64>, v: u64)
    requires
        ascending(run),
        run.len() > 0,
    ensures
        run.subrange(1, run.len() as int).contains(v) == (run.contains(v) && v > run[0]),
{
    let tail = run.subrange(1, run.len() as int);
    if tail.contains(v) {
        let k = choose|k: int| 0 <= k < tail.len() && tail[k] == v;
        assert(run[k + 1] == v);
        assert(run.contains(v));
        assert(run[0] < run[k + 1]);
    }
    if run.contains(v) && v > run[0] {
        let k = choose|k: int| 0 <= k < run.len() && run[k] == v;
        assert(k > 0);
        assert(tail[k - 1] == v);
        assert(tail.contains(v));
    }
}

} // verus!
