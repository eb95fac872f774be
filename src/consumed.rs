//! Melds: fixed-size groups of tiles, always kept sorted by the tile order.
use vstd::prelude::*;
use vstd::relations::{sorted_by, total_ordering};
use vstd::seq_lib::lemma_sorted_unique;
use crate::pai::{Pai, all_pai_text, all_wf, array_texts, first_bad, ord_key, pai_leq, pais_of, pais_text, parse_pais};

verus! {

broadcast use vstd::seq_lib::group_to_multiset_ensures;

/// The tile order as a relation.
pub open spec fn pai_order() -> spec_fn(Pai, Pai) -> bool {
    |a: Pai, b: Pai| pai_leq(a, b)
}

/// `s` is in canonical order.
pub open spec fn sorted_pais(s: Seq<Pai>) -> bool {
    forall|i: int, j: int| 0 <= i < j < s.len() ==> ord_key(#[trigger] s[i].id) <= ord_key(#[trigger] s[j].id)
}

/// The tiles a player put into a call, sorted by the tile order.
#[derive(Clone, Copy, Debug, PartialEq, Eq, Hash)]
pub struct Consumed<const N: usize> {
    pub pais: [Pai; N],
}

/// The two tiles of a chi or pon.
pub type Consumed2 = Consumed<2>;

/// The three tiles of a daiminkan or kakan.
pub type Consumed3 = Consumed<3>;

/// The four tiles of an ankan.
pub type Consumed4 = Consumed<4>;

/// The tile order is a total order.
pub proof fn lemma_pai_order_total()
    ensures
        total_ordering(pai_order()),
{
    assert forall|a: Pai, b: Pai| #[trigger] pai_order()(a, b) && #[trigger] pai_order()(b, a) implies a == b by {
        assert(a.id == b.id);
    }
}

pub proof fn lemma_sorted_by(s: Seq<Pai>)
    requires
        sorted_pais(s),
    ensures
        sorted_by(s, pai_order()),
{
    assert forall|i: int, j: int| 0 <= i < j < s.len() implies #[trigger] pai_order()(s[i], s[j]) by {
        assert(ord_key(s[i].id) <= ord_key(s[j].id));
    }
}

/// Two sorted tile sequences with the same tiles are the same sequence.
pub proof fn lemma_canonical_unique(x: Seq<Pai>, y: Seq<Pai>)
    requires
        sorted_pais(x),
        sorted_pais(y),
        x.to_multiset() == y.to_multiset(),
    ensures
        x == y,
{
    lemma_pai_order_total();
    lemma_sorted_by(x);
    lemma_sorted_by(y);
    lemma_sorted_unique(x, y, pai_order());
}

/// A sorted sequence is the sorted form of every sequence with the same tiles.
pub proof fn lemma_sorted_is_sort(x: Seq<Pai>, s: Seq<Pai>)
    requires
        sorted_pais(x),
        x.to_multiset() == s.to_multiset(),
    ensures
        x == s.sort_by(pai_order()),
{
    lemma_pai_order_total();
    s.lemma_sort_by_ensures(pai_order());
    lemma_sorted_by(x);
    lemma_sorted_unique(x, s.sort_by(pai_order()), pai_order());
}

/// `c` is the canonical arrangement of the tiles of `p`.
pub open spec fn canonical_of(p: Seq<Pai>, c: Seq<Pai>) -> bool {
    sorted_pais(c) && c.to_multiset() == p.to_multiset()
}

/// Building a meld from two arrangements of the same tiles gives the same
/// meld, and so the same texts when it is written.
pub proof fn lemma_order_independent<const N: usize>(p: [Pai; N], q: [Pai; N], c: Consumed<N>, d: Consumed<N>)
    requires
        p@.to_multiset() == q@.to_multiset(),
        canonical_of(p@, c.pais@),
        canonical_of(q@, d.pais@),
    ensures
        c == d,
        pais_text(c.pais@) == pais_text(d.pais@),
{
    lemma_canonical_unique(c.pais@, d.pais@);
    assert(c.pais =~= d.pais);
}

impl<const N: usize> Consumed<N> {
    /// Holds the canonical order, and only tiles that exist.
    pub open spec fn wf(self) -> bool {
        &&& sorted_pais(self.pais@)
        &&& all_wf(self.pais@)
    }

    /// The meld of the given tiles, in any order: they are sorted.
    pub fn new(pais: [Pai; N]) -> (r: Self)
        ensures
            canonical_of(pais@, r.pais@),
    {
        let mut a = pais;
        let mut i: usize = 0;
        while i < N
            invariant
                i <= N,
                a@.len() == N,
                a@.to_multiset() == pais@.to_multiset(),
                forall|x: int, y: int| 0 <= x < y < i ==> ord_key(#[trigger] a@[x].id) <= ord_key(#[trigger] a@[y].id),
                forall|x: int, y: int| 0 <= x < i <= y < N ==> ord_key(#[trigger] a@[x].id) <= ord_key(#[trigger] a@[y].id),
            decreases N - i,
        {
            let mut m: usize = i;
            let mut j: usize = i + 1;
            while j < N
                invariant
                    i <= m < N,
                    i < j <= N,
                    a@.len() == N,
                    forall|y: int| i <= y < j ==> ord_key(a@[m as int].id) <= ord_key(#[trigger] a@[y].id),
                decreases N - j,
            {
                if a[j].as_ord() < a[m].as_ord() {
                    m = j;
                }
                j += 1;
            }
            let ghost before = a@;
            let pi = a[i];
            let pm = a[m];
            a[i] = pm;
            a[m] = pi;
            proof {
                assert(a@ == before.update(i as int, pm).update(m as int, pi));
                let mid = before.update(i as int, pm);
                assert(mid.to_multiset() == before.to_multiset().insert(pm).remove(pi));
                assert(a@.to_multiset() == mid.to_multiset().insert(pi).remove(mid[m as int]));
                if m == i {
                    assert(mid[m as int] == pm);
                } else {
                    assert(mid[m as int] == pm);
                }
                assert(a@.to_multiset() =~= before.to_multiset());
            }
            i += 1;
        }
        Consumed { pais: a }
    }

    /// The tiles, in canonical order.
    pub fn as_array(self) -> (r: [Pai; N])
        ensures
            r == self.pais,
    {
        self.pais
    }

    /// The text forms of the tiles, in canonical order.
    pub fn to_texts(&self) -> (r: Vec<String>)
        requires
            self.wf(),
        ensures
            r.deep_view() == pais_text(self.pais@),
    {
        array_texts(&self.pais)
    }

    /// Parses `N` tile texts, in any order, into a meld. On failure, gives the
    /// position of the first text that names no tile.
    pub fn from_texts(texts: &Vec<String>) -> (r: Result<Self, usize>)
        requires
            texts.len() == N,
        ensures
            r matches Ok(c) ==> c.wf() && all_pai_text(texts.deep_view())
                && c.pais@.to_multiset() == pais_of(texts.deep_view()).to_multiset(),
            r matches Err(i) ==> i < N && i == first_bad(texts.deep_view()) && !all_pai_text(texts.deep_view()),
    {
        match parse_pais(texts) {
            Err(i) => Err(i),
            Ok(v) => {
                let mut a: [Pai; N] = [Pai { id: 0 }; N];
                let mut i: usize = 0;
                while i < N
                    invariant
                        i <= N,
                        v@.len() == N,
                        a@.len() == N,
                        forall|k: int| 0 <= k < i ==> a@[k] == v@[k],
                    decreases N - i,
                {
                    a[i] = v[i];
                    i += 1;
                }
                assert(a@ =~= v@);
                let c = Self::new(a);
                proof {
                    assert(all_wf(c.pais@)) by {
                        assert forall|k: int| 0 <= k < N implies #[trigger] c.pais@[k].wf() by {
                            assert(c.pais@.to_multiset().count(c.pais@[k]) > 0);
                            assert(v@.contains(c.pais@[k]));
                        }
                    }
                }
                Ok(c)
            },
        }
    }
}

} // verus!
