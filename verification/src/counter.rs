//! A small occurrence counter: how often each key was seen, which key was
//! seen most, and — for string keys — which stored key is shortest. Keys are
//! kept in first-insertion order.

use vstd::prelude::*;

verus! {

/// What a counter key must offer: a decidable equality that agrees with the
/// key's mathematical image, and an identity-preserving copy.
pub trait CounterKey: Sized + DeepView {
    fn key_eq(&self, other: &Self) -> (r: bool)
        ensures
            r == (self.deep_view() == other.deep_view()),
    ;
}

impl CounterKey for String {
    fn key_eq(&self, other: &Self) -> (r: bool)
        ensures
            r == (self.deep_view() == other.deep_view()),
    {
        crate::strutil::str_eq(self.as_str(), other.as_str())
    }
}

impl CounterKey for bool {
    fn key_eq(&self, other: &Self) -> (r: bool)
        ensures
            r == (self.deep_view() == other.deep_view()),
    {
        *self == *other
    }
}

impl CounterKey for i64 {
    fn key_eq(&self, other: &Self) -> (r: bool)
        ensures
            r == (self.deep_view() == other.deep_view()),
    {
        *self == *other
    }
}

/// Asking the most common or the shortest key of an empty counter.
#[derive(PartialEq, Eq, Structural, Copy, Clone, Debug)]
pub enum CounterError {
    Empty,
}

/// How often each key has been seen. Keys are distinct and hold positive
/// counts; a count pins at the machine's ceiling instead of wrapping.
pub struct Counter<K> {
    elems: Vec<(K, usize)>,
}

/// First index holding `key`, or -1.
pub open spec fn key_index<T>(s: Seq<(T, int)>, key: T) -> int
    decreases s.len(),
{
    if s.len() == 0 {
        -1
    } else if s[0].0 == key {
        0
    } else if key_index(s.skip(1), key) == -1 {
        -1
    } else {
        1 + key_index(s.skip(1), key)
    }
}

pub proof fn lemma_key_index<T>(s: Seq<(T, int)>, key: T)
    ensures
        -1 <= key_index(s, key) < s.len(),
        key_index(s, key) == -1 ==> forall|i: int| 0 <= i < s.len() ==> (#[trigger] s[i]).0 != key,
        key_index(s, key) >= 0 ==> s[key_index(s, key)].0 == key,
        forall|i: int| 0 <= i < key_index(s, key) ==> (#[trigger] s[i]).0 != key,
    decreases s.len(),
{
    if s.len() > 0 && s[0].0 != key {
        lemma_key_index(s.skip(1), key);
        let r1 = key_index(s.skip(1), key);
        if r1 == -1 {
            assert forall|i: int| 0 <= i < s.len() implies (#[trigger] s[i]).0 != key by {
                if i > 0 {
                    assert(s.skip(1)[i - 1] == s[i]);
                    assert(s.skip(1)[i - 1].0 != key);
                }
            }
        } else {
            assert(s.skip(1)[r1] == s[1 + r1]);
            assert forall|i: int| 0 <= i < 1 + r1 implies (#[trigger] s[i]).0 != key by {
                if i > 0 {
                    assert(s.skip(1)[i - 1] == s[i]);
                    assert(s.skip(1)[i - 1].0 != key);
                }
            }
        }
    }
}

/// A count one higher, short of the machine ceiling.
pub open spec fn bumped(c: int) -> int {
    if c < usize::MAX as int {
        c + 1
    } else {
        c
    }
}

/// Index of the first entry whose count no later entry beats: the earliest
/// most-common key.
pub open spec fn best_count_index(s: Seq<(int, int)>) -> int
    decreases s.len(),
{
    if s.len() <= 1 {
        0
    } else {
        let b = best_count_index(s.drop_last());
        if s.last().1 > s[b].1 {
            s.len() - 1
        } else {
            b
        }
    }
}

impl<K: CounterKey> Counter<K> {
    /// The keys with their counts, in first-insertion order.
    pub closed spec fn entries(&self) -> Seq<(<K as DeepView>::V, int)> {
        self.elems@.map_values(|p: (K, usize)| (p.0.deep_view(), p.1 as int))
    }

    pub open spec fn wf(&self) -> bool {
        &&& forall|i: int, j: int|
            0 <= i < j < self.entries().len() ==> (#[trigger] self.entries()[i]).0 != (
            #[trigger] self.entries()[j]).0
        &&& forall|i: int| 0 <= i < self.entries().len() ==> (#[trigger] self.entries()[i]).1 >= 1
    }

    pub fn new() -> (r: Counter<K>)
        ensures
            r.wf(),
            r.entries() == Seq::<(<K as DeepView>::V, int)>::empty(),
    {
        let r = Counter { elems: Vec::new() };
        proof {
            assert(r.entries() =~= Seq::<(<K as DeepView>::V, int)>::empty());
        }
        r
    }

    /// Seen once more: a new key enters with count one, a known key's count
    /// rises by one.
    pub fn inc(self: &mut Self, k: K)
        requires
            old(self).wf(),
        ensures
            final(self).wf(),
            ({
                let oldv = old(self).entries();
                let newv = final(self).entries();
                let j = key_index(oldv, k.deep_view());
                &&& (j == -1 ==> newv == oldv.push((k.deep_view(), 1int)))
                &&& (j >= 0 ==> newv == oldv.update(j, (k.deep_view(), bumped(oldv[j].1))))
            }),
    {
        let ghost oldv = self.entries();
        let ghost key = k.deep_view();
        let n = self.elems.len();
        let mut i: usize = 0;
        while i < n
            invariant
                0 <= i <= n,
                n == self.elems@.len(),
                *self == *old(self),
                oldv == self.entries(),
                key == k.deep_view(),
                old(self).wf(),
                forall|j: int| 0 <= j < i ==> (#[trigger] oldv[j]).0 != key,
            decreases n - i,
        {
            proof {
                assert(oldv[i as int] == (
                    self.elems@[i as int].0.deep_view(),
                    self.elems@[i as int].1 as int,
                ));
            }
            if self.elems[i].0.key_eq(&k) {
                proof {
                    lemma_key_index(oldv, key);
                    let j = key_index(oldv, key);
                    assert(j != -1);
                    assert(!(j < i)) by {
                        if 0 <= j < i {
                            assert(oldv[j].0 != key);
                        }
                    }
                    assert(!(j > i)) by {
                        if j > i {
                            assert(oldv[i as int].0 != key);
                        }
                    }
                }
                let ghost before = self.elems@;
                let pair = self.elems.remove(i);
                let c = pair.1;
                let bumped_c = if c < usize::MAX {
                    c + 1
                } else {
                    c
                };
                self.elems.insert(i, (k, bumped_c));
                proof {
                    assert(self.elems@ =~= before.update(i as int, self.elems@[i as int]));
                    assert(self.entries() =~= oldv.update(i as int, (key, bumped(oldv[i as int].1))));
                    assert forall|a: int, b: int|
                        0 <= a < b < self.entries().len() implies (#[trigger] self.entries()[a]).0
                        != (#[trigger] self.entries()[b]).0 by {
                        assert(self.entries()[a].0 == oldv[a].0);
                        assert(self.entries()[b].0 == oldv[b].0);
                    }
                }
                return ;
            }
            i = i + 1;
        }
        proof {
            lemma_key_index(oldv, key);
            let j = key_index(oldv, key);
            if j >= 0 {
                assert(oldv[j].0 != key);
            }
        }
        let ghost before = self.elems@;
        self.elems.push((k, 1));
        proof {
            assert(self.entries() =~= oldv.push((key, 1int)));
            assert forall|a: int, b: int|
                0 <= a < b < self.entries().len() implies (#[trigger] self.entries()[a]).0 != (
                #[trigger] self.entries()[b]).0 by {
                if b < oldv.len() {
                    assert(self.entries()[a] == oldv[a]);
                    assert(self.entries()[b] == oldv[b]);
                } else {
                    assert(self.entries()[a] == oldv[a]);
                    assert(oldv[a].0 != key);
                }
            }
        }
    }

    /// The stored keys, in first-insertion order.
    pub fn values(&self) -> (r: Vec<&K>)
        ensures
            r@.len() == self.entries().len(),
            forall|i: int|
                0 <= i < r@.len() ==> (#[trigger] r@[i]).deep_view() == self.entries()[i].0,
    {
        let mut out: Vec<&K> = Vec::new();
        let n = self.elems.len();
        let mut i: usize = 0;
        while i < n
            invariant
                0 <= i <= n,
                n == self.elems@.len(),
                out@.len() == i,
                forall|j: int|
                    0 <= j < i ==> (#[trigger] out@[j]).deep_view() == self.entries()[j].0,
            decreases n - i,
        {
            out.push(&self.elems[i].0);
            proof {
                assert(self.entries()[i as int] == (
                    self.elems@[i as int].0.deep_view(),
                    self.elems@[i as int].1 as int,
                ));
            }
            i = i + 1;
        }
        out
    }

    /// The counts alone, for the most-common comparison.
    pub closed spec fn counts(&self) -> Seq<(int, int)> {
        self.entries().map_values(|p: (<K as DeepView>::V, int)| (0int, p.1))
    }

    /// The key seen most often; among equally common keys, the one seen
    /// first. Fails only on an empty counter.
    pub fn most_common(&self) -> (r: Result<&K, CounterError>)
        ensures
            match r {
                Ok(k) => {
                    &&& self.entries().len() > 0
                    &&& k.deep_view() == self.entries()[best_count_index(self.counts())].0
                    &&& forall|j: int|
                        0 <= j < self.entries().len() ==> (#[trigger] self.entries()[j]).1
                            <= self.entries()[best_count_index(self.counts())].1
                },
                Err(e) => self.entries().len() == 0 && e == CounterError::Empty,
            },
    {
        let n = self.elems.len();
        if n == 0 {
            return Err(CounterError::Empty);
        }
        let mut best: usize = 0;
        let mut i: usize = 1;
        proof {
            assert(self.counts().take(1int).len() == 1);
            assert(best_count_index(self.counts().take(1int)) == 0);
        }
        while i < n
            invariant
                0 < i <= n,
                0 <= best < i,
                n == self.elems@.len(),
                best == best_count_index(self.counts().take(i as int)),
                forall|j: int|
                    0 <= j < i ==> (#[trigger] self.entries()[j]).1 <= self.entries()[
                        best as int
                    ].1,
            decreases n - i,
        {
            let ghost cs = self.counts();
            proof {
                assert(cs.take(i + 1).drop_last() =~= cs.take(i as int));
                assert(cs.take(i + 1).last() == cs[i as int]);
                assert(cs[i as int].1 == self.entries()[i as int].1);
                assert(cs[best as int].1 == self.entries()[best as int].1);
                assert(self.entries()[i as int] == (
                    self.elems@[i as int].0.deep_view(),
                    self.elems@[i as int].1 as int,
                ));
                assert(self.entries()[best as int] == (
                    self.elems@[best as int].0.deep_view(),
                    self.elems@[best as int].1 as int,
                ));
            }
            if self.elems[i].1 > self.elems[best].1 {
                best = i;
            } else {
            }
            proof {
                assert(cs.take(i + 1)[best_count_index(cs.take(i as int))] == cs[
                    best_count_index(cs.take(i as int))
                ]);
            }
            i = i + 1;
        }
        proof {
            assert(self.counts().take(n as int) =~= self.counts());
            assert(self.entries()[best as int] == (
                self.elems@[best as int].0.deep_view(),
                self.elems@[best as int].1 as int,
            ));
        }
        Ok(&self.elems[best].0)
    }
}

/// Index of the first entry no later entry is shorter than: the earliest
/// shortest key.
pub open spec fn min_len_index(s: Seq<(Seq<char>, int)>) -> int
    decreases s.len(),
{
    if s.len() <= 1 {
        0
    } else {
        let b = min_len_index(s.drop_last());
        if s.last().0.len() < s[b].0.len() {
            s.len() - 1
        } else {
            b
        }
    }
}

/// The stored string with the fewest characters; among equally short ones,
/// the one seen first. Fails only on an empty counter.
pub fn longest(counter: &Counter<String>) -> (r: Result<&String, CounterError>)
    ensures
        match r {
            Ok(k) => {
                &&& counter.entries().len() > 0
                &&& k@ == counter.entries()[min_len_index(counter.entries())].0
                &&& forall|j: int|
                    0 <= j < counter.entries().len() ==> k@.len() <= (
                    #[trigger] counter.entries()[j]).0.len()
            },
            Err(e) => counter.entries().len() == 0 && e == CounterError::Empty,
        },
{
    let keys = counter.values();
    let n = keys.len();
    if n == 0 {
        return Err(CounterError::Empty);
    }
    let mut best: usize = 0;
    let mut i: usize = 1;
    proof {
        assert(counter.entries().take(1int).len() == 1);
        assert(min_len_index(counter.entries().take(1int)) == 0);
        assert(counter.entries().take(1int)[0int] == counter.entries()[0int]);
    }
    while i < n
        invariant
            0 < i <= n,
            0 <= best < i,
            n == keys@.len(),
            n == counter.entries().len(),
            forall|j: int|
                0 <= j < n ==> (#[trigger] keys@[j]).deep_view() == counter.entries()[j].0,
            best == min_len_index(counter.entries().take(i as int)),
            forall|j: int|
                0 <= j < i ==> counter.entries()[best as int].0.len() <= (
                #[trigger] counter.entries()[j]).0.len(),
        decreases n - i,
    {
        let ghost es = counter.entries();
        proof {
            assert(es.take(i + 1).drop_last() =~= es.take(i as int));
            assert(es.take(i + 1).last() == es[i as int]);
            assert(keys@[i as int].deep_view() == es[i as int].0);
            assert(keys@[best as int].deep_view() == es[best as int].0);
        }
        if keys[i].as_str().unicode_len() < keys[best].as_str().unicode_len() {
            best = i;
        } else {
        }
        proof {
            assert(es.take(i + 1)[min_len_index(es.take(i as int))] == es[
                min_len_index(es.take(i as int))
            ]);
        }
        i = i + 1;
    }
    proof {
        assert(counter.entries().take(n as int) =~= counter.entries());
        assert(keys@[best as int].deep_view() == counter.entries()[best as int].0);
    }
    Ok(keys[best])
}

} // verus!
