//! One side of a limit order book: price levels kept in price order.

use vstd::prelude::*;

verus! {

/// A price and the size resting at it, both in units of 10^-8.
#[derive(Clone, Copy, Debug, PartialEq, Eq, Structural)]
pub struct Level {
    pub price: u64,
    pub size: u64,
}

/// Prices strictly ascending and no size zero.
pub open spec fn sorted_levels(s: Seq<Level>) -> bool {
    &&& forall|i: int, j: int| 0 <= i < j < s.len() ==> s[i].price < s[j].price
    &&& forall|i: int| 0 <= i < s.len() ==> #[trigger] s[i].size > 0
}

/// Whether some level of `s` stands at `price`.
pub open spec fn has_price(s: Seq<Level>, price: u64) -> bool {
    exists|i: int| 0 <= i < s.len() && #[trigger] s[i].price == price
}

/// The levels of `s` as a mapping from price to size.
pub open spec fn level_map(s: Seq<Level>) -> Map<u64, u64> {
    Map::new(
        |p: u64| has_price(s, p),
        |p: u64| s[choose|i: int| 0 <= i < s.len() && #[trigger] s[i].price == p].size,
    )
}

/// One update of a side: size zero removes the level, any other size
/// replaces it.
pub open spec fn set_level(m: Map<u64, u64>, price: u64, size: u64) -> Map<u64, u64> {
    if size == 0 {
        m.remove(price)
    } else {
        m.insert(price, size)
    }
}

/// The updates of `ups` made one after the other, first to last.
pub open spec fn apply_levels(m: Map<u64, u64>, ups: Seq<Level>) -> Map<u64, u64>
    decreases ups.len(),
{
    if ups.len() == 0 {
        m
    } else {
        set_level(apply_levels(m, ups.drop_last()), ups.last().price, ups.last().size)
    }
}

/// No size zero among the values of `m`.
pub open spec fn no_empty_level(m: Map<u64, u64>) -> bool {
    forall|p: u64| m.contains_key(p) ==> #[trigger] m[p] > 0
}

/// In a sorted ladder the map holds exactly what each position holds.
pub proof fn lemma_level_map_at(s: Seq<Level>, i: int)
    requires
        sorted_levels(s),
        0 <= i < s.len(),
    ensures
        level_map(s).contains_key(s[i].price),
        level_map(s)[s[i].price] == s[i].size,
{
    let p = s[i].price;
    assert(has_price(s, p));
    let j = choose|j: int| 0 <= j < s.len() && #[trigger] s[j].price == p;
    if j < i {
        assert(s[j].price < s[i].price);
    } else if i < j {
        assert(s[i].price < s[j].price);
    }
}

/// A price-ordered side of the book.
pub struct Ladder {
    levels: Vec<Level>,
}

impl Ladder {
    /// The levels, lowest price first.
    pub closed spec fn levels(&self) -> Seq<Level> {
        self.levels@
    }

    /// Prices strictly ascend and no level is empty. Every ladder that
    /// running code holds is so.
    #[verifier::type_invariant]
    pub open spec fn wf(&self) -> bool {
        sorted_levels(self.levels())
    }

    /// An empty side.
    pub fn new() -> (r: Self)
        ensures
            r.wf(),
            r.levels() == Seq::<Level>::empty(),
            r@ == Map::<u64, u64>::empty(),
    {
        let r = Ladder { levels: Vec::new() };
        assert(r@ =~= Map::<u64, u64>::empty());
        r
    }

    /// A second ladder with the same levels.
    pub fn copy(&self) -> (r: Self)
        ensures
            r.levels() == self.levels(),
            r@ == self@,
            r.wf(),
    {
        proof {
            use_type_invariant(self);
        }
        let n = self.levels.len();
        let mut levels: Vec<Level> = Vec::new();
        let mut i: usize = 0;
        while i < n
            invariant
                i <= n,
                n == self.levels@.len(),
                levels@ == self.levels@.take(i as int),
            decreases n - i,
        {
            levels.push(self.levels[i]);
            assert(levels@ =~= self.levels@.take(i + 1));
            i = i + 1;
        }
        assert(self.levels@.take(n as int) =~= self.levels@);
        Ladder { levels }
    }

    /// The levels as a list, lowest price first.
    pub fn to_vec(&self) -> (r: Vec<Level>)
        ensures
            r@ == self.levels(),
    {
        self.copy().levels
    }

    /// Number of levels.
    pub fn len(&self) -> (n: usize)
        ensures
            n == self.levels().len(),
    {
        self.levels.len()
    }

    /// The level at position `i`, counted from the lowest price.
    pub fn level(&self, i: usize) -> (l: Level)
        requires
            i < self.levels().len(),
        ensures
            l == self.levels()[i as int],
    {
        self.levels[i]
    }

    /// The level with the lowest price.
    pub fn first(&self) -> (r: Option<Level>)
        ensures
            self.wf(),
            r is None <==> self.levels().len() == 0,
            r matches Some(l) ==> {
                &&& l == self.levels()[0]
                &&& self@.contains_key(l.price)
                &&& self@[l.price] == l.size
                &&& forall|p: u64| self@.contains_key(p) ==> l.price <= p
            },
    {
        proof {
            use_type_invariant(self);
        }
        if self.levels.len() == 0 {
            None
        } else {
            proof {
                lemma_level_map_at(self.levels(), 0);
            }
            Some(self.levels[0])
        }
    }

    /// The level with the highest price.
    pub fn last(&self) -> (r: Option<Level>)
        ensures
            self.wf(),
            r is None <==> self.levels().len() == 0,
            r matches Some(l) ==> {
                &&& l == self.levels().last()
                &&& self@.contains_key(l.price)
                &&& self@[l.price] == l.size
                &&& forall|p: u64| self@.contains_key(p) ==> p <= l.price
            },
    {
        proof {
            use_type_invariant(self);
        }
        let n = self.levels.len();
        if n == 0 {
            None
        } else {
            proof {
                lemma_level_map_at(self.levels(), n - 1);
            }
            Some(self.levels[n - 1])
        }
    }

    /// The size resting at `price`, if any.
    pub fn get(&self, price: u64) -> (r: Option<u64>)
        ensures
            self.wf(),
            r == (if self@.contains_key(price) {
                Some(self@[price])
            } else {
                None::<u64>
            }),
    {
        proof {
            use_type_invariant(self);
        }
        let n = self.levels.len();
        let mut i: usize = 0;
        while i < n && self.levels[i].price < price
            invariant
                self.wf(),
                n == self.levels().len(),
                i <= n,
                forall|j: int| 0 <= j < i ==> self.levels()[j].price < price,
            decreases n - i,
        {
            i = i + 1;
        }
        if i < n && self.levels[i].price == price {
            proof {
                lemma_level_map_at(self.levels(), i as int);
            }
            Some(self.levels[i].size)
        } else {
            None
        }
    }

    /// Makes one update: size zero removes the level at `price`, any other
    /// size puts `size` there.
    pub fn set(&mut self, price: u64, size: u64)
        ensures
            old(self).wf(),
            final(self).wf(),
            final(self)@ == set_level(old(self)@, price, size),
    {
        proof {
            use_type_invariant(&*self);
        }
        let ghost before = self.levels();
        let mut levels: Vec<Level> = Vec::new();
        std::mem::swap(&mut levels, &mut self.levels);
        let n = levels.len();
        let mut i: usize = 0;
        while i < n && levels[i].price < price
            invariant
                sorted_levels(before),
                levels@ == before,
                n == before.len(),
                i <= n,
                forall|j: int| 0 <= j < i ==> before[j].price < price,
            decreases n - i,
        {
            i = i + 1;
        }
        if i < n && levels[i].price == price {
            if size == 0 {
                levels.remove(i);
                proof {
                    let after = levels@;
                    assert forall|p: u64| has_price(after, p) == (has_price(before, p) && p
                        != price) by {
                        if has_price(after, p) {
                            let j = choose|j: int| 0 <= j < after.len() && #[trigger] after[j].price
                                == p;
                            if j < i {
                                assert(before[j].price == p);
                            } else {
                                assert(before[j + 1].price == p);
                            }
                        }
                        if has_price(before, p) && p != price {
                            let j = choose|j: int| 0 <= j < before.len()
                                && #[trigger] before[j].price == p;
                            if j < i {
                                assert(after[j].price == p);
                            } else {
                                assert(after[j - 1].price == p);
                            }
                        }
                    }
                    assert forall|p: u64| has_price(after, p) implies level_map(after)[p]
                        == level_map(before)[p] by {
                        let j = choose|j: int| 0 <= j < after.len() && #[trigger] after[j].price
                            == p;
                        let k = if j < i {
                            j
                        } else {
                            j + 1
                        };
                        assert(before[k] == after[j]);
                        lemma_level_map_at(before, k);
                        lemma_level_map_at(after, j);
                    }
                    assert(level_map(after) =~= level_map(before).remove(price));
                }
            } else {
                levels.remove(i);
                levels.insert(i, Level { price, size });
                proof {
                    let after = levels@;
                    assert(after =~= before.update(i as int, Level { price, size }));
                    assert forall|p: u64| has_price(after, p) == (has_price(before, p) || p
                        == price) by {
                        if has_price(after, p) {
                            let j = choose|j: int| 0 <= j < after.len() && #[trigger] after[j].price
                                == p;
                            assert(before[j].price == p);
                        }
                        if has_price(before, p) {
                            let j = choose|j: int| 0 <= j < before.len()
                                && #[trigger] before[j].price == p;
                            assert(after[j].price == p);
                        }
                        if p == price {
                            assert(after[i as int].price == p);
                        }
                    }
                    assert forall|p: u64| has_price(after, p) implies level_map(after)[p] == (if p
                        == price {
                        size
                    } else {
                        level_map(before)[p]
                    }) by {
                        let j = choose|j: int| 0 <= j < after.len() && #[trigger] after[j].price
                            == p;
                        lemma_level_map_at(after, j);
                        if p != price {
                            assert(before[j] == after[j]);
                            lemma_level_map_at(before, j);
                        } else {
                            lemma_level_map_at(after, i as int);
                        }
                    }
                    assert(level_map(after) =~= level_map(before).insert(price, size));
                }
            }
        } else if size != 0 {
            levels.insert(i, Level { price, size });
            proof {
                let after = levels@;
                assert forall|a: int, b: int| 0 <= a < b < after.len() implies after[a].price
                    < after[b].price by {
                    let ka = if a < i {
                        a
                    } else {
                        a - 1
                    };
                    let kb = if b < i {
                        b
                    } else {
                        b - 1
                    };
                    if a != i && b != i {
                        assert(before[ka].price < before[kb].price);
                    }
                }
                assert forall|p: u64| has_price(after, p) == (has_price(before, p) || p
                    == price) by {
                    if has_price(after, p) {
                        let j = choose|j: int| 0 <= j < after.len() && #[trigger] after[j].price
                            == p;
                        if j < i {
                            assert(before[j].price == p);
                        } else if j > i {
                            assert(before[j - 1].price == p);
                        }
                    }
                    if has_price(before, p) {
                        let j = choose|j: int| 0 <= j < before.len()
                            && #[trigger] before[j].price == p;
                        if j < i {
                            assert(after[j].price == p);
                        } else {
                            assert(after[j + 1].price == p);
                        }
                    }
                    if p == price {
                        assert(after[i as int].price == p);
                    }
                }
                assert forall|p: u64| has_price(after, p) implies level_map(after)[p] == (if p
                    == price {
                    size
                } else {
                    level_map(before)[p]
                }) by {
                    let j = choose|j: int| 0 <= j < after.len() && #[trigger] after[j].price == p;
                    lemma_level_map_at(after, j);
                    if p != price {
                        let k = if j < i {
                            j
                        } else {
                            j - 1
                        };
                        assert(before[k] == after[j]);
                        lemma_level_map_at(before, k);
                    } else {
                        lemma_level_map_at(after, i as int);
                    }
                }
                assert(level_map(after) =~= level_map(before).insert(price, size));
            }
        } else {
            proof {
                assert(!has_price(before, price)) by {
                    if has_price(before, price) {
                        let j = choose|j: int| 0 <= j < before.len()
                            && #[trigger] before[j].price == price;
                        if j < i {
                        } else if j > i {
                            assert(before[i as int].price < before[j].price);
                        }
                    }
                }
                assert(level_map(before) =~= level_map(before).remove(price));
            }
        }
        self.levels = levels;
    }
}

impl View for Ladder {
    type V = Map<u64, u64>;

    /// The side as a mapping from price to size.
    open spec fn view(&self) -> Map<u64, u64> {
        level_map(self.levels())
    }
}

} // verus!
