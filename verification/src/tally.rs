//! Amounts kept per account, per coin of an account, or per position.

use vstd::prelude::*;

use crate::decimal::{within, WIDE_MAX};
use crate::domain::OrderSide;

verus! {

/// What an amount is kept for.
pub enum Slot {
    Account(Seq<char>),
    Coin(Seq<char>, Seq<char>),
    Position(Seq<char>, Seq<char>, OrderSide),
}

/// What an amount is kept for.
#[derive(Debug)]
pub enum SlotKey {
    Account(String),
    Coin(String, String),
    Position(String, String, OrderSide),
}

impl View for SlotKey {
    type V = Slot;

    open spec fn view(&self) -> Slot {
        match self {
            SlotKey::Account(a) => Slot::Account(a@),
            SlotKey::Coin(a, c) => Slot::Coin(a@, c@),
            SlotKey::Position(a, c, s) => Slot::Position(a@, c@, *s),
        }
    }
}

impl SlotKey {
    /// Whether two keys are for the same slot.
    pub fn same(&self, other: &SlotKey) -> (r: bool)
        ensures
            r == (self@ == other@),
    {
        match (self, other) {
            (SlotKey::Account(a), SlotKey::Account(b)) => *a == *b,
            (SlotKey::Coin(a, c), SlotKey::Coin(b, d)) => *a == *b && *c == *d,
            (SlotKey::Position(a, c, s), SlotKey::Position(b, d, t)) => *a == *b && *c == *d && *s
                == *t,
            _ => false,
        }
    }
}

/// A sum, saturated.
pub open spec fn saturated(x: int) -> int {
    within(x, WIDE_MAX as int)
}

/// A saturated sum of two amounts.
pub fn sum_of(a: i128, b: i128) -> (r: i128)
    requires
        -WIDE_MAX <= a <= WIDE_MAX,
        -WIDE_MAX <= b <= WIDE_MAX,
    ensures
        r == saturated(a + b),
        -WIDE_MAX <= r <= WIDE_MAX,
{
    let s: i128 = a + b;
    if s > WIDE_MAX {
        WIDE_MAX
    } else if s < -WIDE_MAX {
        -WIDE_MAX
    } else {
        s
    }
}

/// Amounts by slot.
pub struct Tally {
    keys: Vec<SlotKey>,
    amounts: Vec<i128>,
}

/// The amounts that the first `n` of the given keys carry.
pub open spec fn amounts_upto(keys: Seq<SlotKey>, amounts: Seq<i128>, n: int) -> Map<Slot, int>
    decreases n,
{
    if n <= 0 {
        Map::empty()
    } else {
        amounts_upto(keys, amounts, n - 1).insert(keys[n - 1]@, amounts[n - 1] as int)
    }
}

proof fn amounts_upto_meaning(keys: Seq<SlotKey>, amounts: Seq<i128>, n: int)
    requires
        0 <= n <= keys.len(),
        keys.len() == amounts.len(),
        distinct(keys),
    ensures
        forall|s: Slot| #[trigger]
            amounts_upto(keys, amounts, n).dom().contains(s) <==> exists|i: int|
                0 <= i < n && (#[trigger] keys[i])@ == s,
        forall|i: int|
            0 <= i < n ==> amounts_upto(keys, amounts, n)[(#[trigger] keys[i])@]
                == amounts[i] as int,
    decreases n,
{
    if n > 0 {
        amounts_upto_meaning(keys, amounts, n - 1);
        let m = amounts_upto(keys, amounts, n - 1);
        let r = amounts_upto(keys, amounts, n);
        assert forall|s: Slot| #[trigger] r.dom().contains(s) <==> exists|i: int|
            0 <= i < n && (#[trigger] keys[i])@ == s by {
            if s == keys[n - 1]@ {
                assert(r.dom().contains(s));
            } else {
                if m.dom().contains(s) {
                    let i = choose|i: int| 0 <= i < n - 1 && (#[trigger] keys[i])@ == s;
                    assert(keys[i]@ == s);
                }
                if exists|i: int| 0 <= i < n && (#[trigger] keys[i])@ == s {
                    let i = choose|i: int| 0 <= i < n && (#[trigger] keys[i])@ == s;
                    assert(i < n - 1);
                    assert(m.dom().contains(s));
                }
            }
        }
        assert forall|i: int| 0 <= i < n implies r[(#[trigger] keys[i])@] == amounts[i] as int by {
            if i < n - 1 {
                assert(keys[i]@ != keys[n - 1]@);
            }
        }
    }
}

/// Whether no slot is listed twice.
pub open spec fn distinct(keys: Seq<SlotKey>) -> bool {
    forall|i: int, j: int|
        0 <= i < j < keys.len() ==> (#[trigger] keys[i])@ != (#[trigger] keys[j])@
}

impl View for Tally {
    type V = Map<Slot, int>;

    closed spec fn view(&self) -> Map<Slot, int> {
        amounts_upto(self.keys@, self.amounts@, self.keys@.len() as int)
    }
}

impl Tally {
    /// Whether each slot is listed once, with an amount in range.
    pub closed spec fn wf(&self) -> bool {
        &&& self.keys@.len() == self.amounts@.len()
        &&& distinct(self.keys@)
        &&& forall|i: int|
            0 <= i < self.amounts@.len() ==> -WIDE_MAX <= #[trigger] self.amounts@[i] <= WIDE_MAX
    }

    /// A tally without amounts.
    pub fn new() -> (r: Tally)
        ensures
            r.wf(),
            r@ == Map::<Slot, int>::empty(),
    {
        Tally { keys: Vec::new(), amounts: Vec::new() }
    }

    fn place(&self, key: &SlotKey) -> (r: Option<usize>)
        requires
            self.wf(),
        ensures
            match r {
                Some(i) => i < self.keys@.len() && self.keys@[i as int]@ == key@,
                None => forall|i: int| 0 <= i < self.keys@.len() ==> (#[trigger] self.keys@[i])@
                    != key@,
            },
    {
        let mut i: usize = 0;
        while i < self.keys.len()
            invariant
                i <= self.keys@.len(),
                forall|k: int| 0 <= k < i ==> (#[trigger] self.keys@[k])@ != key@,
            decreases self.keys@.len() - i,
        {
            if self.keys[i].same(key) {
                return Some(i);
            }
            i += 1;
        }
        None
    }

    /// The amount of a slot.
    pub fn get(&self, key: &SlotKey) -> (r: Option<i128>)
        requires
            self.wf(),
        ensures
            (r is Some) == self@.dom().contains(key@),
            match r {
                Some(x) => self@[key@] == x && -WIDE_MAX <= x <= WIDE_MAX,
                None => true,
            },
    {
        proof {
            amounts_upto_meaning(self.keys@, self.amounts@, self.keys@.len() as int);
        }
        match self.place(key) {
            Some(i) => {
                assert(self@.dom().contains(self.keys@[i as int]@));
                Some(self.amounts[i])
            },
            None => None,
        }
    }

    /// Sets the amount of a slot.
    pub fn put(&mut self, key: SlotKey, amount: i128)
        requires
            old(self).wf(),
            -WIDE_MAX <= amount <= WIDE_MAX,
        ensures
            final(self).wf(),
            final(self)@ == old(self)@.insert(key@, amount as int),
    {
        let ghost keys = self.keys@;
        let ghost amounts = self.amounts@;
        let ghost n = self.keys@.len() as int;
        match self.place(&key) {
            Some(i) => {
                self.amounts.set(i, amount);
                proof {
                    amounts_upto_meaning(keys, amounts, n);
                    amounts_upto_meaning(self.keys@, self.amounts@, n);
                    let r = self@;
                    let g = amounts_upto(keys, amounts, n).insert(key@, amount as int);
                    assert forall|s: Slot| r.dom().contains(s) <==> g.dom().contains(s) by {
                        if s == key@ {
                            assert(keys[i as int]@ == s);
                        }
                    }
                    assert forall|s: Slot| r.dom().contains(s) implies r[s] == g[s] by {
                        let k = choose|k: int| 0 <= k < n && (#[trigger] keys[k])@ == s;
                        assert(r[keys[k]@] == self.amounts@[k] as int);
                        assert(amounts_upto(keys, amounts, n)[keys[k]@] == amounts[k] as int);
                        if k != i {
                            assert(keys[k]@ != keys[i as int]@) by {
                                if k < i {
                                    assert(keys[k]@ != keys[i as int]@);
                                } else {
                                    assert(keys[i as int]@ != keys[k]@);
                                }
                            }
                        }
                    }
                    assert(r.dom() =~= g.dom());
                    assert(r =~= g);
                }
            },
            None => {
                self.keys.push(key);
                self.amounts.push(amount);
                proof {
                    upto_ignores_later(keys, amounts, self.keys@, self.amounts@, n);
                }
            },
        }
    }

    /// Adds to the amount of a slot; a slot without an amount starts at zero.
    pub fn increase(&mut self, key: SlotKey, by: i128)
        requires
            old(self).wf(),
            -WIDE_MAX <= by <= WIDE_MAX,
        ensures
            final(self).wf(),
            final(self)@ == increased(old(self)@, key@, by as int),
    {
        let current: i128 = match self.get(&key) {
            Some(x) => x,
            None => 0,
        };
        self.put(key, sum_of(current, by));
    }
}

proof fn upto_ignores_later(
    keys: Seq<SlotKey>,
    amounts: Seq<i128>,
    more_keys: Seq<SlotKey>,
    more_amounts: Seq<i128>,
    n: int,
)
    requires
        0 <= n <= keys.len() <= more_keys.len(),
        n <= amounts.len() <= more_amounts.len(),
        forall|i: int| 0 <= i < n ==> keys[i] == more_keys[i] && amounts[i] == more_amounts[i],
    ensures
        amounts_upto(keys, amounts, n) == amounts_upto(more_keys, more_amounts, n),
    decreases n,
{
    if n > 0 {
        upto_ignores_later(keys, amounts, more_keys, more_amounts, n - 1);
    }
}

/// The amount of a slot, or zero where it has none.
pub open spec fn amount_at(m: Map<Slot, int>, s: Slot) -> int {
    if m.dom().contains(s) {
        m[s]
    } else {
        0
    }
}

/// The amounts after one of them was raised.
pub open spec fn increased(m: Map<Slot, int>, s: Slot, by: int) -> Map<Slot, int> {
    m.insert(s, saturated(amount_at(m, s) + by))
}

} // verus!
