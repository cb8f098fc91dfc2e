//! The user's favorite wallpapers, kept as a set of days.
use vstd::prelude::*;
use crate::date::{date_lt, Date};
use crate::model::{lemma_positions_cover, newest_first_order, order_ok, WallpaperEntry};

verus! {

broadcast use crate::date::Date::lemma_view_injective;

/// Favorite days, each held once.
#[derive(Debug)]
pub struct Favorites {
    days: Vec<Date>,
}

/// `s` with `d` added when it was absent, or removed when it was present.
pub open spec fn toggled(s: Set<(int, int, int)>, d: (int, int, int)) -> Set<(int, int, int)> {
    if s.contains(d) {
        s.remove(d)
    } else {
        s.insert(d)
    }
}

/// Toggling a day twice gives the set back.
pub proof fn lemma_toggle_twice(s: Set<(int, int, int)>, d: (int, int, int))
    ensures
        toggled(toggled(s, d), d) == s,
{
    if s.contains(d) {
        assert(toggled(toggled(s, d), d) =~= s);
    } else {
        assert(toggled(toggled(s, d), d) =~= s);
    }
}

/// Toggling a day changes the membership of that day only.
pub proof fn lemma_toggle_flips_one_day(s: Set<(int, int, int)>, d: (int, int, int), x: (int, int, int))
    ensures
        toggled(s, d).contains(x) == if x == d {
            !s.contains(x)
        } else {
            s.contains(x)
        },
{
}

pub open spec fn days_set(days: Seq<Date>) -> Set<(int, int, int)> {
    Set::new(|x: (int, int, int)| exists|k: int| 0 <= k < days.len() && #[trigger] days[k]@ == x)
}

pub open spec fn no_repeats(days: Seq<Date>) -> bool {
    forall|i: int, j: int| 0 <= i < j < days.len() ==> #[trigger] days[i]@ != #[trigger] days[j]@
}

impl Favorites {
    #[verifier::type_invariant]
    spec fn inv(self) -> bool {
        no_repeats(self.days@)
    }

    /// The favorite days as `(year, month, day)`.
    pub closed spec fn view(&self) -> Set<(int, int, int)> {
        days_set(self.days@)
    }

    /// No favorites.
    pub fn new() -> (r: Favorites)
        ensures
            r@ == Set::<(int, int, int)>::empty(),
    {
        let r = Favorites { days: Vec::new() };
        assert(r@ =~= Set::<(int, int, int)>::empty());
        r
    }

    fn position(&self, d: &Date) -> (r: Option<usize>)
        ensures
            match r {
                Some(k) => k < self.days@.len() && self.days@[k as int]@ == d@,
                None => forall|k: int| 0 <= k < self.days@.len() ==> #[trigger] self.days@[k]@ != d@,
            },
    {
        let mut k: usize = 0;
        while k < self.days.len()
            invariant
                0 <= k <= self.days@.len(),
                forall|j: int| 0 <= j < k ==> #[trigger] self.days@[j]@ != d@,
            decreases self.days@.len() - k,
        {
            if self.days[k].same_day(d) {
                return Some(k);
            }
            k = k + 1;
        }
        None
    }

    /// Whether `d` is a favorite.
    pub fn contains(&self, d: &Date) -> (r: bool)
        ensures
            r == self@.contains(d@),
    {
        let p = self.position(d);
        proof {
            if p is None {
                if self@.contains(d@) {
                    let k = choose|k: int| 0 <= k < self.days@.len() && #[trigger] self.days@[k]@ == d@;
                    assert(self.days@[k]@ != d@);
                }
            }
        }
        p.is_some()
    }

    /// Adds `d` when it is not a favorite, removes it when it is; returns
    /// whether it was added.
    pub fn toggle(&mut self, d: Date) -> (added: bool)
        ensures
            final(self)@ == toggled(old(self)@, d@),
            added == !old(self)@.contains(d@),
    {
        proof {
            use_type_invariant(&*self);
        }
        let ghost before = self.days@;
        match self.position(&d) {
            Some(k) => {
                let mut days: Vec<Date> = Vec::new();
                std::mem::swap(&mut days, &mut self.days);
                days.remove(k);
                let ghost after = days@;
                proof {
                    assert(days_set(before).contains(d@));
                    assert forall|i: int, j: int| 0 <= i < j < after.len() implies #[trigger] after[i]@
                        != #[trigger] after[j]@ by {
                        let oi = if i < k { i } else { i + 1 };
                        let oj = if j < k { j } else { j + 1 };
                        assert(after[i] == before[oi]);
                        assert(after[j] == before[oj]);
                    }
                    assert forall|x: (int, int, int)| days_set(after).contains(x) == days_set(before).remove(
                        d@,
                    ).contains(x) by {
                        if days_set(after).contains(x) {
                            let i = choose|i: int| 0 <= i < after.len() && #[trigger] after[i]@ == x;
                            let oi = if i < k { i } else { i + 1 };
                            assert(after[i] == before[oi]);
                            assert(oi != k);
                            assert(before[oi]@ != before[k as int]@);
                        }
                        if days_set(before).remove(d@).contains(x) {
                            let j = choose|j: int| 0 <= j < before.len() && #[trigger] before[j]@ == x;
                            assert(j != k);
                            if j < k {
                                assert(after[j] == before[j]);
                            } else {
                                assert(after[j - 1] == before[j]);
                            }
                        }
                    }
                    assert(days_set(after) =~= days_set(before).remove(d@));
                }
                self.days = days;
                false
            },
            None => {
                let mut days: Vec<Date> = Vec::new();
                std::mem::swap(&mut days, &mut self.days);
                days.push(d);
                let ghost after = days@;
                proof {
                    assert(!days_set(before).contains(d@)) by {
                        if days_set(before).contains(d@) {
                            let j = choose|j: int| 0 <= j < before.len() && #[trigger] before[j]@ == d@;
                            assert(before[j]@ != d@);
                        }
                    }
                    assert forall|i: int, j: int| 0 <= i < j < after.len() implies #[trigger] after[i]@
                        != #[trigger] after[j]@ by {
                        assert(after[i] == before[i]);
                        if j < before.len() {
                            assert(after[j] == before[j]);
                        }
                    }
                    assert forall|x: (int, int, int)| days_set(after).contains(x) == days_set(before).insert(
                        d@,
                    ).contains(x) by {
                        if days_set(after).contains(x) {
                            let i = choose|i: int| 0 <= i < after.len() && #[trigger] after[i]@ == x;
                            if i < before.len() {
                                assert(after[i] == before[i]);
                            }
                        }
                        if days_set(before).contains(x) {
                            let j = choose|j: int| 0 <= j < before.len() && #[trigger] before[j]@ == x;
                            assert(after[j] == before[j]);
                        }
                        if x == d@ {
                            assert(after[before.len() as int]@ == x);
                        }
                    }
                    assert(days_set(after) =~= days_set(before).insert(d@));
                }
                self.days = days;
                true
            },
        }
    }

    /// The favorites read back from a saved list (repeated days are kept once).
    pub fn from_days(days: Vec<Date>) -> (r: Favorites)
        ensures
            r@ == days_set(days@),
    {
        let mut f = Favorites::new();
        let mut i: usize = 0;
        while i < days.len()
            invariant
                0 <= i <= days@.len(),
                f@ == days_set(days@.take(i as int)),
            decreases days@.len() - i,
        {
            let d = days[i];
            if !f.contains(&d) {
                f.toggle(d);
            }
            proof {
                assert forall|x: (int, int, int)| f@.contains(x) == days_set(days@.take(i + 1)).contains(x) by {
                    let t = days@.take(i + 1);
                    if days_set(days@.take(i as int)).contains(x) {
                        let j = choose|j: int| 0 <= j < i && #[trigger] days@.take(i as int)[j]@ == x;
                        assert(t[j] == days@.take(i as int)[j]);
                    }
                    if days_set(t).contains(x) {
                        let j = choose|j: int| 0 <= j < t.len() && #[trigger] t[j]@ == x;
                        if j < i {
                            assert(days@.take(i as int)[j] == t[j]);
                        }
                    }
                    if x == d@ {
                        assert(t[i as int] == d);
                    }
                }
                assert(f@ =~= days_set(days@.take(i + 1)));
            }
            i = i + 1;
        }
        assert(days@.take(days@.len() as int) =~= days@);
        f
    }

    /// The favorite days from newest to oldest, for saving.
    pub fn days_newest_first(&self) -> (r: Vec<Date>)
        ensures
            days_set(r@) == self@,
            no_repeats(r@),
            forall|i: int, j: int| 0 <= i < j < r@.len() ==> date_lt(#[trigger] r@[j]@, #[trigger] r@[i]@),
    {
        proof {
            use_type_invariant(self);
        }
        let order = newest_first_order(&self.days);
        let mut out: Vec<Date> = Vec::new();
        let mut k: usize = 0;
        while k < order.len()
            invariant
                0 <= k <= order@.len(),
                order_ok(self.days@, order@, self.days@.len() as int),
                out@.len() == k,
                forall|j: int| 0 <= j < k ==> #[trigger] out@[j] == self.days@[order@[j] as int],
            decreases order@.len() - k,
        {
            out.push(self.days[order[k]]);
            k = k + 1;
        }
        proof {
            let days = self.days@;
            assert forall|i: int, j: int| 0 <= i < j < out@.len() implies #[trigger] out@[i]@
                != #[trigger] out@[j]@ by {
                assert(order@[i] != order@[j]);
                let a = order@[i] as int;
                let b = order@[j] as int;
                if a < b {
                    assert(days[a]@ != days[b]@);
                } else {
                    assert(days[b]@ != days[a]@);
                }
            }
            assert forall|i: int, j: int| 0 <= i < j < out@.len() implies date_lt(
                #[trigger] out@[j]@,
                #[trigger] out@[i]@,
            ) by {
                assert(out@[i]@ != out@[j]@);
            }
            assert forall|x: (int, int, int)| days_set(out@).contains(x) == days_set(days).contains(x) by {
                if days_set(days).contains(x) {
                    let b = choose|b: int| 0 <= b < days.len() && #[trigger] days[b]@ == x;
                    let n = days.len() as int;
                    let o = order@;
                    // every position appears in the order (it holds n distinct positions below n)
                    let oi = o.map_values(|x: usize| x as int);
                    assert forall|k1: int, k2: int| 0 <= k1 < k2 < oi.len() implies #[trigger] oi[k1]
                        != #[trigger] oi[k2] by {
                        assert(o[k1] != o[k2]);
                    }
                    lemma_positions_cover(oi, b);
                    let k = choose|k: int| 0 <= k < oi.len() && #[trigger] oi[k] == b;
                    assert(out@[k]@ == x);
                }
            }
            assert(days_set(out@) =~= days_set(days));
        }
        out
    }
}

/// The entries whose day is a favorite, in order.
pub fn favorite_entries(entries: &Vec<WallpaperEntry>, favorites: &Favorites) -> (r: Vec<
    WallpaperEntry,
>)
    ensures
        r@ == entries@.filter(|e: WallpaperEntry| favorites@.contains(e.date@)),
{
    let ghost pred = |e: WallpaperEntry| favorites@.contains(e.date@);
    let mut out: Vec<WallpaperEntry> = Vec::new();
    let mut i: usize = 0;
    while i < entries.len()
        invariant
            0 <= i <= entries@.len(),
            pred == (|e: WallpaperEntry| favorites@.contains(e.date@)),
            out@ == entries@.take(i as int).filter(pred),
        decreases entries@.len() - i,
    {
        proof {
            reveal(Seq::filter);
            assert(entries@.take(i + 1).drop_last() =~= entries@.take(i as int));
            assert(entries@.take(i + 1).last() == entries@[i as int]);
        }
        if favorites.contains(&entries[i].date) {
            out.push(entries[i].clone());
        }
        i = i + 1;
    }
    assert(entries@.take(entries@.len() as int) =~= entries@);
    out
}

} // verus!
