use vstd::prelude::*;

verus! {

/// Price of the next worker when `workers` are owned: the initial cost for the
/// first one, then `initial * (workers * growth) / 100`.
pub open spec fn cost_for(initial: u64, growth: u64, workers: u64) -> int {
    if workers == 0 {
        initial as int
    } else {
        initial * (workers * growth) / 100
    }
}

/// The products in `cost_for` fit in a `u64`.
pub open spec fn cost_fits(initial: u64, growth: u64, workers: u64) -> bool {
    workers * growth <= u64::MAX && initial * (workers * growth) <= u64::MAX
}

/// Refund for selling one of `workers`: nothing when none is owned, the initial
/// cost when two are owned, else `sell` percent of the price paid for the last one.
pub open spec fn refund_for(initial: u64, growth: u64, sell: u64, workers: u64) -> int {
    if workers < 1 {
        0
    } else if workers - 1 == 1 {
        initial as int
    } else {
        cost_for(initial, growth, (workers - 1) as u64) * sell / 100
    }
}

/// The products in `refund_for` fit in a `u64`.
pub open spec fn refund_fits(initial: u64, growth: u64, sell: u64, workers: u64) -> bool {
    workers >= 1 && workers - 1 != 1 ==> {
        &&& cost_fits(initial, growth, (workers - 1) as u64)
        &&& cost_for(initial, growth, (workers - 1) as u64) * sell <= u64::MAX
    }
}

/// Output of all workers: `workers * increments * effectiveness / 100`.
pub open spec fn output_for(workers: u64, increments: u64, effectiveness: u64) -> int {
    workers * increments * effectiveness / 100
}

/// The products in `output_for` fit in a `u64`.
pub open spec fn output_fits(workers: u64, increments: u64, effectiveness: u64) -> bool {
    workers * increments <= u64::MAX && workers * increments * effectiveness <= u64::MAX
}

/// An idle-game producer: workers bought at a growing price, each adding to a counter.
#[derive(Debug, Clone)]
pub struct CountingObject {
    name: String,
    counters: u64,
    increments_by: u64,
    effectiveness: u64,
    initial_cost: u64,
    buy_cost: u64,
    sell_cost: u64,
}

impl CountingObject {
    /// The name.
    pub closed spec fn name_view(&self) -> Seq<char> {
        self.name@
    }

    /// Number of workers owned.
    pub closed spec fn count(&self) -> u64 {
        self.counters
    }

    /// How much each worker adds to the counter.
    pub closed spec fn increment(&self) -> u64 {
        self.increments_by
    }

    /// Percentage effectiveness of the workers (100 is neutral).
    pub closed spec fn effect(&self) -> u64 {
        self.effectiveness
    }

    /// Price of the first worker.
    pub closed spec fn initial(&self) -> u64 {
        self.initial_cost
    }

    /// Percentage of the initial price by which each later price grows.
    pub closed spec fn growth(&self) -> u64 {
        self.buy_cost
    }

    /// Percentage of a price that a sale refunds.
    pub closed spec fn refund_rate(&self) -> u64 {
        self.sell_cost
    }

    /// Price of the next worker.
    pub open spec fn next_cost(&self) -> int {
        cost_for(self.initial(), self.growth(), self.count())
    }

    /// An object with every field given.
    pub fn from(
        name: String,
        counters: u64,
        increments_by: u64,
        effectiveness: u64,
        initial_cost: u64,
        buy_cost: u64,
        sell_cost: u64,
    ) -> (r: Self)
        ensures
            r.name_view() == name@,
            r.count() == counters,
            r.increment() == increments_by,
            r.effect() == effectiveness,
            r.initial() == initial_cost,
            r.growth() == buy_cost,
            r.refund_rate() == sell_cost,
    {
        CountingObject {
            name,
            counters,
            increments_by,
            effectiveness,
            initial_cost,
            buy_cost,
            sell_cost,
        }
    }

    /// An object with no workers and 100% effectiveness.
    pub fn new(
        name: String,
        increments_by: u64,
        initial_cost: u64,
        buy_cost: u64,
        sell_cost: u64,
    ) -> (r: Self)
        ensures
            r.name_view() == name@,
            r.count() == 0,
            r.increment() == increments_by,
            r.effect() == 100,
            r.initial() == initial_cost,
            r.growth() == buy_cost,
            r.refund_rate() == sell_cost,
    {
        Self::from(name, 0, increments_by, 100, initial_cost, buy_cost, sell_cost)
    }

    /// The name.
    pub fn get_name(&self) -> (r: &str)
        ensures
            r@ == self.name_view(),
    {
        self.name.as_str()
    }

    /// Number of workers owned.
    pub fn workers(&self) -> (r: u64)
        ensures
            r == self.count(),
    {
        self.counters
    }

    /// Refund that selling one worker would bring.
    pub fn refund_cost(&self) -> (r: u64)
        requires
            refund_fits(self.initial(), self.growth(), self.refund_rate(), self.count()),
        ensures
            r == refund_for(self.initial(), self.growth(), self.refund_rate(), self.count()),
    {
        if self.workers() < 1 {
            return 0;
        }
        let workers = self.workers() - 1;
        if workers == 1 {
            return self.initial_cost;
        }
        let cost = self.calc_buy_cost(workers);
        proof {
            assert(cost * self.sell_cost <= u64::MAX);
        }
        cost * self.sell_cost / 100
    }

    /// Price of the next worker.
    pub fn buy_cost(&self) -> (r: u64)
        requires
            cost_fits(self.initial(), self.growth(), self.count()),
        ensures
            r == self.next_cost(),
    {
        let workers = self.workers();
        self.calc_buy_cost(workers)
    }

    /// Whether `money` pays for the next worker.
    pub fn can_afford_buy(&self, money: u64) -> (r: bool)
        requires
            cost_fits(self.initial(), self.growth(), self.count()),
        ensures
            r == (money >= self.next_cost()),
    {
        money >= self.buy_cost()
    }

    /// Buys a worker when `money` pays for it and returns its price; `None`
    /// (and nothing bought) otherwise. The caller takes the price from its funds.
    pub fn perform_buy(&mut self, money: u64) -> (r: Option<u64>)
        requires
            cost_fits(old(self).initial(), old(self).growth(), old(self).count()),
        ensures
            money >= old(self).next_cost() ==> {
                &&& r == Some(old(self).next_cost() as u64)
                &&& final(self).count() == (if old(self).count() == u64::MAX {
                    0
                } else {
                    old(self).count() + 1
                })
            },
            money < old(self).next_cost() ==> r == None::<u64> && final(self).count()
                == old(self).count(),
            final(self).name_view() == old(self).name_view(),
            final(self).increment() == old(self).increment(),
            final(self).effect() == old(self).effect(),
            final(self).initial() == old(self).initial(),
            final(self).growth() == old(self).growth(),
            final(self).refund_rate() == old(self).refund_rate(),
    {
        if !self.can_afford_buy(money) {
            return None;
        }
        let cost = self.buy_cost();
        self.counters = self.counters.wrapping_add(1);
        Some(cost)
    }

    /// Sells a worker and returns the refund, which the caller adds to its
    /// funds; 0 (and nothing sold) when none is owned.
    pub fn perform_sell(&mut self) -> (r: u64)
        requires
            refund_fits(old(self).initial(), old(self).growth(), old(self).refund_rate(), old(self).count()),
        ensures
            r == refund_for(old(self).initial(), old(self).growth(), old(self).refund_rate(), old(self).count()),
            final(self).count() == (if old(self).count() < 1 {
                0
            } else {
                old(self).count() - 1
            }),
            final(self).name_view() == old(self).name_view(),
            final(self).increment() == old(self).increment(),
            final(self).effect() == old(self).effect(),
            final(self).initial() == old(self).initial(),
            final(self).growth() == old(self).growth(),
            final(self).refund_rate() == old(self).refund_rate(),
    {
        if self.counters < 1 {
            return 0;
        }
        let refund_cost = self.refund_cost();
        self.counters = self.counters - 1;
        refund_cost
    }

    /// Output of all workers, scaled by effectiveness.
    pub fn sum(&self) -> (r: u64)
        requires
            output_fits(self.count(), self.increment(), self.effect()),
        ensures
            r == output_for(self.count(), self.increment(), self.effect()),
    {
        self.counters * self.increments_by * self.effectiveness / 100
    }

    /// Price of the next worker when `workers` are owned.
    pub fn calc_buy_cost(&self, workers: u64) -> (r: u64)
        requires
            cost_fits(self.initial(), self.growth(), workers),
        ensures
            r == cost_for(self.initial(), self.growth(), workers),
    {
        if workers == 0 {
            return self.initial_cost;
        }
        self.initial_cost * (workers * self.buy_cost) / 100
    }
}

} // verus!
