//! Gas accounting: a budget, the charges made against it, and the timers that
//! every charge hands out and every exit path has to release.

use vstd::prelude::*;
use crate::error::SyscallError;

verus! {

/// One charge, as the accounting shows it.
pub struct ChargeView {
    /// The operation that was charged for.
    pub name: Seq<char>,
    /// What it cost.
    pub compute_units: u64,
    /// Whether the timer of the charge has been released.
    pub released: bool,
}

/// The accounting of one message: the budget, what is used of it, and every
/// charge in the order in which it was made.
pub struct GasModel {
    pub limit: u64,
    pub used: u64,
    pub charges: Seq<ChargeView>,
}

impl GasModel {
    /// No more is used than the budget holds.
    pub open spec fn wf(self) -> bool {
        self.used <= self.limit
    }

    /// What is left of the budget.
    pub open spec fn available(self) -> int {
        self.limit - self.used
    }

    /// Whether the budget covers a charge of `compute_units`.
    pub open spec fn can_afford(self, compute_units: u64) -> bool {
        compute_units <= self.available()
    }

    /// The accounting after a charge that the budget covers: the units are
    /// used, and the charge is on record with its timer running.
    pub open spec fn charged(self, name: Seq<char>, compute_units: u64) -> GasModel {
        GasModel {
            limit: self.limit,
            used: (self.used + compute_units) as u64,
            charges: self.charges.push(ChargeView { name, compute_units, released: false }),
        }
    }

    /// The accounting after a charge that the budget does not cover: nothing
    /// is left, and no charge is recorded.
    pub open spec fn exhausted(self) -> GasModel {
        GasModel { limit: self.limit, used: self.limit, charges: self.charges }
    }

    /// The accounting after the timer of charge `index` is released. An index
    /// that names no charge changes nothing.
    pub open spec fn released(self, index: int) -> GasModel {
        if 0 <= index < self.charges.len() {
            GasModel {
                limit: self.limit,
                used: self.used,
                charges: self.charges.update(
                    index,
                    ChargeView {
                        name: self.charges[index].name,
                        compute_units: self.charges[index].compute_units,
                        released: true,
                    },
                ),
            }
        } else {
            self
        }
    }

    /// Whether no timer is still running.
    pub open spec fn all_released(self) -> bool {
        forall|i: int| 0 <= i < self.charges.len() ==> (#[trigger] self.charges[i]).released
    }
}

/// An exhausted budget stays exhausted: it covers no charge that costs
/// anything, so a message that ran out of gas cannot go on by trying again.
pub proof fn lemma_exhausted_covers_nothing(gas: GasModel, compute_units: u64)
    requires
        gas.wf(),
    ensures
        gas.exhausted().wf(),
        gas.exhausted().available() == 0,
        gas.exhausted().can_afford(compute_units) <==> compute_units == 0,
        gas.exhausted().charges == gas.charges,
        gas.exhausted().exhausted() == gas.exhausted(),
{
}

/// A charge whose timer is released again leaves no timer running that was
/// not running before, and uses exactly what was charged.
pub proof fn lemma_charge_then_release(gas: GasModel, name: Seq<char>, compute_units: u64)
    requires
        gas.wf(),
        gas.can_afford(compute_units),
    ensures
        !gas.charged(name, compute_units).all_released(),
        gas.all_released() ==> gas.charged(name, compute_units).released(
            gas.charges.len() as int,
        ).all_released(),
        gas.charged(name, compute_units).released(gas.charges.len() as int).wf(),
        gas.charged(name, compute_units).released(gas.charges.len() as int).used == gas.used
            + compute_units,
        gas.charged(name, compute_units).released(gas.charges.len() as int).limit == gas.limit,
{
    let charged = gas.charged(name, compute_units);
    let n = gas.charges.len() as int;
    assert(!charged.charges[n].released);
    if gas.all_released() {
        let after = charged.released(n);
        assert forall|i: int| 0 <= i < after.charges.len() implies (
        #[trigger] after.charges[i]).released by {
            if i < n {
                assert(gas.charges[i].released);
            }
        }
    }
}

/// One charge as the tracker keeps it.
#[derive(Debug)]
pub struct ChargeRecord {
    name: String,
    compute_units: u64,
    released: bool,
}

impl View for ChargeRecord {
    type V = ChargeView;

    closed spec fn view(&self) -> ChargeView {
        ChargeView {
            name: self.name@,
            compute_units: self.compute_units,
            released: self.released,
        }
    }
}

impl ChargeRecord {
    /// The operation that was charged for.
    pub fn name(&self) -> (n: &str)
        ensures
            n@ == self@.name,
    {
        self.name.as_str()
    }

    /// What the operation cost.
    pub fn compute_units(&self) -> (c: u64)
        ensures
            c == self@.compute_units,
    {
        self.compute_units
    }

    /// Whether the timer of the charge has been released.
    pub fn released(&self) -> (b: bool)
        ensures
            b == self@.released,
    {
        self.released
    }
}

/// The handle of one charge. Whoever charges gas gets one and gives it back
/// with `GasTracker::stop` before leaving, whatever the outcome of the work.
#[derive(Debug)]
pub struct GasTimer {
    index: usize,
}

impl GasTimer {
    /// The position, among all charges, of the charge this timer belongs to.
    pub closed spec fn index(&self) -> int {
        self.index as int
    }
}

/// A budget and what is used of it.
#[derive(Debug)]
struct Budget {
    limit: u64,
    used: u64,
}

impl Budget {
    /// No more is used than the budget holds.
    #[verifier::type_invariant]
    spec fn within_limit(self) -> bool {
        self.used <= self.limit
    }
}

/// The gas budget of one message.
#[derive(Debug)]
pub struct GasTracker {
    budget: Budget,
    charges: Vec<ChargeRecord>,
}

impl View for GasTracker {
    type V = GasModel;

    closed spec fn view(&self) -> GasModel {
        GasModel {
            limit: self.budget.limit,
            used: self.budget.used,
            charges: self.charges@.map_values(|c: ChargeRecord| c@),
        }
    }
}

impl GasTracker {
    /// A tracker with a budget of `limit` units, none of them used.
    pub fn new(limit: u64) -> (t: GasTracker)
        ensures
            t@ == (GasModel { limit, used: 0, charges: Seq::empty() }),
            t@.wf(),
    {
        let t = GasTracker { budget: Budget { limit, used: 0 }, charges: Vec::new() };
        assert(t@.charges =~= Seq::empty());
        t
    }

    /// The budget.
    pub fn gas_limit(&self) -> (g: u64)
        ensures
            g == self@.limit,
    {
        self.budget.limit
    }

    /// The units used so far.
    pub fn gas_used(&self) -> (g: u64)
        ensures
            g == self@.used,
            self@.wf(),
    {
        proof {
            use_type_invariant(&self.budget);
        }
        self.budget.used
    }

    /// The units that are left.
    pub fn gas_available(&self) -> (g: u64)
        ensures
            g == self@.available(),
            self@.wf(),
    {
        proof {
            use_type_invariant(&self.budget);
        }
        self.budget.limit - self.budget.used
    }

    /// The number of charges made so far.
    pub fn charge_count(&self) -> (n: usize)
        ensures
            n == self@.charges.len(),
    {
        self.charges.len()
    }

    /// The charge at position `index`, if so many were made.
    pub fn charge(&self, index: usize) -> (c: Option<&ChargeRecord>)
        ensures
            match c {
                Some(record) => index < self@.charges.len() && record@ == self@.charges[index as int],
                None => index >= self@.charges.len(),
            },
    {
        if index < self.charges.len() {
            Some(&self.charges[index])
        } else {
            None
        }
    }

    /// Whether every timer handed out so far has been released.
    pub fn all_released(&self) -> (b: bool)
        ensures
            b == self@.all_released(),
    {
        let mut i: usize = 0;
        while i < self.charges.len()
            invariant
                i <= self.charges@.len(),
                forall|j: int| 0 <= j < i ==> (#[trigger] self@.charges[j]).released,
            decreases self.charges@.len() - i,
        {
            if !self.charges[i].released {
                assert(!self@.charges[i as int].released);
                return false;
            }
            i = i + 1;
        }
        true
    }

    /// Charges `compute_units` for the operation `name`.
    ///
    /// A budget that covers the charge is debited, and the timer of the
    /// charge is returned. One that does not is used up, and the call fails
    /// with `OutOfGas`: from then on nothing that costs anything can be
    /// charged in this message.
    pub fn charge_gas(&mut self, name: &str, compute_units: u64) -> (r: Result<
        GasTimer,
        SyscallError,
    >)
        ensures
            old(self)@.wf(),
            final(self)@.wf(),
            match r {
                Ok(timer) => old(self)@.can_afford(compute_units) && final(self)@ == old(self)@.charged(
                    name@,
                    compute_units,
                ) && timer.index() == old(self)@.charges.len(),
                Err(e) => !old(self)@.can_afford(compute_units) && e == SyscallError::OutOfGas
                    && final(self)@ == old(self)@.exhausted(),
            },
    {
        proof {
            use_type_invariant(&self.budget);
        }
        if compute_units > self.budget.limit - self.budget.used {
            self.budget.used = self.budget.limit;
            return Err(SyscallError::OutOfGas);
        }
        let index: usize = self.charges.len();
        self.budget.used = self.budget.used + compute_units;
        self.charges.push(ChargeRecord { name: name.to_owned(), compute_units, released: false });
        assert(self@.charges =~= old(self)@.charged(name@, compute_units).charges);
        Ok(GasTimer { index })
    }

    /// Releases the timer of a charge. Gas that was charged stays charged.
    pub fn stop(&mut self, timer: GasTimer)
        ensures
            final(self)@ == old(self)@.released(timer.index()),
            final(self)@.wf(),
    {
        proof {
            use_type_invariant(&self.budget);
        }
        let index: usize = timer.index;
        if index < self.charges.len() {
            self.charges[index].released = true;
            assert(self@.charges =~= old(self)@.released(index as int).charges);
        }
    }
}

} // verus!
