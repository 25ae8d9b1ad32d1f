//! Averaging of plant soil-moisture readings into watering decisions.

use vstd::prelude::*;

use crate::text::{decimal, decimal_string};
use vstd::string::StringExecFns;

verus! {

/// A window average at or above this is too dry: the plant gets water.
pub const MAX_DRY: u32 = 1900;

/// A window average at or below this is too wet.
pub const MIN_WET: u32 = 1500;

/// Readings averaged for one decision.
pub const WINDOW: usize = 12;

/// What to do after a reading.
#[derive(Debug, Clone, Copy, PartialEq, Eq, Structural)]
pub enum PlantAction {
    /// The window is not full yet, or the average is in range.
    Nothing,
    /// Water the plant; the average was this.
    Water(u32),
    /// Warn that the soil is too wet; the average was this.
    TooWet(u32),
}

pub open spec fn sum(s: Seq<u32>) -> int
    decreases s.len(),
{
    if s.len() == 0 {
        0
    } else {
        sum(s.drop_last()) + s.last()
    }
}

/// The decision for a window average.
pub open spec fn classify(avg: int) -> PlantAction {
    if avg >= MAX_DRY {
        PlantAction::Water(avg as u32)
    } else if avg <= MIN_WET {
        PlantAction::TooWet(avg as u32)
    } else {
        PlantAction::Nothing
    }
}

proof fn lemma_sum_bound(s: Seq<u32>)
    ensures
        0 <= sum(s) <= s.len() * (u32::MAX as int),
    decreases s.len(),
{
    if s.len() > 0 {
        lemma_sum_bound(s.drop_last());
    }
}

/// The readings received since the last decision.
#[derive(Debug)]
pub struct MoistureWindow {
    readings: Vec<u32>,
}

impl MoistureWindow {
    pub closed spec fn view(&self) -> Seq<u32> {
        self.readings@
    }

    pub open spec fn wf(&self) -> bool {
        self@.len() < WINDOW
    }

    pub fn new() -> (r: Self)
        ensures
            r.wf(),
            r@ == Seq::<u32>::empty(),
    {
        MoistureWindow { readings: Vec::new() }
    }

    /// Adds a reading; the twelfth reading of a window yields the decision
    /// for the window's integer average and starts a new window.
    pub fn record(&mut self, moisture: u32) -> (r: PlantAction)
        requires
            old(self).wf(),
        ensures
            final(self).wf(),
            old(self)@.len() + 1 < WINDOW ==> final(self)@ == old(self)@.push(moisture) && r
                == PlantAction::Nothing,
            old(self)@.len() + 1 == WINDOW ==> final(self)@.len() == 0 && r == classify(
                sum(old(self)@.push(moisture)) / (WINDOW as int),
            ),
    {
        self.readings.push(moisture);
        if self.readings.len() < WINDOW {
            return PlantAction::Nothing;
        }
        let mut total: u64 = 0;
        let mut i: usize = 0;
        proof {
            lemma_sum_bound(self@);
        }
        while i < self.readings.len()
            invariant
                self.readings@ == old(self)@.push(moisture),
                self.readings.len() == WINDOW,
                i <= self.readings.len(),
                total == sum(self.readings@.take(i as int)),
                total <= i * (u32::MAX as int),
            decreases self.readings.len() - i,
        {
            assert(self.readings@.take(i + 1).drop_last() =~= self.readings@.take(i as int));
            total = total + self.readings[i] as u64;
            i = i + 1;
        }
        assert(self.readings@.take(WINDOW as int) =~= self.readings@);
        let avg = (total / (WINDOW as u64)) as u32;
        self.readings.clear();
        if avg >= MAX_DRY {
            PlantAction::Water(avg)
        } else if avg <= MIN_WET {
            PlantAction::TooWet(avg)
        } else {
            PlantAction::Nothing
        }
    }
}

/// The message sent to the owner for an action, if any.
pub fn plant_message(action: PlantAction) -> (r: Option<String>)
    ensures
        action matches PlantAction::Water(avg) ==> (r matches Some(m) && m@ == "Moisture now is "@
            + decimal(avg as nat) + ". Watering the plant!"@),
        action is TooWet ==> (r matches Some(m) && m@ == "Coleus is too wet!"@),
        action is Nothing ==> r is None,
{
    match action {
        PlantAction::Water(avg) => {
            let mut m = String::from_str("Moisture now is ");
            let digits = decimal_string(avg as u64);
            m.append(digits.as_str());
            m.append(". Watering the plant!");
            Some(m)
        },
        PlantAction::TooWet(_) => Some(String::from_str("Coleus is too wet!")),
        PlantAction::Nothing => None,
    }
}

} // verus!
