use vstd::prelude::*;

verus! {

/// Ranging mode of the sensor.
#[derive(Clone, Copy, Debug, PartialEq, Eq, Structural)]
pub enum RangingMode {
    Short,
    Long,
}

/// Integration time of one ranging cycle.
#[derive(Clone, Copy, Debug, PartialEq, Eq, Structural)]
pub enum TimingBudget {
    TB20ms,
    TB33ms,
    TB50ms,
    TB100ms,
}

/// Region of interest: four small unsigned offsets of the sensor's grid.
#[derive(Clone, Copy, Debug, PartialEq, Eq, Structural)]
pub struct Roi {
    pub x: u8,
    pub y: u8,
    pub w: u8,
    pub h: u8,
}

/// One decoded status frame of the sensor.
#[derive(Clone, Copy, Debug, PartialEq, Eq, Structural)]
pub struct Measurement {
    pub status: u8,
    pub distance_mm: u16,
    pub ambient: u16,
    pub mode: RangingMode,
    pub budget: TimingBudget,
    pub roi: Roi,
}

/// The number of milliseconds that a timing budget stands for.
pub open spec fn budget_millis(b: TimingBudget) -> int {
    match b {
        TimingBudget::TB20ms => 20,
        TimingBudget::TB33ms => 33,
        TimingBudget::TB50ms => 50,
        TimingBudget::TB100ms => 100,
    }
}

/// Whether `ms` is one of the timing budgets the sensor offers.
pub open spec fn is_budget_millis(ms: int) -> bool {
    ms == 20 || ms == 33 || ms == 50 || ms == 100
}

impl TimingBudget {
    /// The budget in milliseconds.
    pub fn millis(&self) -> (r: u8)
        ensures
            r as int == budget_millis(*self),
    {
        match self {
            TimingBudget::TB20ms => 20,
            TimingBudget::TB33ms => 33,
            TimingBudget::TB50ms => 50,
            TimingBudget::TB100ms => 100,
        }
    }

    /// The budget of exactly `ms` milliseconds, if the sensor offers one.
    pub fn from_millis(ms: i32) -> (r: Option<TimingBudget>)
        ensures
            r is Some <==> is_budget_millis(ms as int),
            r matches Some(b) ==> budget_millis(b) == ms as int,
    {
        if ms == 20 {
            Some(TimingBudget::TB20ms)
        } else if ms == 33 {
            Some(TimingBudget::TB33ms)
        } else if ms == 50 {
            Some(TimingBudget::TB50ms)
        } else if ms == 100 {
            Some(TimingBudget::TB100ms)
        } else {
            None
        }
    }
}

impl RangingMode {
    /// Whether this is the long-range mode.
    pub fn is_long(&self) -> (r: bool)
        ensures
            r <==> *self == RangingMode::Long,
    {
        match self {
            RangingMode::Short => false,
            RangingMode::Long => true,
        }
    }

    /// The long-range mode when `is_long` holds, the short one otherwise.
    pub fn from_is_long(is_long: bool) -> (r: RangingMode)
        ensures
            (r == RangingMode::Long) == is_long,
            is_long ==> r == RangingMode::Long,
            !is_long ==> r == RangingMode::Short,
    {
        if is_long {
            RangingMode::Long
        } else {
            RangingMode::Short
        }
    }
}

} // verus!
