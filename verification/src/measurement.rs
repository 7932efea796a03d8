//! The measurement backend: the resolved selector and labels of one counter
//! kind, and the accumulation of counter readings.

use crate::formatter::PerfFormatter;
use crate::formatter::UnitLabels;
use crate::mode::HardwareEvent;
use crate::mode::PerfMode;
use vstd::prelude::*;

verus! {

/// The measurement of one hardware event.
///
/// The default measurement created by `PerfMeasurement::default()` is
/// [`PerfMode`]`::Instructions`.
pub struct PerfMeasurement {
    event: HardwareEvent,
    formatter: PerfFormatter,
}

/// The mathematical content of a [`PerfMeasurement`].
pub struct Resolved {
    /// The selector to program the hardware counter with.
    pub event: HardwareEvent,
    /// The labels of the readings.
    pub labels: UnitLabels,
}

impl View for PerfMeasurement {
    type V = Resolved;

    closed spec fn view(&self) -> Resolved {
        Resolved { event: self.event, labels: self.formatter@ }
    }
}

/// What a mode resolves to: its selector and its labels.
pub open spec fn resolve(mode: PerfMode) -> Resolved {
    Resolved { event: mode.event_of(), labels: mode.units_of() }
}

/// The sum of two counter totals, as a mathematical integer.
pub open spec fn total(v1: u64, v2: u64) -> int {
    v1 + v2
}

impl PerfMeasurement {
    /// Whether the measurement holds what some mode resolves to.
    pub open spec fn wf(&self) -> bool {
        exists|mode: PerfMode| self@ == resolve(mode)
    }

    /// Create a new measurement, using the given [`PerfMode`] event.
    pub fn new(mode: PerfMode) -> (measurement: PerfMeasurement)
        ensures
            measurement@ == resolve(mode),
            measurement.wf(),
    {
        let event = mode.event();
        let formatter = mode.formatter();
        PerfMeasurement { event, formatter }
    }

    /// The selector that a counter of this measurement is opened with.
    pub fn event(&self) -> (selector: HardwareEvent)
        ensures
            selector == self@.event,
    {
        self.event
    }

    /// Combines the totals of two batches of iterations.
    pub fn add(&self, v1: &u64, v2: &u64) -> (sum: u64)
        requires
            total(*v1, *v2) <= u64::MAX,
        ensures
            sum == total(*v1, *v2),
    {
        *v1 + *v2
    }

    /// The total before any iteration has run.
    pub fn zero(&self) -> (nothing: u64)
        ensures
            nothing == 0,
    {
        0
    }

    /// The formatter that labels the readings of this measurement.
    pub fn formatter(&self) -> (formatter: &PerfFormatter)
        ensures
            formatter@ == self@.labels,
    {
        &self.formatter
    }
}

impl Clone for PerfMeasurement {
    fn clone(&self) -> (copy: PerfMeasurement)
        ensures
            copy@ == self@,
    {
        PerfMeasurement { event: self.event, formatter: self.formatter.clone() }
    }
}

impl Default for PerfMeasurement {
    fn default() -> (measurement: PerfMeasurement)
        ensures
            measurement@ == resolve(PerfMode::Instructions),
            measurement.wf(),
    {
        PerfMeasurement::new(PerfMode::Instructions)
    }
}

/// Zero is an identity of the sum, on the left and on the right.
pub proof fn lemma_zero_identity(x: u64)
    ensures
        total(0, x) == x,
        total(x, 0) == x,
{
}

/// The sum does not depend on the order of its two totals.
pub proof fn lemma_add_commutative(v1: u64, v2: u64)
    ensures
        total(v1, v2) == total(v2, v1),
{
}

/// Where the sum of three totals fits in 64 bits, it does not depend on which
/// two of them are added first.
pub proof fn lemma_add_associative(v1: u64, v2: u64, v3: u64)
    requires
        v1 + v2 + v3 <= u64::MAX,
    ensures
        total(total(v1, v2) as u64, v3) == total(v1, total(v2, v3) as u64),
        total(total(v1, v2) as u64, v3) == v1 + v2 + v3,
{
}

/// A default measurement and one made for instructions hold the same selector
/// and the same labels.
pub proof fn lemma_default_counts_instructions(
    by_default: PerfMeasurement,
    explicit: PerfMeasurement,
)
    requires
        by_default@ == resolve(PerfMode::Instructions),
        explicit@ == resolve(PerfMode::Instructions),
    ensures
        by_default@.event == explicit@.event,
        by_default@.labels == explicit@.labels,
        by_default@.event == HardwareEvent::Instructions,
{
}

} // verus!
