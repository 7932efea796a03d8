//! Unit labels of a counter kind, and how a batch of readings is rescaled for
//! display.
//!
//! Raw hardware counts are already in natural units, so no magnitude prefix is
//! ever chosen: readings are either left as they are or divided by the amount
//! of work that one iteration declares.

use vstd::prelude::*;

verus! {

/// The amount of work that one iteration of a benchmark declares.
#[derive(Clone, Copy, Debug, PartialEq, Eq, Structural)]
pub enum Throughput {
    /// Bytes processed by one iteration.
    Bytes(u64),
    /// Bytes processed by one iteration, reported with decimal prefixes.
    BytesDecimal(u64),
    /// Elements processed by one iteration.
    Elements(u64),
}

/// The three labels of a counter kind, as sequences of characters.
pub struct UnitLabels {
    /// Label of a raw reading.
    pub units: Seq<char>,
    /// Label of a reading per byte.
    pub per_byte: Seq<char>,
    /// Label of a reading per element.
    pub per_element: Seq<char>,
}

/// What to do with a batch of readings: the number to divide each of them by,
/// if any, and the label to show beside them.
#[derive(Clone, Copy, Debug)]
pub struct Scaling {
    /// Each reading is divided by this number; `None` leaves the batch as it is.
    pub divisor: Option<u64>,
    /// The label of the readings after scaling.
    pub unit: &'static str,
}

/// The mathematical content of a [`Scaling`].
pub struct ScalingView {
    /// The divisor, if the batch is rescaled.
    pub divisor: Option<u64>,
    /// The label.
    pub unit: Seq<char>,
}

impl View for Scaling {
    type V = ScalingView;

    open spec fn view(&self) -> ScalingView {
        ScalingView { divisor: self.divisor, unit: self.unit@ }
    }
}

impl Throughput {
    /// The count that this basis declares.
    pub open spec fn amount(self) -> u64 {
        match self {
            Throughput::Bytes(n) => n,
            Throughput::BytesDecimal(n) => n,
            Throughput::Elements(n) => n,
        }
    }

    /// Whether the basis counts bytes, in either form.
    pub open spec fn counts_bytes(self) -> bool {
        !(self is Elements)
    }
}

impl UnitLabels {
    /// The labels that belong to a raw unit: the unit itself, and the unit
    /// followed by `/byte` and by `/element`.
    pub open spec fn of_unit(units: Seq<char>) -> UnitLabels {
        UnitLabels {
            units,
            per_byte: units + "/byte"@,
            per_element: units + "/element"@,
        }
    }

    /// Readings stay as they are and carry the raw unit.
    pub open spec fn plain(self) -> ScalingView {
        ScalingView { divisor: None, unit: self.units }
    }

    /// Readings are divided by the declared amount and carry the label of the
    /// basis: per byte for both byte forms, per element otherwise.
    pub open spec fn per_work(self, throughput: Throughput) -> ScalingView {
        ScalingView {
            divisor: Some(throughput.amount()),
            unit: if throughput.counts_bytes() {
                self.per_byte
            } else {
                self.per_element
            },
        }
    }
}

/// Labels readings of one counter kind and says how to rescale them.
pub struct PerfFormatter {
    units: &'static str,
    throughput_bytes: &'static str,
    throughput_elements: &'static str,
}

impl View for PerfFormatter {
    type V = UnitLabels;

    closed spec fn view(&self) -> UnitLabels {
        UnitLabels {
            units: self.units@,
            per_byte: self.throughput_bytes@,
            per_element: self.throughput_elements@,
        }
    }
}

impl Clone for PerfFormatter {
    fn clone(&self) -> (copy: PerfFormatter)
        ensures
            copy@ == self@,
    {
        PerfFormatter {
            units: self.units,
            throughput_bytes: self.throughput_bytes,
            throughput_elements: self.throughput_elements,
        }
    }
}

impl PerfFormatter {
    /// Holds the three labels as given.
    pub(crate) fn from_labels(
        units: &'static str,
        throughput_bytes: &'static str,
        throughput_elements: &'static str,
    ) -> (formatter: PerfFormatter)
        ensures
            formatter@.units == units@,
            formatter@.per_byte == throughput_bytes@,
            formatter@.per_element == throughput_elements@,
    {
        PerfFormatter { units, throughput_bytes, throughput_elements }
    }

    /// Scaling for display: the batch is not rescaled and carries the raw unit.
    pub fn scale_values(&self) -> (scaling: Scaling)
        ensures
            scaling@ == self@.plain(),
    {
        Scaling { divisor: None, unit: self.units }
    }

    /// Scaling against a declared amount of work: each reading is divided by
    /// that amount, and the label is the one of the basis.
    pub fn scale_throughputs(&self, throughput: &Throughput) -> (scaling: Scaling)
        ensures
            scaling@ == self@.per_work(*throughput),
    {
        match throughput {
            Throughput::Bytes(n) => Scaling { divisor: Some(*n), unit: self.throughput_bytes },
            Throughput::BytesDecimal(n) => Scaling {
                divisor: Some(*n),
                unit: self.throughput_bytes,
            },
            Throughput::Elements(n) => Scaling {
                divisor: Some(*n),
                unit: self.throughput_elements,
            },
        }
    }

    /// Scaling for machine consumption: the batch is not rescaled and carries
    /// the raw unit.
    pub fn scale_for_machines(&self) -> (scaling: Scaling)
        ensures
            scaling@ == self@.plain(),
    {
        Scaling { divisor: None, unit: self.units }
    }
}

} // verus!
