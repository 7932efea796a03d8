//! The closed set of counter kinds and the hardware event each one selects.

use crate::formatter::PerfFormatter;
use crate::formatter::UnitLabels;
use vstd::prelude::*;

verus! {

/// A selector of the platform's fixed vocabulary of hardware events.
#[derive(Clone, Copy, Debug, PartialEq, Eq, Structural)]
pub enum HardwareEvent {
    /// Total CPU cycles.
    CpuCycles,
    /// Instructions retired.
    Instructions,
    /// Cache accesses.
    CacheReferences,
    /// Cache misses.
    CacheMisses,
    /// Branch instructions retired.
    BranchInstructions,
    /// Mispredicted branches.
    BranchMisses,
    /// Bus cycles.
    BusCycles,
    /// CPU cycles that frequency scaling does not affect.
    RefCpuCycles,
}

/// The perf counter to measure when running a benchmark.
#[derive(Clone, Copy, Debug, PartialEq, Eq, Structural)]
pub enum PerfMode {
    /// The number of instructions retired. These can be affected by
    /// various issues, most notably hardware interrupt counts.
    Instructions,
    /// The total number of CPU cycles. This can be affected by CPU
    /// frequency scaling.
    Cycles,
    /// The number of branch instructions retired.
    Branches,
    /// The number of mispredicted branches.
    BranchMisses,
    /// The number of cache accesses.
    CacheRefs,
    /// The number of cache misses.
    CacheMisses,
    /// The number of bus cycles elapsed.
    BusCycles,
    /// The total number of CPU cycles elapsed. This is not affected by
    /// CPU frequency scaling.
    RefCycles,
}

impl PerfMode {
    /// The hardware event that this mode counts.
    pub open spec fn event_of(self) -> HardwareEvent {
        match self {
            PerfMode::Instructions => HardwareEvent::Instructions,
            PerfMode::Cycles => HardwareEvent::CpuCycles,
            PerfMode::Branches => HardwareEvent::BranchInstructions,
            PerfMode::BranchMisses => HardwareEvent::BranchMisses,
            PerfMode::CacheRefs => HardwareEvent::CacheReferences,
            PerfMode::CacheMisses => HardwareEvent::CacheMisses,
            PerfMode::BusCycles => HardwareEvent::BusCycles,
            PerfMode::RefCycles => HardwareEvent::RefCpuCycles,
        }
    }

    /// Resolves the hardware event selector of this mode.
    pub fn event(&self) -> (selector: HardwareEvent)
        ensures
            selector == self.event_of(),
    {
        match self {
            PerfMode::Instructions => HardwareEvent::Instructions,
            PerfMode::Cycles => HardwareEvent::CpuCycles,
            PerfMode::Branches => HardwareEvent::BranchInstructions,
            PerfMode::BranchMisses => HardwareEvent::BranchMisses,
            PerfMode::CacheRefs => HardwareEvent::CacheReferences,
            PerfMode::CacheMisses => HardwareEvent::CacheMisses,
            PerfMode::BusCycles => HardwareEvent::BusCycles,
            PerfMode::RefCycles => HardwareEvent::RefCpuCycles,
        }
    }

    /// The label of a raw reading in this mode.
    pub open spec fn unit_of(self) -> Seq<char> {
        match self {
            PerfMode::Instructions => "instructions"@,
            PerfMode::Cycles => "cycles"@,
            PerfMode::Branches => "branches"@,
            PerfMode::BranchMisses => "branch misses"@,
            PerfMode::CacheRefs => "cache refs"@,
            PerfMode::CacheMisses => "cache misses"@,
            PerfMode::BusCycles => "bus cycles"@,
            PerfMode::RefCycles => "cycles"@,
        }
    }

    /// The three labels of this mode: its raw unit, and that unit per byte and
    /// per element.
    pub open spec fn units_of(self) -> UnitLabels {
        UnitLabels::of_unit(self.unit_of())
    }

    /// Resolves the labels under which readings in this mode are reported.
    pub fn formatter(&self) -> (formatter: PerfFormatter)
        ensures
            formatter@ == self.units_of(),
    {
        proof {
            reveal_strlit("/byte");
            reveal_strlit("/element");
        }
        match self {
            PerfMode::Instructions => {
                proof {
                    reveal_strlit("instructions");
                    reveal_strlit("instructions/byte");
                    reveal_strlit("instructions/element");
                    assert("instructions/byte"@ =~= "instructions"@ + "/byte"@);
                    assert("instructions/element"@ =~= "instructions"@ + "/element"@);
                }
                PerfFormatter::from_labels(
                    "instructions",
                    "instructions/byte",
                    "instructions/element",
                )
            },
            PerfMode::Cycles | PerfMode::RefCycles => {
                proof {
                    reveal_strlit("cycles");
                    reveal_strlit("cycles/byte");
                    reveal_strlit("cycles/element");
                    assert("cycles/byte"@ =~= "cycles"@ + "/byte"@);
                    assert("cycles/element"@ =~= "cycles"@ + "/element"@);
                }
                PerfFormatter::from_labels("cycles", "cycles/byte", "cycles/element")
            },
            PerfMode::Branches => {
                proof {
                    reveal_strlit("branches");
                    reveal_strlit("branches/byte");
                    reveal_strlit("branches/element");
                    assert("branches/byte"@ =~= "branches"@ + "/byte"@);
                    assert("branches/element"@ =~= "branches"@ + "/element"@);
                }
                PerfFormatter::from_labels("branches", "branches/byte", "branches/element")
            },
            PerfMode::BranchMisses => {
                proof {
                    reveal_strlit("branch misses");
                    reveal_strlit("branch misses/byte");
                    reveal_strlit("branch misses/element");
                    assert("branch misses/byte"@ =~= "branch misses"@ + "/byte"@);
                    assert("branch misses/element"@ =~= "branch misses"@ + "/element"@);
                }
                PerfFormatter::from_labels(
                    "branch misses",
                    "branch misses/byte",
                    "branch misses/element",
                )
            },
            PerfMode::CacheRefs => {
                proof {
                    reveal_strlit("cache refs");
                    reveal_strlit("cache refs/byte");
                    reveal_strlit("cache refs/element");
                    assert("cache refs/byte"@ =~= "cache refs"@ + "/byte"@);
                    assert("cache refs/element"@ =~= "cache refs"@ + "/element"@);
                }
                PerfFormatter::from_labels("cache refs", "cache refs/byte", "cache refs/element")
            },
            PerfMode::CacheMisses => {
                proof {
                    reveal_strlit("cache misses");
                    reveal_strlit("cache misses/byte");
                    reveal_strlit("cache misses/element");
                    assert("cache misses/byte"@ =~= "cache misses"@ + "/byte"@);
                    assert("cache misses/element"@ =~= "cache misses"@ + "/element"@);
                }
                PerfFormatter::from_labels(
                    "cache misses",
                    "cache misses/byte",
                    "cache misses/element",
                )
            },
            PerfMode::BusCycles => {
                proof {
                    reveal_strlit("bus cycles");
                    reveal_strlit("bus cycles/byte");
                    reveal_strlit("bus cycles/element");
                    assert("bus cycles/byte"@ =~= "bus cycles"@ + "/byte"@);
                    assert("bus cycles/element"@ =~= "bus cycles"@ + "/element"@);
                }
                PerfFormatter::from_labels("bus cycles", "bus cycles/byte", "bus cycles/element")
            },
        }
    }

    /// Every mode has a full set of labels: its raw unit is not empty, and each
    /// of its two throughput labels is that unit followed by a suffix of its own.
    pub proof fn lemma_every_mode_is_labelled(self)
        ensures
            self.unit_of().len() > 0,
            self.units_of().units == self.unit_of(),
            self.units_of().per_byte.len() == self.unit_of().len() + 5,
            self.units_of().per_element.len() == self.unit_of().len() + 8,
            self.units_of().per_byte.subrange(0, self.unit_of().len() as int) == self.unit_of(),
            self.units_of().per_element.subrange(0, self.unit_of().len() as int)
                == self.unit_of(),
    {
        reveal_strlit("/byte");
        reveal_strlit("/element");
        reveal_strlit("instructions");
        reveal_strlit("cycles");
        reveal_strlit("branches");
        reveal_strlit("branch misses");
        reveal_strlit("cache refs");
        reveal_strlit("cache misses");
        reveal_strlit("bus cycles");
        let unit = self.unit_of();
        assert((unit + "/byte"@).subrange(0, unit.len() as int) =~= unit);
        assert((unit + "/element"@).subrange(0, unit.len() as int) =~= unit);
    }

    /// Two modes select the same hardware event only if they are the same mode.
    pub proof fn lemma_selectors_are_distinct(self, other: PerfMode)
        ensures
            self.event_of() == other.event_of() <==> self == other,
    {
    }
}

} // verus!
