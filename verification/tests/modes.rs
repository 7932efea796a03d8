use criterion_linux_perf::HardwareEvent;
use criterion_linux_perf::PerfMeasurement;
use criterion_linux_perf::PerfMode;
use criterion_linux_perf::Throughput;

fn all_modes() -> Vec<PerfMode> {
    vec![
        PerfMode::Instructions,
        PerfMode::Cycles,
        PerfMode::Branches,
        PerfMode::BranchMisses,
        PerfMode::CacheRefs,
        PerfMode::CacheMisses,
        PerfMode::BusCycles,
        PerfMode::RefCycles,
    ]
}

#[test]
fn each_mode_selects_its_event() {
    assert_eq!(PerfMode::Instructions.event(), HardwareEvent::Instructions);
    assert_eq!(PerfMode::Cycles.event(), HardwareEvent::CpuCycles);
    assert_eq!(PerfMode::Branches.event(), HardwareEvent::BranchInstructions);
    assert_eq!(PerfMode::BranchMisses.event(), HardwareEvent::BranchMisses);
    assert_eq!(PerfMode::CacheRefs.event(), HardwareEvent::CacheReferences);
    assert_eq!(PerfMode::CacheMisses.event(), HardwareEvent::CacheMisses);
    assert_eq!(PerfMode::BusCycles.event(), HardwareEvent::BusCycles);
    assert_eq!(PerfMode::RefCycles.event(), HardwareEvent::RefCpuCycles);
}

#[test]
fn no_two_modes_share_an_event() {
    let modes = all_modes();
    for (i, a) in modes.iter().enumerate() {
        for (j, b) in modes.iter().enumerate() {
            assert_eq!(a.event() == b.event(), i == j);
        }
    }
}

#[test]
fn each_mode_has_its_raw_unit() {
    let expected = [
        "instructions",
        "cycles",
        "branches",
        "branch misses",
        "cache refs",
        "cache misses",
        "bus cycles",
        "cycles",
    ];
    for (mode, unit) in all_modes().iter().zip(expected.iter()) {
        let formatter = mode.formatter();
        assert_eq!(formatter.scale_values().unit, *unit);
        assert_eq!(formatter.scale_for_machines().unit, *unit);
    }
}

#[test]
fn throughput_labels_extend_the_raw_unit() {
    for mode in all_modes() {
        let formatter = mode.formatter();
        let unit = formatter.scale_values().unit;
        let per_byte = formatter.scale_throughputs(&Throughput::Bytes(1)).unit;
        let per_element = formatter.scale_throughputs(&Throughput::Elements(1)).unit;
        assert!(!unit.is_empty());
        assert_eq!(per_byte, format!("{}/byte", unit));
        assert_eq!(per_element, format!("{}/element", unit));
    }
}

#[test]
fn measurement_resolves_the_mode() {
    for mode in all_modes() {
        let measurement = PerfMeasurement::new(mode);
        assert_eq!(measurement.event(), mode.event());
        assert_eq!(
            measurement.formatter().scale_values().unit,
            mode.formatter().scale_values().unit
        );
        assert_eq!(
            measurement.formatter().scale_throughputs(&Throughput::Bytes(3)).unit,
            mode.formatter().scale_throughputs(&Throughput::Bytes(3)).unit
        );
        assert_eq!(
            measurement.formatter().scale_throughputs(&Throughput::Elements(3)).unit,
            mode.formatter().scale_throughputs(&Throughput::Elements(3)).unit
        );
    }
}

#[test]
fn default_counts_instructions() {
    let by_default = PerfMeasurement::default();
    let explicit = PerfMeasurement::new(PerfMode::Instructions);
    assert_eq!(by_default.event(), HardwareEvent::Instructions);
    assert_eq!(by_default.event(), explicit.event());
    assert_eq!(by_default.formatter().scale_values().unit, "instructions");
    assert_eq!(
        by_default.formatter().scale_throughputs(&Throughput::Bytes(1)).unit,
        "instructions/byte"
    );
    assert_eq!(
        by_default.formatter().scale_throughputs(&Throughput::Elements(1)).unit,
        "instructions/element"
    );
    assert_eq!(
        by_default.formatter().scale_values().unit,
        explicit.formatter().scale_values().unit
    );
}

#[test]
fn a_clone_holds_the_same_selector_and_labels() {
    let measurement = PerfMeasurement::new(PerfMode::CacheMisses);
    let copy = measurement.clone();
    assert_eq!(copy.event(), HardwareEvent::CacheMisses);
    assert_eq!(copy.formatter().scale_values().unit, "cache misses");
    let formatter = measurement.formatter().clone();
    assert_eq!(
        formatter.scale_throughputs(&Throughput::Elements(2)).unit,
        "cache misses/element"
    );
    assert_eq!(
        formatter.scale_throughputs(&Throughput::BytesDecimal(2)).unit,
        "cache misses/byte"
    );
}
