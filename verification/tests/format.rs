//! The formatting scenarios, run the way the harness adapter runs them: the
//! floating-point number is rendered to four decimal places first, and the
//! library supplies the divisor, the label, and the final string.

use cycles_per_byte::u64_to_decimal;
use cycles_per_byte::CyclesPerByte;
use cycles_per_byte::CyclesPerByteFormatter;
use cycles_per_byte::ThroughputUnit;

fn rendered(value: f64) -> String {
    format!("{:.4}", value)
}

#[test]
fn format_value_appends_the_cycles_unit() {
    let f = CyclesPerByteFormatter;
    assert_eq!(f.format_value(&rendered(1234.5)), "1234.5000 cycles");
    assert_eq!(f.format_value(&rendered(0.0)), "0.0000 cycles");
}

#[test]
fn format_throughput_divides_by_the_byte_count() {
    let f = CyclesPerByteFormatter;
    let unit = ThroughputUnit::Bytes(2);
    let scaled = 1000.0 / f.format_divisor(&unit) as f64;
    assert_eq!(f.format_throughput(&unit, &rendered(scaled)), "500.0000 cpb");
}

#[test]
fn format_throughput_shows_the_element_count_undivided() {
    let f = CyclesPerByteFormatter;
    let unit = ThroughputUnit::Elements(5);
    let scaled = 1000.0 / f.format_divisor(&unit) as f64;
    assert_eq!(
        f.format_throughput(&unit, &rendered(scaled)),
        "1000.0000 cycles/5"
    );
}

#[test]
fn format_throughput_marks_decimal_bytes() {
    let f = CyclesPerByteFormatter;
    let unit = ThroughputUnit::BytesDecimal(4);
    let scaled = 1000.0 / f.format_divisor(&unit) as f64;
    assert_eq!(
        f.format_throughput(&unit, &rendered(scaled)),
        "250.0000 cpb (decimal)"
    );
}

#[test]
fn format_divisor_is_one_for_elements_and_the_count_for_bytes() {
    let f = CyclesPerByteFormatter;
    assert_eq!(f.format_divisor(&ThroughputUnit::Bytes(16)), 16);
    assert_eq!(f.format_divisor(&ThroughputUnit::BytesDecimal(1000)), 1000);
    assert_eq!(f.format_divisor(&ThroughputUnit::Elements(5)), 1);
    assert_eq!(f.format_divisor(&ThroughputUnit::Bytes(0)), 0);
}

#[test]
fn scale_values_labels_cycles_and_touches_nothing() {
    let f = CyclesPerByteFormatter;
    let values = vec![1.0, 2.0];
    assert_eq!(f.scale_values(), "cycles");
    assert_eq!(values, vec![1.0, 2.0]);
}

#[test]
fn scale_throughputs_divides_by_the_declared_count() {
    let f = CyclesPerByteFormatter;
    let unit = ThroughputUnit::Bytes(4);
    let mut values = vec![8.0, 16.0];
    let count = unit.count();
    for value in values.iter_mut() {
        *value /= count as f64;
    }
    assert_eq!(f.scale_throughputs(&unit), "cpb");
    assert_eq!(values, vec![2.0, 4.0]);
}

#[test]
fn scale_throughputs_labels_every_variant() {
    let f = CyclesPerByteFormatter;
    assert_eq!(f.scale_throughputs(&ThroughputUnit::Bytes(1)), "cpb");
    assert_eq!(f.scale_throughputs(&ThroughputUnit::Elements(1)), "c/e");
    assert_eq!(
        f.scale_throughputs(&ThroughputUnit::BytesDecimal(1)),
        "cpb (decimal)"
    );
}

#[test]
fn scale_for_machines_labels_cycles() {
    let f = CyclesPerByteFormatter;
    assert_eq!(f.scale_for_machines(), "cycles");
}

#[test]
fn unit_count_is_the_declared_count() {
    assert_eq!(ThroughputUnit::Bytes(16).count(), 16);
    assert_eq!(ThroughputUnit::BytesDecimal(1000).count(), 1000);
    assert_eq!(ThroughputUnit::Elements(7).count(), 7);
    assert_eq!(ThroughputUnit::Elements(0).count(), 0);
}

#[test]
fn decimal_rendering_matches_the_count() {
    assert_eq!(u64_to_decimal(0), "0");
    assert_eq!(u64_to_decimal(7), "7");
    assert_eq!(u64_to_decimal(10), "10");
    assert_eq!(u64_to_decimal(1234567890), "1234567890");
    assert_eq!(u64_to_decimal(u64::MAX), "18446744073709551615");
}

#[test]
fn sixteen_bytes_per_iteration_reported_end_to_end() {
    let m = CyclesPerByte;
    let started = m.start(1000);
    let first = m.end(started, 2600);
    let again = m.start(5000);
    let second = m.end(again, 6600);
    let total = m.add(&first, &second);
    assert_eq!(total.ticks(), 3200);

    let f = m.formatter();
    let unit = ThroughputUnit::Bytes(16);
    let value = total.ticks() as f64;
    let scaled = value / f.format_divisor(&unit) as f64;
    assert_eq!(f.format_throughput(&unit, &rendered(scaled)), "200.0000 cpb");
}
