//! Clock-cycle measurement for a benchmarking harness, with human-readable
//! formatting of cycle counts and of throughput-derived metrics (cycles per
//! byte, cycles per element).
//!
//! The measurement side works on raw readings of a hardware cycle counter:
//! the caller reads the counter register and hands the raw value in, and this
//! library turns readings into cycle counts, takes the saturating delta
//! between a start and an end reading, and combines accumulated deltas by
//! addition with zero as the identity. The formatting side chooses the unit
//! label and divisor for a declared throughput unit and assembles the final
//! display strings around an already rendered number.

mod format;
mod measurement;

pub use format::dec_digits;
pub use format::digit_char;
pub use format::spec_format_divisor;
pub use format::spec_scale_label;
pub use format::throughput_suffix;
pub use format::u64_to_decimal;
pub use format::CyclesPerByteFormatter;
pub use format::ThroughputUnit;
pub use measurement::now;
pub use measurement::delta_of;
pub use measurement::sum_of;
pub use measurement::lemma_delta_clamps;
pub use measurement::lemma_sum_commutes;
pub use measurement::lemma_sum_associates;
pub use measurement::lemma_sum_identity;
pub use measurement::CycleCount;
pub use measurement::CyclesPerByte;
