//! Throughput units and the formatting policy: unit labels, throughput
//! divisors, decimal rendering of element counts, and assembly of the final
//! display strings around an already rendered number.

use vstd::prelude::*;

verus! {

/// A per-iteration workload size declared by the harness user: a byte count
/// (under binary or decimal prefixes) or an abstract element count. This
/// library never constructs one on its own; it only inspects the variant to
/// choose a scale label and a divisor.
#[derive(Clone, Copy, Debug, PartialEq, Eq, Structural)]
pub enum ThroughputUnit {
    /// The benchmark processes this many bytes per iteration, displayed with
    /// binary prefixes.
    Bytes(u64),
    /// The benchmark processes this many bytes per iteration, displayed with
    /// decimal prefixes.
    BytesDecimal(u64),
    /// The benchmark processes this many abstract elements per iteration.
    Elements(u64),
}

impl ThroughputUnit {
    /// The declared per-iteration count, whichever variant carries it.
    pub open spec fn spec_count(self) -> u64 {
        match self {
            ThroughputUnit::Bytes(n) => n,
            ThroughputUnit::BytesDecimal(n) => n,
            ThroughputUnit::Elements(n) => n,
        }
    }

    /// The throughput denominator: the declared byte or element count. A
    /// zero count is handed back as is; dividing by it is the caller's
    /// deliberate, unguarded float division.
    pub fn count(&self) -> (n: u64)
        ensures
            n == self.spec_count(),
    {
        match self {
            ThroughputUnit::Bytes(n) => *n,
            ThroughputUnit::BytesDecimal(n) => *n,
            ThroughputUnit::Elements(n) => *n,
        }
    }
}

/// The decimal digit character for `d`.
pub open spec fn digit_char(d: nat) -> char {
    if d == 0 {
        '0'
    } else if d == 1 {
        '1'
    } else if d == 2 {
        '2'
    } else if d == 3 {
        '3'
    } else if d == 4 {
        '4'
    } else if d == 5 {
        '5'
    } else if d == 6 {
        '6'
    } else if d == 7 {
        '7'
    } else if d == 8 {
        '8'
    } else {
        '9'
    }
}

/// The decimal digits of `n`, most significant first, with no leading zero
/// except for `n == 0` itself.
pub open spec fn dec_digits(n: nat) -> Seq<char>
    decreases n,
{
    if n < 10 {
        seq![digit_char(n)]
    } else {
        dec_digits(n / 10) + seq![digit_char(n % 10)]
    }
}

/// The one-character string for a single decimal digit.
fn digit_str(d: u64) -> (s: &'static str)
    requires
        d < 10,
    ensures
        s@ == seq![digit_char(d as nat)],
{
    let s: &'static str = match d {
        0 => "0",
        1 => "1",
        2 => "2",
        3 => "3",
        4 => "4",
        5 => "5",
        6 => "6",
        7 => "7",
        8 => "8",
        _ => "9",
    };
    proof {
        reveal_strlit("0");
        reveal_strlit("1");
        reveal_strlit("2");
        reveal_strlit("3");
        reveal_strlit("4");
        reveal_strlit("5");
        reveal_strlit("6");
        reveal_strlit("7");
        reveal_strlit("8");
        reveal_strlit("9");
        assert(s@ =~= seq![digit_char(d as nat)]);
    }
    s
}

/// Renders `n` in decimal, most significant digit first.
pub fn u64_to_decimal(n: u64) -> (s: String)
    ensures
        s@ == dec_digits(n as nat),
    decreases n,
{
    if n < 10 {
        String::from_str(digit_str(n))
    } else {
        let mut s = u64_to_decimal(n / 10);
        s.append(digit_str(n % 10));
        s
    }
}

/// The unit suffix that a throughput display string ends in, for each
/// throughput unit variant. For element counts the count itself is part of
/// the suffix, rendered in decimal.
pub open spec fn throughput_suffix(u: ThroughputUnit) -> Seq<char> {
    match u {
        ThroughputUnit::Bytes(_) => " cpb"@,
        ThroughputUnit::BytesDecimal(_) => " cpb (decimal)"@,
        ThroughputUnit::Elements(n) => " cycles/"@ + dec_digits(n as nat),
    }
}

/// The label that goes with a series of throughput-scaled values, for each
/// throughput unit variant.
pub open spec fn spec_scale_label(u: ThroughputUnit) -> Seq<char> {
    match u {
        ThroughputUnit::Bytes(_) => "cpb"@,
        ThroughputUnit::BytesDecimal(_) => "cpb (decimal)"@,
        ThroughputUnit::Elements(_) => "c/e"@,
    }
}

/// The divisor applied to a measured value before a throughput display
/// string is rendered: the byte count for byte units, and one for element
/// units, whose value stays undivided because the element count is shown in
/// the suffix instead.
pub open spec fn spec_format_divisor(u: ThroughputUnit) -> u64 {
    match u {
        ThroughputUnit::Bytes(n) => n,
        ThroughputUnit::BytesDecimal(n) => n,
        ThroughputUnit::Elements(_) => 1,
    }
}

/// The formatter the measurement strategy hands to the harness: stateless,
/// it renders cycle counts as display strings and picks scale labels.
///
/// Cycle counts have no natural magnitude prefixes the way nanoseconds do,
/// so every scaling operation is the identity except where an explicit
/// throughput denominator was declared.
pub struct CyclesPerByteFormatter;

impl CyclesPerByteFormatter {
    /// Appends the bare-count unit to an already rendered number: the
    /// display string for a plain cycle count.
    pub fn format_value(&self, rendered: &str) -> (s: String)
        ensures
            s@ == rendered@ + " cycles"@,
    {
        String::from_str(rendered).concat(" cycles")
    }

    /// The divisor a caller applies to the measured value before rendering
    /// the number that `format_throughput` completes.
    pub fn format_divisor(&self, unit: &ThroughputUnit) -> (d: u64)
        ensures
            d == spec_format_divisor(*unit),
    {
        match unit {
            ThroughputUnit::Bytes(n) => *n,
            ThroughputUnit::BytesDecimal(n) => *n,
            ThroughputUnit::Elements(_) => 1,
        }
    }

    /// Appends the throughput unit suffix to an already rendered (and, for
    /// byte units, already divided) number: the throughput display string.
    pub fn format_throughput(&self, unit: &ThroughputUnit, rendered: &str) -> (s: String)
        ensures
            s@ == rendered@ + throughput_suffix(*unit),
    {
        match unit {
            ThroughputUnit::Bytes(_) => String::from_str(rendered).concat(" cpb"),
            ThroughputUnit::BytesDecimal(_) => String::from_str(rendered).concat(" cpb (decimal)"),
            ThroughputUnit::Elements(n) => {
                let mut s = String::from_str(rendered).concat(" cycles/");
                let digits = u64_to_decimal(*n);
                s.append(digits.as_str());
                s
            },
        }
    }

    /// The label for rendering a series without throughput context. The
    /// values themselves are never touched: cycle counts are already in
    /// their natural display unit, so no rescaling applies.
    pub fn scale_values(&self) -> (label: &'static str)
        ensures
            label@ == "cycles"@,
    {
        "cycles"
    }

    /// The label that goes with throughput-scaled values; the caller divides
    /// every value of the series by the unit's declared count.
    pub fn scale_throughputs(&self, unit: &ThroughputUnit) -> (label: &'static str)
        ensures
            label@ == spec_scale_label(*unit),
    {
        match unit {
            ThroughputUnit::Bytes(_) => "cpb",
            ThroughputUnit::BytesDecimal(_) => "cpb (decimal)",
            ThroughputUnit::Elements(_) => "c/e",
        }
    }

    /// The label for machine-readable output; no scaling is ever applied
    /// there either.
    pub fn scale_for_machines(&self) -> (label: &'static str)
        ensures
            label@ == "cycles"@,
    {
        "cycles"
    }
}

} // verus!
