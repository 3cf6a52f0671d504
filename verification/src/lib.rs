//! Decimal throughput scaling for benchmark reporting.
//!
//! A benchmark harness reports throughput by rescaling raw per-iteration
//! durations into rates at a human-readable decimal magnitude (B/s, KB/s,
//! MB/s, GB/s, TB/s, and the corresponding element units). The choice of
//! magnitude, the denominator it carries, and the unit label are pure
//! decisions and are verified here; the surrounding floating-point rate
//! arithmetic stays with the caller, which hands this library the rate's
//! IEEE-754 bit pattern.

use vstd::prelude::*;

verus! {

/// A decimal magnitude step: a power of one thousand, from `One` (no
/// scaling) up to `Tera` (a trillion units per second).
#[derive(Clone, Copy, Debug, PartialEq, Eq, Structural)]
pub enum Multiple {
    One,
    Kilo,
    Mega,
    Giga,
    Tera,
}

impl Multiple {
    /// The decimal denominator this magnitude divides a per-second rate by.
    pub open spec fn denominator_spec(self) -> u64 {
        match self {
            Multiple::One => 1,
            Multiple::Kilo => 1_000,
            Multiple::Mega => 1_000_000,
            Multiple::Giga => 1_000_000_000,
            Multiple::Tera => 1_000_000_000_000,
        }
    }

    /// Look up the denominator for this magnitude.
    pub fn denominator(&self) -> (d: u64)
        ensures
            d == self.denominator_spec(),
    {
        match *self {
            Multiple::One => 1,
            Multiple::Kilo => 1_000,
            Multiple::Mega => 1_000_000,
            Multiple::Giga => 1_000_000_000,
            Multiple::Tera => 1_000_000_000_000,
        }
    }
}

/// The unit family of a throughput declaration: bytes, or generic elements.
#[derive(Clone, Copy, Debug, PartialEq, Eq, Structural)]
pub enum Unit {
    Byte,
    Elem,
}

/// A declared throughput quantity: how many bytes or elements one measured
/// iteration processed.
#[derive(Clone, Copy, Debug, PartialEq, Eq, Structural)]
pub enum Quantity {
    Bytes(u64),
    Elements(u64),
}

impl Quantity {
    /// The declared count, regardless of unit family.
    pub open spec fn count_spec(self) -> u64 {
        match self {
            Quantity::Bytes(n) => n,
            Quantity::Elements(n) => n,
        }
    }

    /// The unit family of the declaration.
    pub open spec fn unit_spec(self) -> Unit {
        match self {
            Quantity::Bytes(_) => Unit::Byte,
            Quantity::Elements(_) => Unit::Elem,
        }
    }

    /// Extract the declared count.
    pub fn count(&self) -> (n: u64)
        ensures
            n == self.count_spec(),
    {
        match *self {
            Quantity::Bytes(n) => n,
            Quantity::Elements(n) => n,
        }
    }

    /// Extract the unit family.
    pub fn unit(&self) -> (u: Unit)
        ensures
            u == self.unit_spec(),
    {
        match *self {
            Quantity::Bytes(_) => Unit::Byte,
            Quantity::Elements(_) => Unit::Elem,
        }
    }
}

/// Bit pattern of the IEEE-754 double one thousand, the inclusive lower
/// bound of the `Kilo` rate band.
///
/// For doubles that are not negative and not NaN, the numeric order and the
/// order of the bit patterns (as unsigned integers) coincide, so a rate
/// handed over as its bit pattern can be banded here without any
/// floating-point arithmetic.
pub const KILO_RATE_BITS: u64 = 0x408F_4000_0000_0000;

/// Bit pattern of the double one million, the inclusive lower bound of the
/// `Mega` rate band.
pub const MEGA_RATE_BITS: u64 = 0x412E_8480_0000_0000;

/// Bit pattern of the double one billion, the inclusive lower bound of the
/// `Giga` rate band.
pub const GIGA_RATE_BITS: u64 = 0x41CD_CD65_0000_0000;

/// Bit pattern of the double one trillion, the inclusive lower bound of the
/// `Tera` rate band.
pub const TERA_RATE_BITS: u64 = 0x426D_1A94_A200_0000;

/// The magnitude a units-per-second rate is reported at, chosen by
/// descending comparison against the band bounds; each bound is inclusive,
/// so a rate exactly on a bound takes the larger magnitude.
pub open spec fn multiple_for_rate(rate_bits: u64) -> Multiple {
    if rate_bits >= TERA_RATE_BITS {
        Multiple::Tera
    } else if rate_bits >= GIGA_RATE_BITS {
        Multiple::Giga
    } else if rate_bits >= MEGA_RATE_BITS {
        Multiple::Mega
    } else if rate_bits >= KILO_RATE_BITS {
        Multiple::Kilo
    } else {
        Multiple::One
    }
}

/// Select the reporting magnitude for a units-per-second rate, given as the
/// bit pattern of a non-negative double (a negative or NaN rate has no
/// magnitude; callers map it to bit pattern zero, which lands in `One`).
pub fn rate_multiple(rate_bits: u64) -> (m: Multiple)
    ensures
        m == multiple_for_rate(rate_bits),
{
    if rate_bits >= TERA_RATE_BITS {
        Multiple::Tera
    } else if rate_bits >= GIGA_RATE_BITS {
        Multiple::Giga
    } else if rate_bits >= MEGA_RATE_BITS {
        Multiple::Mega
    } else if rate_bits >= KILO_RATE_BITS {
        Multiple::Kilo
    } else {
        Multiple::One
    }
}

/// The rate bands partition the non-negative doubles: each magnitude is
/// chosen exactly on the half-open band between its own inclusive lower
/// bound and the next bound, with `Tera` unbounded above and `One` holding
/// everything below the `Kilo` bound.
pub proof fn lemma_rate_bands(rate_bits: u64)
    ensures
        multiple_for_rate(rate_bits) is Tera <==> rate_bits >= TERA_RATE_BITS,
        multiple_for_rate(rate_bits) is Giga <==> GIGA_RATE_BITS <= rate_bits < TERA_RATE_BITS,
        multiple_for_rate(rate_bits) is Mega <==> MEGA_RATE_BITS <= rate_bits < GIGA_RATE_BITS,
        multiple_for_rate(rate_bits) is Kilo <==> KILO_RATE_BITS <= rate_bits < MEGA_RATE_BITS,
        multiple_for_rate(rate_bits) is One <==> rate_bits < KILO_RATE_BITS,
{
}

/// The textual unit suffix for a unit family at a magnitude. The
/// base-magnitude labels carry a leading space so that every label in a
/// family is equally wide and columns align.
pub open spec fn label_spec(unit: Unit, multiple: Multiple) -> Seq<char> {
    match (unit, multiple) {
        (Unit::Byte, Multiple::One) => " B/s"@,
        (Unit::Byte, Multiple::Kilo) => "KB/s"@,
        (Unit::Byte, Multiple::Mega) => "MB/s"@,
        (Unit::Byte, Multiple::Giga) => "GB/s"@,
        (Unit::Byte, Multiple::Tera) => "TB/s"@,
        (Unit::Elem, Multiple::One) => " elem/s"@,
        (Unit::Elem, Multiple::Kilo) => "Kelem/s"@,
        (Unit::Elem, Multiple::Mega) => "Melem/s"@,
        (Unit::Elem, Multiple::Giga) => "Gelem/s"@,
        (Unit::Elem, Multiple::Tera) => "Telem/s"@,
    }
}

/// Look up the unit suffix for a unit family at a magnitude.
pub fn unit_label(unit: Unit, multiple: Multiple) -> (s: &'static str)
    ensures
        s@ == label_spec(unit, multiple),
{
    match (unit, multiple) {
        (Unit::Byte, Multiple::One) => " B/s",
        (Unit::Byte, Multiple::Kilo) => "KB/s",
        (Unit::Byte, Multiple::Mega) => "MB/s",
        (Unit::Byte, Multiple::Giga) => "GB/s",
        (Unit::Byte, Multiple::Tera) => "TB/s",
        (Unit::Elem, Multiple::One) => " elem/s",
        (Unit::Elem, Multiple::Kilo) => "Kelem/s",
        (Unit::Elem, Multiple::Mega) => "Melem/s",
        (Unit::Elem, Multiple::Giga) => "Gelem/s",
        (Unit::Elem, Multiple::Tera) => "Telem/s",
    }
}

/// The full scaling decision for one throughput report: given the declared
/// quantity and the representative units-per-second rate (as the bit
/// pattern of a non-negative double), choose the magnitude once and return
/// the denominator every sample's own rate is divided by, together with the
/// unit suffix to print. The magnitude is a pure function of the quantity's
/// unit family and the representative rate, applied uniformly to the whole
/// batch.
pub fn throughput_scale(quantity: &Quantity, rate_bits: u64) -> (r: (u64, &'static str))
    ensures
        r.0 == multiple_for_rate(rate_bits).denominator_spec(),
        r.1@ == label_spec(quantity.unit_spec(), multiple_for_rate(rate_bits)),
{
    let multiple = rate_multiple(rate_bits);
    (multiple.denominator(), unit_label(quantity.unit(), multiple))
}

} // verus!
