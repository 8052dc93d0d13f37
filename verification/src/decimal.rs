//! Decimal numbers of the engine, as mantissa and scale.
//!
//! The engine's decimals are those of the `rust_decimal` crate: a mantissa of
//! at most 96 bits with a sign, and a scale from 0 to 28 that says how many of
//! the mantissa's decimal digits stand behind the point. The library holds
//! the two numbers and leaves reading and writing decimal text to the crate.

use vstd::prelude::*;

verus! {

/// The largest scale.
pub const MAX_SCALE: u32 = 28;

/// The largest mantissa: 96 bits, all set.
pub const MAX_MANTISSA: i128 = 0xffff_ffff_ffff_ffff_ffff_ffff;

/// A decimal number: `mantissa` divided by ten to the power `scale`.
#[derive(Clone, Copy, Debug, PartialEq, Eq, PartialOrd, Ord, Hash, Structural)]
pub struct EngineDecimal {
    pub mantissa: i128,
    pub scale: u32,
}

impl EngineDecimal {
    /// Whether the engine can hold the number.
    pub open spec fn valid(self) -> bool {
        self.scale <= MAX_SCALE && -MAX_MANTISSA <= self.mantissa <= MAX_MANTISSA
    }
}

/// Ten to the power `n`.
pub open spec fn pow10(n: nat) -> int
    decreases n,
{
    if n == 0 {
        1
    } else {
        10 * pow10((n - 1) as nat)
    }
}

/// Whether two decimals are the same number: each mantissa, brought to the
/// other's scale, is the same. So 1.0 and 1.00 are equal.
pub open spec fn decimals_equal(a: EngineDecimal, b: EngineDecimal) -> bool {
    a.mantissa * pow10(b.scale as nat) == b.mantissa * pow10(a.scale as nat)
}

/// Asks `rust_decimal` whether two decimals are equal, with its `==`.
///
/// Trusted: `Decimal`'s `PartialEq` compares two decimals as numbers, which
/// is what [`decimals_equal`] says.
#[verifier::external_body]
pub(crate) fn same_decimal(a: &EngineDecimal, b: &EngineDecimal) -> (r: bool)
    requires
        a.valid(),
        b.valid(),
    ensures
        r == decimals_equal(*a, *b),
{
    rust_decimal::Decimal::from_i128_with_scale(a.mantissa, a.scale)
        == rust_decimal::Decimal::from_i128_with_scale(b.mantissa, b.scale)
}

/// The decimal that `rust_decimal`'s `FromStr` reads from a text, and `None`
/// where it reads none. It reads plain notation, and scientific notation
/// too, where it rounds what the scale cannot hold.
pub uninterp spec fn decimal_from_str(text: Seq<char>) -> Option<EngineDecimal>;

/// The decimal that `Decimal::from_scientific` reads from a text in
/// scientific notation, without rounding, and `None` where it reads none.
pub uninterp spec fn decimal_from_scientific(text: Seq<char>) -> Option<EngineDecimal>;

/// The text that `rust_decimal` writes for a decimal.
pub uninterp spec fn decimal_text(value: EngineDecimal) -> Seq<char>;

/// Reads a decimal with `rust_decimal`'s `FromStr` implementation.
///
/// Trusted: the result is [`decimal_from_str`] of the text by definition. Of
/// a decimal that was read the contract claims only that its mantissa and
/// scale are in the crate's documented range.
#[verifier::external_body]
pub(crate) fn read_plain(text: &str) -> (r: Option<EngineDecimal>)
    ensures
        r == decimal_from_str(text@),
        r matches Some(d) ==> d.valid(),
{
    match <rust_decimal::Decimal as core::str::FromStr>::from_str(text) {
        Ok(d) => Some(EngineDecimal { mantissa: d.mantissa(), scale: d.scale() }),
        Err(_) => None,
    }
}

/// Reads a decimal with `Decimal::from_scientific`.
///
/// Trusted: the result is [`decimal_from_scientific`] of the text by
/// definition. Of a decimal that was read the contract claims only that its
/// mantissa and scale are in the crate's documented range.
#[verifier::external_body]
pub(crate) fn read_scientific(text: &str) -> (r: Option<EngineDecimal>)
    ensures
        r == decimal_from_scientific(text@),
        r matches Some(d) ==> d.valid(),
{
    match rust_decimal::Decimal::from_scientific(text) {
        Ok(d) => Some(EngineDecimal { mantissa: d.mantissa(), scale: d.scale() }),
        Err(_) => None,
    }
}

/// Writes a decimal with `rust_decimal`'s `Display` implementation.
///
/// Trusted: the result is [`decimal_text`] of the value by definition.
#[verifier::external_body]
pub(crate) fn write_decimal(value: &EngineDecimal) -> (r: String)
    requires
        value.valid(),
    ensures
        r@ == decimal_text(*value),
{
    rust_decimal::Decimal::from_i128_with_scale(value.mantissa, value.scale).to_string()
}

/// What reading a host decimal comes to: what `FromStr` reads, where it
/// reads anything, else what `from_scientific` reads.
pub open spec fn decimal_of_text(text: Seq<char>) -> Option<EngineDecimal> {
    match decimal_from_str(text) {
        Some(d) => Some(d),
        None => decimal_from_scientific(text),
    }
}

/// Reads the text of a host decimal: with `FromStr` first, and where that
/// fails with `from_scientific`.
pub fn read_decimal(text: &str) -> (r: Option<EngineDecimal>)
    ensures
        r == decimal_of_text(text@),
        r matches Some(d) ==> d.valid(),
{
    match read_plain(text) {
        Some(d) => Some(d),
        None => read_scientific(text),
    }
}

} // verus!
