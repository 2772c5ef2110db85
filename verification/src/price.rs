//! The arithmetic of the price engine: the reserved symbol and the scaled
//! ratio of two rates.

use vstd::prelude::*;
use crate::model;
use crate::types::E18;

verus! {

/// Whether `symbol` is the reserved symbol `USD`.
pub fn is_usd(symbol: &Vec<u8>) -> (yes: bool)
    ensures
        yes == (symbol@ == model::usd()),
{
    let yes = symbol.len() == 3 && symbol[0] == 0x55 && symbol[1] == 0x53 && symbol[2] == 0x44;
    assert(yes == (symbol@ =~= model::usd()));
    yes
}

/// The base rate over the quote rate at eighteen decimals: the product of
/// the base rate and `E18` is formed in 128 bits, divided by the quote rate
/// rounding down, and cut to its low 64 bits. A quote rate of zero has no ratio.
pub fn scaled_ratio(base_rate: u64, quote_rate: u64) -> (ratio: Option<u64>)
    ensures
        ratio == (if quote_rate == 0 {
            None
        } else {
            Some(model::scaled_ratio(base_rate, quote_rate))
        }),
{
    if quote_rate == 0 {
        return None;
    }
    let scaled: u128 = (base_rate as u128) * E18;
    let wide: u128 = scaled / (quote_rate as u128);
    assert(wide as u64 == wide % 0x1_0000_0000_0000_0000) by (bit_vector);
    Some(#[verifier::truncate] (wide as u64))
}

} // verus!
