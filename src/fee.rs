//! Fee policy: a manual fee, an estimate reported without submitting, or an
//! estimate raised by half as a safety buffer.

use vstd::prelude::*;
use crate::felt::Felt;
use crate::text::left_pad;

verus! {

/// Smallest units in one whole fee token, which has 18 decimals.
pub open spec fn units_per_token() -> nat {
    1000000000000000000
}

/// Decimal digit for `d < 10`.
pub open spec fn dec_digit(d: nat) -> char {
    ('0' as nat + d) as char
}

/// Decimal digits of `n`, without leading zeros ("0" for zero).
pub open spec fn dec_digits(n: nat) -> Seq<char>
    decreases n,
{
    if n < 10 {
        seq![dec_digit(n)]
    } else {
        dec_digits(n / 10).push(dec_digit(n % 10))
    }
}

/// Decimal rendering of `fee` smallest units as an amount of the fee token: the whole
/// tokens, a point, and the remainder as exactly 18 digits.
pub open spec fn ether_text(fee: nat) -> Seq<char> {
    dec_digits(fee / units_per_token()) + seq!['.'] + left_pad(
        dec_digits(fee % units_per_token()),
        18,
    )
}

/// How the fee of the deployment is chosen.
#[derive(Debug, Clone, Copy, PartialEq, Eq)]
pub enum FeeSetting {
    /// This fee, as given; no estimate is made.
    Manual(Felt),
    /// Estimate the fee, report it, and submit nothing.
    EstimateOnly,
    /// Estimate the fee and pay up to one and a half times the estimate.
    Automatic,
}

/// What the fee policy decides once it has what it needs.
#[derive(Debug, Clone, Copy, PartialEq, Eq)]
pub enum FeeOutcome {
    /// Submit with this maximal fee.
    Resolved(Felt),
    /// Report this estimate and stop without submitting.
    ReportAndStop(u64),
}

/// The estimate with the safety buffer: `estimate * 3 / 2`, rounded down.
pub open spec fn buffered(estimate: nat) -> nat {
    estimate * 3 / 2
}

impl FeeSetting {
    pub open spec fn wf(self) -> bool {
        match self {
            FeeSetting::Manual(f) => f.wf(),
            _ => true,
        }
    }

    /// Whether the policy needs an estimate from the network: every policy but a manual fee.
    pub fn needs_estimate(&self) -> (r: bool)
        ensures
            r == !(*self is Manual),
    {
        match self {
            FeeSetting::Manual(_) => false,
            _ => true,
        }
    }

    /// Whether the run only reports the estimate.
    pub fn is_estimate_only(&self) -> (r: bool)
        ensures
            r == (*self is EstimateOnly),
    {
        match self {
            FeeSetting::EstimateOnly => true,
            _ => false,
        }
    }
}

/// The estimate plus half of it, in integer arithmetic.
pub fn fee_with_buffer(estimate: u64) -> (r: u128)
    ensures
        r == buffered(estimate as nat),
{
    estimate as u128 * 3 / 2
}

/// Resolves the fee from the policy and the network's estimate. A manual fee is
/// returned as given, whatever the estimate.
pub fn resolve_fee(setting: &FeeSetting, estimate: u64) -> (r: FeeOutcome)
    requires
        setting.wf(),
    ensures
        match *setting {
            FeeSetting::Manual(f) => r == FeeOutcome::Resolved(f),
            FeeSetting::EstimateOnly => r == FeeOutcome::ReportAndStop(estimate),
            FeeSetting::Automatic => r matches FeeOutcome::Resolved(f) && f.value() == buffered(
                estimate as nat,
            ) && f.wf(),
        },
{
    match setting {
        FeeSetting::Manual(f) => FeeOutcome::Resolved(*f),
        FeeSetting::EstimateOnly => FeeOutcome::ReportAndStop(estimate),
        FeeSetting::Automatic => FeeOutcome::Resolved(Felt::from_u128(fee_with_buffer(estimate))),
    }
}

/// The estimate as a decimal amount of the fee token.
pub fn fee_in_ether(fee: u64) -> (r: String)
    ensures
        r@ == ether_text(fee as nat),
{
    big_decimal_text(fee)
}

/// Relies on `FieldElement::to_big_decimal` with 18 decimals and the `Display` of the
/// resulting `BigDecimal`: the digits of the amount split 18 places from the right,
/// with "0." and leading zeros when the amount has no whole part.
#[verifier::external_body]
fn big_decimal_text(fee: u64) -> (r: String)
    ensures
        r@ == ether_text(fee as nat),
{
    starknet::core::types::FieldElement::from(fee).to_big_decimal(18).to_string()
}

} // verus!
