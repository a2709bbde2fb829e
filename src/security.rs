use vstd::prelude::*;
use crate::error::BankError;
use crate::pubkey::{Pubkey, PUBKEY_BYTES};

verus! {

/// Reason code of an address that passed screening.
pub const REASON_SAFE: u8 = 0;

/// Reason code of an address whose bytes all repeat one nonzero value.
pub const REASON_SUSPICIOUS_PATTERN: u8 = 2;

/// Reason code of the all-zero (burn) address.
pub const REASON_BLACKLISTED: u8 = 3;

/// A risk score above this blocks the transfer.
pub const MAX_ACCEPTED_RISK: u8 = 80;

/// What the destination screener says of one address.
#[derive(Clone, Copy, Debug, PartialEq, Eq, Structural)]
pub struct ValidationResult {
    pub is_safe: bool,
    /// From 0 to 100; higher is riskier.
    pub risk_score: u8,
    pub reason_code: u8,
}

/// Every byte of `s` equals `b`.
pub open spec fn all_bytes_are(s: Seq<u8>, b: u8) -> bool {
    forall|i: int| 0 <= i < s.len() ==> s[i] == b
}

/// The screener's verdict on an address, given by its bytes.
pub open spec fn classify(addr: Seq<u8>) -> ValidationResult {
    if all_bytes_are(addr, 0) {
        ValidationResult { is_safe: false, risk_score: 100, reason_code: REASON_BLACKLISTED }
    } else if all_bytes_are(addr, addr[0]) {
        ValidationResult {
            is_safe: false,
            risk_score: 95,
            reason_code: REASON_SUSPICIOUS_PATTERN,
        }
    } else {
        ValidationResult { is_safe: true, risk_score: 0, reason_code: REASON_SAFE }
    }
}

/// A verdict that stops the transfer.
pub open spec fn blocks(v: ValidationResult) -> bool {
    !v.is_safe || v.risk_score > MAX_ACCEPTED_RISK
}

/// The screener's verdict stops a transfer to `addr`.
pub open spec fn destination_blocked(addr: Seq<u8>) -> bool {
    blocks(classify(addr))
}

/// Whether every byte of the address equals `b`.
fn bytes_all_equal(key: &Pubkey, b: u8) -> (r: bool)
    ensures
        r == all_bytes_are(key@, b),
{
    let mut i: usize = 0;
    while i < PUBKEY_BYTES
        invariant
            i <= PUBKEY_BYTES,
            key@.len() == PUBKEY_BYTES,
            forall|j: int| 0 <= j < i ==> key@[j] == b,
        decreases PUBKEY_BYTES - i,
    {
        if key.bytes[i] != b {
            return false;
        }
        i = i + 1;
    }
    true
}

/// Screens a destination address by its bytes: the all-zero address is
/// blacklisted, an address of one repeated byte is suspicious, any other
/// passes.
pub fn validate_destination(destination: &Pubkey) -> (r: Result<ValidationResult, BankError>)
    ensures
        r == Ok::<ValidationResult, BankError>(classify(destination@)),
{
    if bytes_all_equal(destination, 0) {
        return Ok(
            ValidationResult { is_safe: false, risk_score: 100, reason_code: REASON_BLACKLISTED },
        );
    }
    let first = destination.bytes[0];
    if bytes_all_equal(destination, first) {
        return Ok(
            ValidationResult {
                is_safe: false,
                risk_score: 95,
                reason_code: REASON_SUSPICIOUS_PATTERN,
            },
        );
    }
    Ok(ValidationResult { is_safe: true, risk_score: 0, reason_code: REASON_SAFE })
}

/// Whether a verdict stops the transfer: the address is unsafe or too risky.
pub fn should_block_transaction(result: &ValidationResult) -> (r: bool)
    ensures
        r == blocks(*result),
{
    !result.is_safe || result.risk_score > MAX_ACCEPTED_RISK
}

} // verus!
