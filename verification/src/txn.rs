use vstd::prelude::*;
use crate::address::Address;
use crate::payload::Payload;

verus! {

/// Fee-unit budget attached to every transaction the harness composes.
pub const MAX_GAS_AMOUNT: u64 = 2_000_000;

/// Fixed price per fee unit attached to every transaction.
pub const GAS_UNIT_PRICE: u64 = 100;

/// Seconds added to the submitter's wall clock to form the expiry timestamp.
pub const TXN_EXPIRY_WINDOW_SECS: u64 = 300;

/// Engine status code for an aborted execution. A package that fails to build
/// is reported as a kept transaction carrying this code, so that a bad package
/// and an on-chain abort look alike to the caller.
pub const ABORTED_STATUS_CODE: u64 = 4016;

/// How the engine classified a submitted transaction: executed successfully,
/// kept on chain but failed with a status code, or discarded outright.
#[derive(Clone, Copy, PartialEq, Eq, Structural, Debug)]
pub enum TransactionStatus {
    Success,
    KeptWithError(u64),
    Discarded(u64),
}

/// A fully composed transaction: payload, ordering counter, fee policy,
/// expiry and chain identifier. The caller signs it with the sender's key
/// material and hands it to the execution engine; composing it is the only
/// step that touches the Sequence Ledger.
pub struct TxnRequest {
    pub sender: Address,
    pub sequence_number: u64,
    pub payload: Payload,
    pub max_gas_amount: u64,
    pub gas_unit_price: u64,
    pub expiration_timestamp_secs: u64,
    pub chain_id: u8,
}

/// What the publish path decided: a synthetic failure outcome for a package
/// that did not build (the Sequence Ledger untouched), or a composed
/// transaction for the caller to sign and execute.
pub enum PublishStep {
    Failed(TransactionStatus),
    Submit(TxnRequest),
}

} // verus!
