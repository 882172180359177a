use vstd::prelude::*;
use crate::address::Address;
use crate::ident::is_valid_move_identifier;
use crate::ledger::{bump, counter_of, SequenceLedger};
use crate::payload::{BuiltPackageArtifacts, Payload};
use crate::txn::{
    PublishStep, TransactionStatus, TxnRequest, ABORTED_STATUS_CODE, GAS_UNIT_PRICE,
    MAX_GAS_AMOUNT, TXN_EXPIRY_WINDOW_SECS,
};
use move_core_types::language_storage::TypeTag;

verus! {

/// Ledger metadata pinned at harness construction: the snapshot version every
/// historical read resolves against, the chain identifier attached to each
/// transaction, and the ledger timestamp in microseconds. Immutable for the
/// life of the session; writes made during the session live in the engine's
/// overlay on top of it.
#[derive(Clone, Copy, PartialEq, Eq, Structural, Debug)]
pub struct PinnedSnapshot {
    pub version: u64,
    pub chain_id: u8,
    pub timestamp_usecs: u64,
}

/// One pentesting session: the pinned snapshot, the virtual clock the expiry
/// policy is measured against, and the session's own Sequence Ledger of
/// per-account ordering counters. The execution engine, signing, networking
/// and package building stay with the caller, who performs those effects and
/// hands their results in as plain values.
pub struct AptosBB {
    pub snapshot: PinnedSnapshot,
    pub clock_secs: u64,
    pub sequence_numbers: SequenceLedger,
}

impl AptosBB {
    /// The ordering counter the Sequence Ledger holds for `a`; 0 for an
    /// address never recorded.
    pub closed spec fn counter(&self, a: Address) -> u64 {
        counter_of(self.sequence_numbers@, a)
    }

    pub closed spec fn wf(&self) -> bool {
        self.sequence_numbers.wf()
    }

    /// Pins a fresh session to fetched ledger metadata. The virtual clock
    /// starts at the snapshot timestamp, truncated to whole seconds; every
    /// address's counter starts at 0.
    pub fn from_metadata(version: u64, chain_id: u8, timestamp_usecs: u64) -> (r: AptosBB)
        ensures
            r.wf(),
            r.snapshot == (PinnedSnapshot { version, chain_id, timestamp_usecs }),
            r.clock_secs == timestamp_usecs / 1_000_000,
            forall|a: Address| r.counter(a) == 0,
    {
        AptosBB {
            snapshot: PinnedSnapshot { version, chain_id, timestamp_usecs },
            clock_secs: timestamp_usecs / 1_000_000,
            sequence_numbers: SequenceLedger::new(),
        }
    }

    /// Sets the virtual clock that transaction expiry is checked against.
    /// Nothing else of the session moves.
    pub fn advance_clock(&mut self, to_secs: u64)
        requires
            old(self).wf(),
        ensures
            final(self).wf(),
            final(self).clock_secs == to_secs,
            final(self).snapshot == old(self).snapshot,
            forall|a: Address| final(self).counter(a) == old(self).counter(a),
    {
        self.clock_secs = to_secs;
    }

    /// Records a freshly created account: its counter is seeded at 0, and an
    /// earlier entry for the same address is reset. Every other address keeps
    /// its counter.
    pub fn new_account(&mut self, addr: &Address)
        requires
            old(self).wf(),
        ensures
            final(self).wf(),
            final(self).counter(*addr) == 0,
            forall|b: Address| b != *addr ==> final(self).counter(b) == old(self).counter(b),
            final(self).snapshot == old(self).snapshot,
            final(self).clock_secs == old(self).clock_secs,
    {
        self.sequence_numbers.set_counter(*addr, 0);
    }

    /// Records an account created at a caller-chosen address, but only when
    /// the follow-up read of its existence resource confirmed the creation;
    /// an unconfirmed creation is a non-fatal warning and leaves the Sequence
    /// Ledger exactly as it was.
    pub fn new_account_at(&mut self, addr: &Address, verified: bool)
        requires
            old(self).wf(),
        ensures
            final(self).wf(),
            verified ==> final(self).counter(*addr) == 0,
            verified ==> forall|b: Address|
                b != *addr ==> final(self).counter(b) == old(self).counter(b),
            !verified ==> forall|b: Address| final(self).counter(b) == old(self).counter(b),
            final(self).snapshot == old(self).snapshot,
            final(self).clock_secs == old(self).clock_secs,
    {
        if verified {
            self.sequence_numbers.set_counter(*addr, 0);
        }
    }

    /// Composes a transaction: the sender's next ordering counter (incremented
    /// on every call, whatever the engine later makes of the transaction), the
    /// fixed fee policy, an expiry of the caller's wall clock plus the fixed
    /// window, and the snapshot's chain identifier. The caller signs the
    /// request and hands it to the engine.
    pub fn prepare_transaction(&mut self, sender: &Address, payload: Payload, now_secs: u64) -> (r:
        TxnRequest)
        requires
            old(self).wf(),
            old(self).counter(*sender) < u64::MAX,
            now_secs <= u64::MAX - TXN_EXPIRY_WINDOW_SECS,
        ensures
            final(self).wf(),
            r.sender == *sender,
            r.sequence_number == old(self).counter(*sender),
            r.payload == payload,
            r.max_gas_amount == MAX_GAS_AMOUNT,
            r.gas_unit_price == GAS_UNIT_PRICE,
            r.expiration_timestamp_secs == now_secs + TXN_EXPIRY_WINDOW_SECS,
            r.chain_id == old(self).snapshot.chain_id,
            final(self).counter(*sender) == old(self).counter(*sender) + 1,
            forall|b: Address| b != *sender ==> final(self).counter(b) == old(self).counter(b),
            final(self).snapshot == old(self).snapshot,
            final(self).clock_secs == old(self).clock_secs,
            now_secs >= old(self).clock_secs ==> r.expiration_timestamp_secs
                > old(self).clock_secs,
    {
        let sequence_number = self.sequence_numbers.next_counter(sender);
        TxnRequest {
            sender: *sender,
            sequence_number,
            payload,
            max_gas_amount: MAX_GAS_AMOUNT,
            gas_unit_price: GAS_UNIT_PRICE,
            expiration_timestamp_secs: now_secs + TXN_EXPIRY_WINDOW_SECS,
            chain_id: self.snapshot.chain_id,
        }
    }

    /// Assembles the publish payload for built artifacts: the serialized
    /// package metadata beside the compiled bytes of every module.
    pub fn generate_module_payload(&self, artifacts: BuiltPackageArtifacts) -> (p: Payload)
        ensures
            p == (Payload::ModulePublish {
                metadata_bytes: artifacts.metadata_bytes,
                module_code: artifacts.module_code,
            }),
    {
        let BuiltPackageArtifacts { metadata_bytes, module_code } = artifacts;
        Payload::ModulePublish { metadata_bytes, module_code }
    }

    /// The publish path. A package that failed to build yields a synthetic
    /// kept-with-error outcome and leaves the Sequence Ledger untouched, so a
    /// bad package and an on-chain abort look alike to the caller; built
    /// artifacts yield a composed publish transaction to sign and execute.
    pub fn publish_package(
        &mut self,
        sender: &Address,
        built: Option<BuiltPackageArtifacts>,
        now_secs: u64,
    ) -> (r: PublishStep)
        requires
            old(self).wf(),
            old(self).counter(*sender) < u64::MAX,
            now_secs <= u64::MAX - TXN_EXPIRY_WINDOW_SECS,
        ensures
            final(self).wf(),
            final(self).snapshot == old(self).snapshot,
            final(self).clock_secs == old(self).clock_secs,
            built is None ==> r == PublishStep::Failed(
                TransactionStatus::KeptWithError(ABORTED_STATUS_CODE),
            ),
            built is None ==> forall|b: Address|
                final(self).counter(b) == old(self).counter(b),
            built matches Some(art) ==> (r matches PublishStep::Submit(req)
                && req.payload == (Payload::ModulePublish {
                metadata_bytes: art.metadata_bytes,
                module_code: art.module_code,
            })
                && req.sender == *sender
                && req.sequence_number == old(self).counter(*sender)
                && req.max_gas_amount == MAX_GAS_AMOUNT
                && req.gas_unit_price == GAS_UNIT_PRICE
                && req.expiration_timestamp_secs == now_secs + TXN_EXPIRY_WINDOW_SECS
                && req.chain_id == old(self).snapshot.chain_id
                && final(self).counter(*sender) == old(self).counter(*sender) + 1
                && (forall|b: Address|
                b != *sender ==> final(self).counter(b) == old(self).counter(b))),
    {
        match built {
            None => PublishStep::Failed(TransactionStatus::KeptWithError(ABORTED_STATUS_CODE)),
            Some(artifacts) => {
                let payload = self.generate_module_payload(artifacts);
                PublishStep::Submit(self.prepare_transaction(sender, payload, now_secs))
            },
        }
    }

    /// Composes an entry-function-call transaction for a fully qualified
    /// function reference. Malformed module or function names are a caller
    /// contract violation and are excluded up front.
    pub fn run_entry_function(
        &mut self,
        sender: &Address,
        module: Address,
        module_name: String,
        function: String,
        ty_args: Vec<TypeTag>,
        args: Vec<Vec<u8>>,
        now_secs: u64,
    ) -> (r: TxnRequest)
        requires
            old(self).wf(),
            is_valid_move_identifier(module_name@),
            is_valid_move_identifier(function@),
            old(self).counter(*sender) < u64::MAX,
            now_secs <= u64::MAX - TXN_EXPIRY_WINDOW_SECS,
        ensures
            final(self).wf(),
            r.payload == (Payload::EntryFunctionCall {
                module_address: module,
                module_name,
                function_name: function,
                ty_args,
                args,
            }),
            r.sender == *sender,
            r.sequence_number == old(self).counter(*sender),
            r.max_gas_amount == MAX_GAS_AMOUNT,
            r.gas_unit_price == GAS_UNIT_PRICE,
            r.expiration_timestamp_secs == now_secs + TXN_EXPIRY_WINDOW_SECS,
            r.chain_id == old(self).snapshot.chain_id,
            final(self).counter(*sender) == old(self).counter(*sender) + 1,
            forall|b: Address| b != *sender ==> final(self).counter(b) == old(self).counter(b),
            final(self).snapshot == old(self).snapshot,
            final(self).clock_secs == old(self).clock_secs,
    {
        let payload = Payload::EntryFunctionCall {
            module_address: module,
            module_name,
            function_name: function,
            ty_args,
            args,
        };
        self.prepare_transaction(sender, payload, now_secs)
    }
}

/// Law: composing one transaction performs exactly one `bump` of the
/// session's counters — the sender's counter grows by one and every other
/// stands, whatever the engine later reports for the transaction. Chained
/// with `counters_after` and `lemma_counter_counts_submissions`, a run of N
/// submissions from one address leaves its counter exactly N higher.
pub proof fn lemma_prepare_is_bump(pre: AptosBB, post: AptosBB, sender: Address)
    requires
        pre.counter(sender) < u64::MAX,
        post.counter(sender) == pre.counter(sender) + 1,
        forall|b: Address| b != sender ==> post.counter(b) == pre.counter(b),
    ensures
        forall|b: Address|
            #[trigger] post.counter(b) as int == bump(
                |x: Address| pre.counter(x) as int,
                sender,
            )(b),
{
    assert forall|b: Address|
        #[trigger] post.counter(b) as int == bump(
            |x: Address| pre.counter(x) as int,
            sender,
        )(b) by {}
}

} // verus!
