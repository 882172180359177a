use aptosbb::address::Address;
use aptosbb::harness::AptosBB;
use aptosbb::ledger::SequenceLedger;
use aptosbb::payload::{BuiltPackageArtifacts, Payload};
use aptosbb::txn::{PublishStep, TransactionStatus, TxnRequest};
use move_core_types::language_storage::TypeTag;

fn fresh_harness() -> AptosBB {
    AptosBB::from_metadata(1_000_000, 1, 1_700_000_000_123_456)
}

fn dummy_publish_payload() -> Payload {
    Payload::ModulePublish { metadata_bytes: vec![1, 2, 3], module_code: vec![vec![0xA1], vec![0xB2]] }
}

#[test]
fn sequence_ledger_defaults_updates_and_increments() {
    let mut ledger = SequenceLedger::new();
    let a = Address::new(0, 1);
    let b = Address::new(0, 2);
    assert_eq!(ledger.get_counter(&a), 0);
    ledger.set_counter(a, 5);
    assert_eq!(ledger.get_counter(&a), 5);
    assert_eq!(ledger.get_counter(&b), 0);
    assert_eq!(ledger.next_counter(&a), 5);
    assert_eq!(ledger.get_counter(&a), 6);
    assert_eq!(ledger.next_counter(&b), 0);
    assert_eq!(ledger.get_counter(&b), 1);
}

#[test]
fn from_metadata_pins_snapshot_and_clock() {
    let h = fresh_harness();
    assert_eq!(h.snapshot.version, 1_000_000);
    assert_eq!(h.snapshot.chain_id, 1);
    assert_eq!(h.snapshot.timestamp_usecs, 1_700_000_000_123_456);
    assert_eq!(h.clock_secs, 1_700_000_000);
}

#[test]
fn advance_clock_moves_only_the_clock() {
    let mut h = fresh_harness();
    h.advance_clock(1_700_000_500);
    assert_eq!(h.clock_secs, 1_700_000_500);
    assert_eq!(h.snapshot.version, 1_000_000);
}

#[test]
fn counter_counts_submissions_per_address() {
    let mut h = fresh_harness();
    let a = Address::new(0, 7);
    let b = Address::new(0, 8);
    h.new_account(&a);
    h.new_account(&b);
    let now = 2_000_000_000u64;
    for expected in 0..3u64 {
        let req = h.prepare_transaction(&a, dummy_publish_payload(), now);
        assert_eq!(req.sequence_number, expected);
    }
    let req_b = h.prepare_transaction(&b, dummy_publish_payload(), now);
    assert_eq!(req_b.sequence_number, 0);
    let req_a = h.prepare_transaction(&a, dummy_publish_payload(), now);
    assert_eq!(req_a.sequence_number, 3);
}

#[test]
fn prepare_transaction_attaches_fixed_policy() {
    let mut h = fresh_harness();
    let a = Address::new(0, 9);
    h.new_account(&a);
    let now = 2_000_000_000u64;
    let req: TxnRequest = h.prepare_transaction(&a, dummy_publish_payload(), now);
    assert_eq!(req.sender, a);
    assert_eq!(req.sequence_number, 0);
    assert_eq!(req.max_gas_amount, 2_000_000);
    assert_eq!(req.gas_unit_price, 100);
    assert_eq!(req.expiration_timestamp_secs, now + 300);
    assert_eq!(req.chain_id, 1);
}

#[test]
fn unseen_address_defaults_to_counter_zero() {
    let mut h = fresh_harness();
    let stranger = Address::new(5, 5);
    let req = h.prepare_transaction(&stranger, dummy_publish_payload(), 2_000_000_000);
    assert_eq!(req.sequence_number, 0);
}

#[test]
fn new_account_reseeds_counter_at_zero() {
    let mut h = fresh_harness();
    let a = Address::new(1, 1);
    h.new_account(&a);
    h.prepare_transaction(&a, dummy_publish_payload(), 2_000_000_000);
    h.prepare_transaction(&a, dummy_publish_payload(), 2_000_000_000);
    h.new_account(&a);
    let req = h.prepare_transaction(&a, dummy_publish_payload(), 2_000_000_000);
    assert_eq!(req.sequence_number, 0);
}

#[test]
fn unverified_account_at_leaves_ledger_alone() {
    let mut h = fresh_harness();
    let a = Address::new(2, 2);
    h.new_account(&a);
    h.prepare_transaction(&a, dummy_publish_payload(), 2_000_000_000);
    h.new_account_at(&a, false);
    let req = h.prepare_transaction(&a, dummy_publish_payload(), 2_000_000_000);
    assert_eq!(req.sequence_number, 1);
}

#[test]
fn verified_account_at_seeds_counter() {
    let mut h = fresh_harness();
    let a = Address::new(2, 3);
    h.new_account_at(&a, true);
    let req = h.prepare_transaction(&a, dummy_publish_payload(), 2_000_000_000);
    assert_eq!(req.sequence_number, 0);
}

#[test]
fn publish_build_failure_yields_synthetic_kept_error() {
    let mut h = fresh_harness();
    let a = Address::new(3, 3);
    h.new_account(&a);
    let step = h.publish_package(&a, None, 2_000_000_000);
    match step {
        PublishStep::Failed(status) => {
            assert_eq!(status, TransactionStatus::KeptWithError(4016));
        }
        PublishStep::Submit(_) => panic!("a failed build must not reach submission"),
    }
    let req = h.prepare_transaction(&a, dummy_publish_payload(), 2_000_000_000);
    assert_eq!(req.sequence_number, 0, "a failed build must not consume a counter");
}

#[test]
fn publish_built_package_composes_publish_transaction() {
    let mut h = fresh_harness();
    let a = Address::new(3, 4);
    h.new_account(&a);
    let artifacts = BuiltPackageArtifacts {
        metadata_bytes: vec![9, 9],
        module_code: vec![vec![1], vec![2, 3]],
    };
    let step = h.publish_package(&a, Some(artifacts), 2_000_000_000);
    match step {
        PublishStep::Submit(req) => {
            assert_eq!(req.sequence_number, 0);
            match req.payload {
                Payload::ModulePublish { metadata_bytes, module_code } => {
                    assert_eq!(metadata_bytes, vec![9, 9]);
                    assert_eq!(module_code, vec![vec![1], vec![2, 3]]);
                }
                _ => panic!("publish must carry a module-publish payload"),
            }
        }
        PublishStep::Failed(_) => panic!("built artifacts must reach submission"),
    }
    let req = h.prepare_transaction(&a, dummy_publish_payload(), 2_000_000_000);
    assert_eq!(req.sequence_number, 1, "a submitted publish consumes one counter");
}

#[test]
fn entry_function_call_carries_reference_and_arguments() {
    let mut h = fresh_harness();
    let a = Address::new(4, 4);
    let target = Address::new(0, 1);
    h.new_account(&a);
    let amount_arg = bcs::to_bytes(&1000u64).unwrap();
    let req = h.run_entry_function(
        &a,
        target,
        String::from("aptos_account"),
        String::from("transfer"),
        vec![TypeTag::U64],
        vec![amount_arg.clone()],
        2_000_000_000,
    );
    assert_eq!(req.sender, a);
    assert_eq!(req.sequence_number, 0);
    match req.payload {
        Payload::EntryFunctionCall { module_address, module_name, function_name, ty_args, args } => {
            assert_eq!(module_address, target);
            assert_eq!(module_name, "aptos_account");
            assert_eq!(function_name, "transfer");
            assert_eq!(ty_args, vec![TypeTag::U64]);
            assert_eq!(args, vec![amount_arg]);
        }
        _ => panic!("entry-function path must carry a call payload"),
    }
}

#[test]
fn submission_increments_counter_whatever_the_payload_names() {
    let mut h = fresh_harness();
    let a = Address::new(6, 6);
    h.new_account(&a);
    let req = h.run_entry_function(
        &a,
        Address::new(0xFFFF, 0xFFFF),
        String::from("no_such_module"),
        String::from("no_such_function"),
        vec![],
        vec![],
        2_000_000_000,
    );
    assert_eq!(req.sequence_number, 0);
    let next = h.prepare_transaction(&a, dummy_publish_payload(), 2_000_000_000);
    assert_eq!(next.sequence_number, 1, "exactly one counter is consumed per submission");
}
