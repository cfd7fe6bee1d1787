use scilla::chunk::{chunk_program, CHUNK_SIZE};
use scilla::delivery::{BulkDelivery, ChunkStatus, MAX_RESUBMISSIONS};

use scilla::keys::Bytes32;
use scilla::ops::{buffer_account_size, plan_buffer_writes, plan_create_buffer, plan_deploy_finalize, programdata_account_size};

fn key(seed: u64) -> Bytes32 {
    Bytes32 {
        w0: seed,
        w1: 0,
        w2: 0,
        w3: 0,
    }
}

#[test]
fn two_thousand_bytes_split_at_nine_hundred() {
    let program: Vec<u8> = (0..2000u32).map(|i| (i % 251) as u8).collect();
    let chunks = chunk_program(&program, 900);
    assert_eq!(chunks.len(), 3);
    assert_eq!(chunks[0].offset, 0);
    assert_eq!(chunks[1].offset, 900);
    assert_eq!(chunks[2].offset, 1800);
    assert_eq!(chunks[0].data.len(), 900);
    assert_eq!(chunks[1].data.len(), 900);
    assert_eq!(chunks[2].data.len(), 200);
    assert_eq!(chunks[0].data[..], program[0..900]);
    assert_eq!(chunks[1].data[..], program[900..1800]);
    assert_eq!(chunks[2].data[..], program[1800..2000]);
}

#[test]
fn chunking_edge_cases() {
    assert_eq!(chunk_program(&Vec::new(), CHUNK_SIZE).len(), 0);
    // An exact multiple produces no short tail.
    let exact = vec![7u8; 1800];
    let chunks = chunk_program(&exact, 900);
    assert_eq!(chunks.len(), 2);
    assert_eq!(chunks[1].data.len(), 900);
    // A binary smaller than one chunk is a single chunk.
    let small = vec![7u8; 10];
    let chunks = chunk_program(&small, 900);
    assert_eq!(chunks.len(), 1);
    assert_eq!(chunks[0].offset, 0);
    assert_eq!(chunks[0].data.len(), 10);
}

#[test]
fn bulk_delivery_expiry_then_confirmation_succeeds() {
    // Spec scenario: of N chunks, chunk k expires once, is resubmitted once,
    // and confirms; the batch still succeeds.
    let n = 4;
    let k = 2;
    let mut delivery = BulkDelivery::new(n);
    assert_eq!(delivery.chunk_count(), n);
    for i in 0..n {
        if i == k {
            let resubmit = delivery.record_expired(i);
            assert!(resubmit);
        }
        delivery.record_confirmed(i);
    }
    assert!(delivery.is_complete());
    assert_eq!(delivery.failure_count(), 0);
    assert_eq!(delivery.batch_result(), Ok(()));
}

#[test]
fn bulk_delivery_six_expiries_one_failure() {
    // Spec scenario: a chunk that expires six times exceeds the bound of five
    // resubmissions and becomes the batch's single failure.
    let n = 3;
    let k = 1;
    let mut delivery = BulkDelivery::new(n);
    for i in 0..n {
        if i != k {
            delivery.record_confirmed(i);
        }
    }
    for attempt in 0..6u64 {
        let resubmit = delivery.record_expired(k);
        assert_eq!(resubmit, attempt < MAX_RESUBMISSIONS);
    }
    assert_eq!(delivery.status(k), ChunkStatus::Failed);
    assert!(delivery.is_complete());
    assert_eq!(delivery.failure_count(), 1);
    assert_eq!(delivery.batch_result(), Err(1));
}

#[test]
fn bulk_delivery_ledger_rejection_fails_batch() {
    let mut delivery = BulkDelivery::new(2);
    delivery.record_confirmed(0);
    delivery.record_failed(1);
    assert!(delivery.is_complete());
    assert_eq!(delivery.batch_result(), Err(1));
}

#[test]
fn bulk_delivery_incomplete_batch_reports_pending() {
    let mut delivery = BulkDelivery::new(2);
    delivery.record_confirmed(0);
    assert!(!delivery.is_complete());
    assert_eq!(
        delivery.status(1),
        ChunkStatus::Pending { resubmissions: 0 }
    );
}

#[test]
fn loader_account_sizes_match_the_sdk() {
    assert_eq!(buffer_account_size(0), 37);
    assert_eq!(buffer_account_size(2000), 2037);
    assert_eq!(programdata_account_size(0), 45);
    assert_eq!(programdata_account_size(2000), 2045);
    assert_eq!(
        buffer_account_size(123),
        solana_loader_v3_interface::state::UpgradeableLoaderState::size_of_buffer(123)
    );
    assert_eq!(
        programdata_account_size(123),
        solana_loader_v3_interface::state::UpgradeableLoaderState::size_of_programdata(123)
    );
}

#[test]
fn write_plan_builds_one_message_per_chunk() {
    let program: Vec<u8> = vec![9u8; 2000];
    let plan = plan_buffer_writes(&program, 900, &key(1), &key(2), &key(3), &key(4));
    assert_eq!(plan.chunks.len(), 3);
    assert_eq!(plan.messages.len(), 3);
    assert_eq!(plan.chunks[2].offset, 1800);

    // Each message wraps exactly one loader write instruction carrying the
    // chunk's offset and bytes, paid for by the fee payer.
    let payer = solana_pubkey::Pubkey::try_from(key(3).to_byte_vec().as_slice()).unwrap();
    let loader_id = solana_sdk_ids::bpf_loader_upgradeable::id();
    for (i, message) in plan.messages.iter().enumerate() {
        assert_eq!(message.instructions.len(), 1);
        assert_eq!(message.account_keys[0], payer);
        let compiled = &message.instructions[0];
        assert_eq!(
            message.account_keys[compiled.program_id_index as usize],
            loader_id
        );
        let parsed: solana_loader_v3_interface::instruction::UpgradeableLoaderInstruction =
            bincode::deserialize(&compiled.data).unwrap();
        match parsed {
            solana_loader_v3_interface::instruction::UpgradeableLoaderInstruction::Write {
                offset,
                bytes,
            } => {
                assert_eq!(offset as usize, i * 900);
                assert_eq!(bytes[..], plan.chunks[i].data[..]);
            }
            _ => panic!("expected a write instruction"),
        }
    }
}

#[test]
fn buffer_and_finalize_plans_have_two_instructions() {
    let create = plan_create_buffer(&key(1), &key(2), &key(3), 1_000_000, 2000);
    assert_eq!(create.len(), 2);
    let finalize = plan_deploy_finalize(&key(1), &key(5), &key(2), &key(3), 2_000_000, 2000);
    assert_eq!(finalize.len(), 2);
    // The funding instruction of the buffer plan is the system program's
    // create-account: tag 0, then lamports, space, and the owner program id,
    // all little-endian at fixed offsets. It allocates the buffer's full
    // metadata-plus-program space for the upgradeable loader.
    let data = &create[0].data;
    assert_eq!(data[0..4], [0, 0, 0, 0]);
    assert_eq!(u64::from_le_bytes(data[4..12].try_into().unwrap()), 1_000_000);
    assert_eq!(
        u64::from_le_bytes(data[12..20].try_into().unwrap()) as usize,
        buffer_account_size(2000)
    );
    assert_eq!(
        data[20..52],
        solana_sdk_ids::bpf_loader_upgradeable::id().to_bytes()
    );
}
