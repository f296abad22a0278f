use solana_sdk::compute_budget::ComputeBudgetInstruction;
use solana_sdk::message::{v0, VersionedMessage};
use solana_sdk::signature::Keypair;
use solana_sdk::signer::Signer;
use thread_packer::address::{commission_pubkey, pool_pubkey, worker_pubkey};
use thread_packer::budget::{compute_budget_id, compute_unit_limit, set_budget};
use thread_packer::finalizer::finalize;
use thread_packer::instruction::{AccountMeta, Instruction};
use thread_packer::keys::{Blockhash, Pubkey, SecretKey};
use thread_packer::error::PackError;
use thread_packer::message::{assemble, has_sole_signer, message_bytes, sign, signer_pubkey};
use thread_packer::pool::Pool;

type OutsideKey = solana_program::pubkey::Pubkey;

fn key(tag: u8) -> Pubkey {
    Pubkey { bytes: [tag; 32] }
}

fn outside(ix: &Instruction) -> solana_sdk::instruction::Instruction {
    solana_sdk::instruction::Instruction {
        program_id: OutsideKey::from(ix.program_id.bytes),
        accounts: ix
            .accounts
            .iter()
            .map(|meta| solana_sdk::instruction::AccountMeta {
                pubkey: OutsideKey::from(meta.pubkey.bytes),
                is_signer: meta.is_signer,
                is_writable: meta.is_writable,
            })
            .collect(),
        data: ix.data.clone(),
    }
}

fn sample() -> Vec<Instruction> {
    sample_for(key(3))
}

fn sample_for(payer: Pubkey) -> Vec<Instruction> {
    vec![
        Instruction { program_id: key(1), accounts: vec![], data: vec![9, 9] },
        Instruction {
            program_id: key(2),
            accounts: vec![
                AccountMeta::new(payer, true),
                AccountMeta::new(key(4), false),
                AccountMeta::new_readonly(key(5), false),
            ],
            data: vec![1, 2, 3, 4, 5, 6, 7, 8],
        },
    ]
}

#[test]
fn pool_address_is_the_derived_one() {
    let program = OutsideKey::from([2u8; 32]);
    for id in [0u64, 1, 258, u64::MAX] {
        let (want, _) = OutsideKey::find_program_address(&[b"pool", &id.to_be_bytes()], &program);
        assert_eq!(pool_pubkey(&key(2), id), Some(Pubkey { bytes: want.to_bytes() }));
        assert_eq!(Pool::pubkey(&key(2), id), Some(Pubkey { bytes: want.to_bytes() }));
    }
}

#[test]
fn worker_address_is_the_derived_one() {
    let program = OutsideKey::from([2u8; 32]);
    for id in [0u64, 5, 1 << 40] {
        let (want, _) =
            OutsideKey::find_program_address(&[b"worker", &id.to_be_bytes()], &program);
        assert_eq!(worker_pubkey(&key(2), id), Some(Pubkey { bytes: want.to_bytes() }));
    }
}

#[test]
fn commission_address_is_the_derived_one() {
    let program = OutsideKey::from([2u8; 32]);
    let worker = OutsideKey::from([8u8; 32]);
    let (want, _) =
        OutsideKey::find_program_address(&[b"worker_commission", worker.as_ref()], &program);
    assert_eq!(commission_pubkey(&key(2), &key(8)), Some(Pubkey { bytes: want.to_bytes() }));
    assert_ne!(commission_pubkey(&key(2), &key(8)), Some(key(8)));
    assert_ne!(commission_pubkey(&key(2), &key(8)), commission_pubkey(&key(2), &key(9)));
}

#[test]
fn derived_addresses_depend_on_the_program() {
    assert_ne!(pool_pubkey(&key(2), 0), pool_pubkey(&key(3), 0));
    assert_ne!(pool_pubkey(&key(2), 0), worker_pubkey(&key(2), 0));
}

#[test]
fn budget_instruction_is_the_outside_one() {
    let mut list = sample();
    set_budget(&mut list, Some(50_000));
    let want = ComputeBudgetInstruction::set_compute_unit_limit(51_000);
    assert_eq!(outside(&list[0]), want);
    assert_eq!(list[0].program_id, compute_budget_id());
    assert_eq!(list[0].data, vec![2, 0x38, 0xc7, 0, 0]);
    assert!(list[0].accounts.is_empty());
    assert_eq!(compute_unit_limit(&list[0]), Some(51_000));
    assert_eq!(list[1], sample()[1]);
}

#[test]
fn compute_budget_program_has_its_address() {
    assert_eq!(
        OutsideKey::from(compute_budget_id().bytes).to_string(),
        "ComputeBudget111111111111111111111111111111"
    );
}

#[test]
fn message_is_the_compiled_one() {
    let payer = key(3);
    let list = sample();
    let bytes = message_bytes(&payer, &list, &Blockhash { bytes: [9; 32] }).unwrap();
    let outside_list: Vec<solana_sdk::instruction::Instruction> = list.iter().map(outside).collect();
    let message = v0::Message::try_compile(
        &OutsideKey::from(payer.bytes),
        &outside_list,
        &[],
        solana_sdk::hash::Hash::from([9u8; 32]),
    )
    .unwrap();
    assert_eq!(bytes, VersionedMessage::V0(message.clone()).serialize());
    let back: VersionedMessage = bincode::deserialize(&bytes).unwrap();
    assert_eq!(back, VersionedMessage::V0(message));
    assert_eq!(back.header().num_required_signatures, 1);
    assert_eq!(back.instructions().len(), 2);
}

#[test]
fn message_depends_on_payer_and_blockhash() {
    let list = sample();
    let a = message_bytes(&key(3), &list, &Blockhash { bytes: [9; 32] }).unwrap();
    let b = message_bytes(&key(7), &list, &Blockhash { bytes: [9; 32] }).unwrap();
    let c = message_bytes(&key(3), &list, &Blockhash { bytes: [8; 32] }).unwrap();
    assert_ne!(a, b);
    assert_ne!(a, c);
    assert_eq!(a.len(), c.len());
}

#[test]
fn signer_address_is_the_key_pairs() {
    let secret = SecretKey { bytes: [7; 32] };
    let pair = Keypair::new_from_array([7; 32]);
    assert_eq!(signer_pubkey(&secret).bytes, pair.pubkey().to_bytes());
    assert_ne!(signer_pubkey(&secret).bytes, secret.bytes);
}

#[test]
fn signature_verifies_under_the_signer() {
    let secret = SecretKey { bytes: [7; 32] };
    let pair = Keypair::new_from_array([7; 32]);
    let message = vec![1u8, 2, 3, 4];
    let tx = sign(&secret, message.clone(), sample());
    assert_eq!(tx.signatures.len(), 1);
    assert_eq!(tx.message, message);
    assert_eq!(tx.instructions, sample());
    let signature = solana_sdk::signature::Signature::from(tx.signatures[0].bytes);
    assert_eq!(signature, pair.sign_message(&message));
    assert!(signature.verify(pair.pubkey().as_ref(), &message));
    assert!(!signature.verify(pair.pubkey().as_ref(), &[1u8, 2, 3]));
}

#[test]
fn finalized_transaction_is_a_signed_versioned_message() {
    let secret = SecretKey { bytes: [7; 32] };
    let pair = Keypair::new_from_array([7; 32]);
    let mut list = sample_for(signer_pubkey(&secret));
    list[0] = Instruction { program_id: compute_budget_id(), accounts: vec![], data: vec![2, 0, 0, 0, 0] };
    let tx = finalize(&secret, &Blockhash { bytes: [9; 32] }, list, Some(70_000)).unwrap();
    assert_eq!(compute_unit_limit(&tx.instructions[0]), Some(71_000));
    let message: VersionedMessage = bincode::deserialize(&tx.message).unwrap();
    assert_eq!(message.header().num_required_signatures, 1);
    assert_eq!(message.static_account_keys()[0], pair.pubkey());
    assert_eq!(*message.recent_blockhash(), solana_sdk::hash::Hash::from([9u8; 32]));
    assert!(message.address_table_lookups().unwrap().is_empty());
    let signature = solana_sdk::signature::Signature::from(tx.signatures[0].bytes);
    assert!(signature.verify(pair.pubkey().as_ref(), &tx.message));
    let outside_tx = solana_sdk::transaction::VersionedTransaction::try_new(message, &[&pair]).unwrap();
    assert_eq!(outside_tx.signatures, vec![signature]);
}

#[test]
fn finalizing_twice_gives_the_same_bytes() {
    let secret = SecretKey { bytes: [7; 32] };
    let list = sample_for(signer_pubkey(&secret));
    let first = finalize(&secret, &Blockhash { bytes: [9; 32] }, list.clone(), Some(70_000)).unwrap();
    let again = finalize(&secret, &Blockhash { bytes: [9; 32] }, list.clone(), Some(70_000)).unwrap();
    assert_eq!(first, again);
    let refit =
        finalize(&secret, &Blockhash { bytes: [9; 32] }, first.instructions.clone(), Some(70_000))
            .unwrap();
    assert_eq!(first, refit);
    let other = finalize(&secret, &Blockhash { bytes: [8; 32] }, list, Some(70_000)).unwrap();
    assert_eq!(first.instructions, other.instructions);
    assert_ne!(first.signatures, other.signatures);
}

#[test]
fn finalize_without_measurement_keeps_the_list() {
    let secret = SecretKey { bytes: [7; 32] };
    let list = sample_for(signer_pubkey(&secret));
    let tx = finalize(&secret, &Blockhash { bytes: [9; 32] }, list.clone(), None).unwrap();
    assert_eq!(tx.instructions, list);
}

#[test]
fn another_signer_is_an_assembly_failure() {
    let secret = SecretKey { bytes: [7; 32] };
    let pair = Keypair::new_from_array([7; 32]);
    let list = sample_for(key(3));
    assert!(!has_sole_signer(&list, &signer_pubkey(&secret)));
    assert!(has_sole_signer(&list, &key(3)));
    assert!(has_sole_signer(&sample_for(signer_pubkey(&secret)), &signer_pubkey(&secret)));
    let result = assemble(&secret, &Blockhash { bytes: [9; 32] }, list.clone());
    assert_eq!(result, Err(PackError::Assembly));
    let result = finalize(&secret, &Blockhash { bytes: [9; 32] }, list.clone(), Some(1));
    assert_eq!(result, Err(PackError::Assembly));
    let outside_list: Vec<solana_sdk::instruction::Instruction> = list.iter().map(outside).collect();
    let message = v0::Message::try_compile(
        &pair.pubkey(),
        &outside_list,
        &[],
        solana_sdk::hash::Hash::from([9u8; 32]),
    )
    .unwrap();
    let outside_tx =
        solana_sdk::transaction::VersionedTransaction::try_new(VersionedMessage::V0(message), &[&pair]);
    assert!(outside_tx.is_err());
}

#[test]
fn assembled_transaction_is_the_outside_one() {
    let secret = SecretKey { bytes: [7; 32] };
    let pair = Keypair::new_from_array([7; 32]);
    let list = sample_for(signer_pubkey(&secret));
    let tx = assemble(&secret, &Blockhash { bytes: [9; 32] }, list.clone()).unwrap();
    let outside_list: Vec<solana_sdk::instruction::Instruction> = list.iter().map(outside).collect();
    let message = v0::Message::try_compile(
        &pair.pubkey(),
        &outside_list,
        &[],
        solana_sdk::hash::Hash::from([9u8; 32]),
    )
    .unwrap();
    let outside_tx =
        solana_sdk::transaction::VersionedTransaction::try_new(VersionedMessage::V0(message), &[&pair])
            .unwrap();
    assert_eq!(tx.message, outside_tx.message.serialize());
    assert_eq!(tx.signatures.len(), 1);
    assert_eq!(solana_sdk::signature::Signature::from(tx.signatures[0].bytes), outside_tx.signatures[0]);
    assert_eq!(tx.instructions, list);
}
