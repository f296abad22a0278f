use thread_packer::budget::{compute_unit_limit, TRANSACTION_COMPUTE_UNIT_LIMIT};
use thread_packer::error::PackError;
use thread_packer::factory::{build_exec_ix, build_kickoff_ix, Addresses, Deployment};
use thread_packer::instruction::{AccountMeta, Instruction};
use thread_packer::keys::{Blockhash, Pubkey, SecretKey};
use thread_packer::message::{message_bytes, signer_pubkey, TRANSACTION_MESSAGE_SIZE_LIMIT};
use thread_packer::packer::{Outcome, Packer, Progress, StopReason};
use thread_packer::script::pack_with_responses;
use thread_packer::simulation::{
    AccountEncoding, Commitment, SimulationRequest, SimulationResponse, SimulationResult,
    MIN_CONTEXT_SLOT_NOT_REACHED,
};
use thread_packer::thread::{ExecContext, Thread, Trigger};

fn key(tag: u8) -> Pubkey {
    Pubkey { bytes: [tag; 32] }
}

fn deployment() -> Deployment {
    Deployment { thread_program: key(1), network_program: key(2), payer_sentinel: key(3) }
}

fn payer() -> SecretKey {
    SecretKey { bytes: [7; 32] }
}

fn blockhash() -> Blockhash {
    Blockhash { bytes: [9; 32] }
}

fn thread_pubkey() -> Pubkey {
    key(4)
}

fn addresses() -> Addresses {
    Addresses::resolve(&deployment(), signer_pubkey(&payer()), thread_pubkey(), 5).unwrap()
}

fn pending(accounts: Vec<AccountMeta>) -> Instruction {
    Instruction { program_id: key(20), accounts, data: vec![1, 2, 3] }
}

fn thread(next_instruction: Option<Instruction>, execs_since_slot: u64, rate_limit: u64) -> Thread {
    Thread {
        id: b"job".to_vec(),
        authority: key(6),
        trigger: Trigger::Now,
        next_instruction,
        exec_context: ExecContext { last_exec_at: 480, execs_since_slot, rate_limit },
    }
}

fn accepted(units: u64, thread: Option<Thread>) -> SimulationResponse {
    SimulationResponse::Completed(SimulationResult {
        err: None,
        logs: vec![],
        units_consumed: Some(units),
        thread,
    })
}

fn rejected() -> SimulationResponse {
    SimulationResponse::Completed(SimulationResult {
        err: Some("custom program error: 0x1".to_string()),
        logs: vec!["Program log: failed".to_string()],
        units_consumed: Some(3_000),
        thread: None,
    })
}

fn start(first: &Thread) -> Result<Progress, PackError> {
    Packer::start(deployment(), payer(), 500, first, thread_pubkey(), 5, blockhash())
}

fn simulate(progress: Result<Progress, PackError>) -> (Packer, SimulationRequest) {
    match progress {
        Ok(Progress::Simulate { packer, request }) => (packer, request),
        Ok(Progress::Finished(outcome)) => panic!("finished: {:?}", outcome),
        Err(e) => panic!("gave up: {:?}", e),
    }
}

fn finished(progress: Result<Progress, PackError>) -> Outcome {
    match progress {
        Ok(Progress::Finished(outcome)) => outcome,
        Ok(Progress::Simulate { .. }) => panic!("asks for another dry run"),
        Err(e) => panic!("gave up: {:?}", e),
    }
}

#[test]
fn single_kickoff_is_fitted_to_its_measurement() {
    let first = thread(None, 0, 10);
    let (packer, request) = simulate(start(&first));
    assert_eq!(request.transaction.instructions.len(), 2);
    assert_eq!(
        compute_unit_limit(&request.transaction.instructions[0]),
        Some(TRANSACTION_COMPUTE_UNIT_LIMIT)
    );
    assert_eq!(
        request.transaction.instructions[1],
        build_kickoff_ix(&deployment(), &first, &addresses())
    );
    let outcome = finished(packer.advance(&accepted(50_000, Some(thread(None, 1, 10)))));
    assert_eq!(outcome.reason, StopReason::ChainComplete);
    let tx = outcome.transaction.unwrap();
    assert_eq!(tx.instructions.len(), 2);
    assert_eq!(compute_unit_limit(&tx.instructions[0]), Some(51_000));
    assert_eq!(tx.instructions[0].data, vec![2, 0x38, 0xc7, 0, 0]);
    assert_eq!(tx.instructions[1], build_kickoff_ix(&deployment(), &first, &addresses()));
    assert_eq!(tx.signatures.len(), 1);
    assert!(tx.message.len() <= TRANSACTION_MESSAGE_SIZE_LIMIT);
}

#[test]
fn three_execs_are_kept_when_the_fourth_fails() {
    let step = |n: u64| thread(Some(pending(vec![AccountMeta::new(key(30), false)])), n, 10);
    let responses = vec![
        accepted(100_000, Some(step(1))),
        accepted(100_000, Some(step(2))),
        accepted(100_000, Some(step(3))),
        rejected(),
    ];
    let outcome = finished(pack_with_responses(
        deployment(),
        payer(),
        500,
        &step(0),
        thread_pubkey(),
        5,
        blockhash(),
        &responses,
    ));
    assert_eq!(outcome.reason, StopReason::SimulationFailed);
    let tx = outcome.transaction.unwrap();
    assert_eq!(tx.instructions.len(), 4);
    assert_eq!(compute_unit_limit(&tx.instructions[0]), Some(101_000));
    for n in 0..3u64 {
        assert_eq!(
            tx.instructions[1 + n as usize],
            build_exec_ix(&deployment(), &step(n), &addresses())
        );
    }
}

#[test]
fn budget_is_capped_at_the_limit() {
    let step = |n: u64| thread(Some(pending(vec![])), n, 10);
    let responses = vec![accepted(1_399_500, Some(step(1))), rejected()];
    let outcome = finished(pack_with_responses(
        deployment(),
        payer(),
        500,
        &step(0),
        thread_pubkey(),
        5,
        blockhash(),
        &responses,
    ));
    let tx = outcome.transaction.unwrap();
    assert_eq!(tx.instructions.len(), 2);
    assert_eq!(compute_unit_limit(&tx.instructions[0]), Some(1_400_000));
}

#[test]
fn stale_view_aborts_the_attempt() {
    let (packer, request) = simulate(start(&thread(None, 0, 10)));
    assert_eq!(request.min_context_slot, Some(500));
    let answer = SimulationResponse::Unavailable { code: Some(MIN_CONTEXT_SLOT_NOT_REACHED) };
    match packer.advance(&answer) {
        Err(e) => assert_eq!(e, PackError::MinContextSlotNotReached),
        Ok(_) => panic!("a stale view must abort the attempt"),
    }
}

#[test]
fn stale_view_aborts_after_successes_too() {
    let step = |n: u64| thread(Some(pending(vec![])), n, 10);
    let responses = vec![
        accepted(10_000, Some(step(1))),
        SimulationResponse::Unavailable { code: Some(-32016) },
        accepted(10_000, Some(step(2))),
    ];
    let result = pack_with_responses(
        deployment(),
        payer(),
        500,
        &step(0),
        thread_pubkey(),
        5,
        blockhash(),
        &responses,
    );
    assert!(matches!(result, Err(PackError::MinContextSlotNotReached)));
}

fn wide_pending() -> Instruction {
    let mut accounts: Vec<AccountMeta> = Vec::new();
    for n in 0..29u8 {
        accounts.push(AccountMeta::new(key(100 + n), false));
    }
    for _ in 0..9 {
        accounts.push(AccountMeta::new_readonly(key(100), false));
    }
    pending(accounts)
}

#[test]
fn size_ceiling_keeps_the_last_success() {
    let first = thread(None, 0, 10);
    let after = thread(Some(wide_pending()), 1, 10);
    let kickoff = build_kickoff_ix(&deployment(), &first, &addresses());
    let exec = build_exec_ix(&deployment(), &after, &addresses());
    let (packer, request) = simulate(start(&first));
    let oversized = vec![request.transaction.instructions[0].clone(), kickoff.clone(), exec];
    let bytes = message_bytes(&signer_pubkey(&payer()), &oversized, &blockhash()).unwrap();
    assert_eq!(bytes.len(), 1300);

    let outcome = finished(packer.advance(&accepted(40_000, Some(after))));
    assert_eq!(outcome.reason, StopReason::SizeCeiling);
    let tx = outcome.transaction.unwrap();
    assert_eq!(tx.instructions.len(), 2);
    assert_eq!(tx.instructions[1], kickoff);
    assert_eq!(compute_unit_limit(&tx.instructions[0]), Some(41_000));
    assert!(tx.message.len() <= TRANSACTION_MESSAGE_SIZE_LIMIT);
}

#[test]
fn first_draft_over_the_ceiling_gives_nothing() {
    let first = thread(Some(wide_pending()), 0, 10);
    let mut wider = first.clone();
    if let Some(ix) = wider.next_instruction.as_mut() {
        for n in 0..10u8 {
            ix.accounts.push(AccountMeta::new(key(200 + n), false));
        }
    }
    let outcome = finished(start(&wider));
    assert_eq!(outcome.reason, StopReason::SizeCeiling);
    assert!(outcome.transaction.is_none());
}

#[test]
fn first_failure_gives_nothing() {
    let (packer, _) = simulate(start(&thread(None, 0, 10)));
    let outcome = finished(packer.advance(&rejected()));
    assert_eq!(outcome.reason, StopReason::SimulationFailed);
    assert!(outcome.transaction.is_none());
}

#[test]
fn transient_failure_keeps_earlier_success() {
    let step = |n: u64| thread(Some(pending(vec![])), n, 10);
    let (packer, _) = simulate(start(&step(0)));
    let (packer, request) = simulate(packer.advance(&accepted(20_000, Some(step(1)))));
    assert_eq!(request.transaction.instructions.len(), 3);
    assert_eq!(packer.confirmed().len(), 2);
    assert_eq!(packer.draft().len(), 3);
    assert_eq!(packer.units_consumed(), Some(20_000));
    let outcome = finished(packer.advance(&SimulationResponse::Unavailable { code: None }));
    assert_eq!(outcome.reason, StopReason::SimulatorUnavailable);
    let tx = outcome.transaction.unwrap();
    assert_eq!(tx.instructions.len(), 2);
    assert_eq!(compute_unit_limit(&tx.instructions[0]), Some(21_000));
}

#[test]
fn transient_failure_at_first_gives_nothing() {
    let (packer, _) = simulate(start(&thread(None, 0, 10)));
    let outcome = finished(packer.advance(&SimulationResponse::Unavailable { code: Some(-32005) }));
    assert_eq!(outcome.reason, StopReason::SimulatorUnavailable);
    assert!(outcome.transaction.is_none());
}

#[test]
fn rate_limit_stops_the_chain() {
    let first = thread(Some(pending(vec![])), 9, 10);
    let (packer, _) = simulate(start(&first));
    let outcome = finished(packer.advance(&accepted(30_000, Some(thread(Some(pending(vec![])), 10, 10)))));
    assert_eq!(outcome.reason, StopReason::RateLimited);
    let tx = outcome.transaction.unwrap();
    assert_eq!(tx.instructions.len(), 2);
    assert_eq!(tx.instructions[1], build_exec_ix(&deployment(), &first, &addresses()));
}

#[test]
fn below_rate_limit_the_chain_goes_on() {
    let first = thread(Some(pending(vec![])), 8, 10);
    let after = thread(Some(pending(vec![AccountMeta::new(key(31), false)])), 9, 10);
    let (packer, _) = simulate(start(&first));
    let (packer, request) = simulate(packer.advance(&accepted(30_000, Some(after.clone()))));
    assert_eq!(request.transaction.instructions.len(), 3);
    assert_eq!(
        request.transaction.instructions[2],
        build_exec_ix(&deployment(), &after, &addresses())
    );
    assert_eq!(packer.addresses(), addresses());
}

#[test]
fn missing_thread_state_stops_the_chain() {
    let (packer, _) = simulate(start(&thread(None, 0, 10)));
    let outcome = finished(packer.advance(&accepted(12_000, None)));
    assert_eq!(outcome.reason, StopReason::NoThreadState);
    assert_eq!(compute_unit_limit(&outcome.transaction.unwrap().instructions[0]), Some(13_000));
}

#[test]
fn unmeasured_success_keeps_the_placeholder() {
    let (packer, _) = simulate(start(&thread(None, 0, 10)));
    let answer = SimulationResponse::Completed(SimulationResult {
        err: None,
        logs: vec![],
        units_consumed: None,
        thread: Some(thread(None, 1, 10)),
    });
    let tx = finished(packer.advance(&answer)).transaction.unwrap();
    assert_eq!(compute_unit_limit(&tx.instructions[0]), Some(1_400_000));
}

#[test]
fn request_carries_the_simulation_parameters() {
    let (_, request) = simulate(start(&thread(None, 0, 10)));
    assert!(!request.sig_verify);
    assert!(request.replace_recent_blockhash);
    assert_eq!(request.commitment, Commitment::Processed);
    assert_eq!(request.encoding, AccountEncoding::Base64Zstd);
    assert_eq!(request.addresses, vec![thread_pubkey()]);
    assert_eq!(request.min_context_slot, Some(500));
}

#[test]
fn unencodable_pending_instruction_is_an_assembly_failure() {
    let mut accounts: Vec<AccountMeta> = Vec::new();
    for _ in 0..70_000 {
        accounts.push(AccountMeta::new_readonly(key(40), false));
    }
    let result = start(&thread(Some(pending(accounts)), 0, 10));
    assert!(matches!(result, Err(PackError::Assembly)));
}

#[test]
fn too_many_keys_is_an_assembly_failure() {
    let mut accounts: Vec<AccountMeta> = Vec::new();
    for hi in 0..2u8 {
        for lo in 0..=255u8 {
            let mut bytes = [50u8; 32];
            bytes[0] = hi;
            bytes[1] = lo;
            accounts.push(AccountMeta::new_readonly(Pubkey { bytes }, false));
        }
    }
    let result = start(&thread(Some(pending(accounts)), 0, 10));
    assert!(matches!(result, Err(PackError::Assembly)));
}

#[test]
fn answers_beyond_the_end_are_not_read() {
    let responses = vec![rejected(), accepted(1, None), accepted(2, None)];
    let outcome = finished(pack_with_responses(
        deployment(),
        payer(),
        500,
        &thread(None, 0, 10),
        thread_pubkey(),
        5,
        blockhash(),
        &responses,
    ));
    assert!(outcome.transaction.is_none());
    assert_eq!(outcome.reason, StopReason::SimulationFailed);
}

#[test]
fn answers_running_out_leave_the_draft_waiting() {
    let step = |n: u64| thread(Some(pending(vec![])), n, 10);
    let responses = vec![accepted(5_000, Some(step(1)))];
    let (packer, request) = simulate(pack_with_responses(
        deployment(),
        payer(),
        500,
        &step(0),
        thread_pubkey(),
        5,
        blockhash(),
        &responses,
    ));
    assert_eq!(request.transaction.instructions.len(), 3);
    assert_eq!(packer.confirmed().len(), 2);
}
