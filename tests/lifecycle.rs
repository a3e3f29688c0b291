use weighting_config::instruction::{build_close, build_initialize, build_write, AccountRef};
use weighting_config::lifecycle::{select_strategy, Action, Command, Outcome, Session, SignedBy, Stage, Strategy};
use weighting_config::record::WeightingConfig;

const PROGRAM: [u8; 32] = [9; 32];
const PAYER: [u8; 32] = [4; 32];
const ACCOUNT: [u8; 32] = [5; 32];
const MULTISIG: [u8; 32] = [6; 32];

fn session(command: Command, authority: Option<[u8; 32]>) -> Session {
    Session::new(command, PROGRAM, PAYER, ACCOUNT, authority, WeightingConfig::new(1, 30000), 1_000_000)
}

#[test]
fn strategy_follows_authority() {
    assert_eq!(select_strategy(&PAYER, &None), Strategy::DirectSubmit);
    assert_eq!(select_strategy(&PAYER, &Some(PAYER)), Strategy::DirectSubmit);
    assert_eq!(select_strategy(&PAYER, &Some(MULTISIG)), Strategy::OfflineDump);
}

#[test]
fn init_creates_then_initializes() {
    let mut s = session(Command::Init, Some(MULTISIG));
    assert_eq!(s.stage, Stage::CreateAccount);
    match s.action() {
        Action::Submit { instruction, signed_by } => {
            assert_eq!(signed_by, SignedBy::PayerAndAccount);
            assert_eq!(instruction.program_id, [0; 32]);
            assert_eq!(
                instruction.accounts,
                vec![
                    AccountRef { pubkey: PAYER, is_signer: true, is_writable: true },
                    AccountRef { pubkey: ACCOUNT, is_signer: true, is_writable: true },
                ]
            );
            let mut data = vec![0u8, 0, 0, 0];
            data.extend_from_slice(&1_000_000u64.to_le_bytes());
            data.extend_from_slice(&65u64.to_le_bytes());
            data.extend_from_slice(&PROGRAM);
            assert_eq!(instruction.data, data);
        }
        _ => panic!("expected a submission"),
    }
    s.advance(Outcome::Done);
    assert_eq!(s.stage, Stage::Initialize);
    match s.action() {
        Action::Submit { instruction, signed_by } => {
            assert_eq!(signed_by, SignedBy::Payer);
            assert_eq!(instruction, build_initialize(&PROGRAM, &ACCOUNT, &MULTISIG));
        }
        _ => panic!("expected a submission"),
    }
    s.advance(Outcome::Done);
    assert!(matches!(s.action(), Action::Stop));
}

#[test]
fn failed_creation_stops_session() {
    let mut s = session(Command::Init, None);
    s.advance(Outcome::Failed);
    assert_eq!(s.stage, Stage::Finished);
    assert!(matches!(s.action(), Action::Stop));
}

#[test]
fn init_without_authority_records_payer() {
    let mut s = session(Command::Init, None);
    s.advance(Outcome::Done);
    match s.action() {
        Action::Submit { instruction, .. } => {
            assert_eq!(instruction, build_initialize(&PROGRAM, &ACCOUNT, &PAYER))
        }
        _ => panic!("expected a submission"),
    }
}

#[test]
fn direct_write_is_submitted() {
    let mut s = session(Command::Write, None);
    assert_eq!(s.strategy, Strategy::DirectSubmit);
    let bytes = WeightingConfig::new(1, 30000).as_bytes();
    match s.action() {
        Action::Submit { instruction, signed_by } => {
            assert_eq!(signed_by, SignedBy::Payer);
            assert_eq!(instruction, build_write(&PROGRAM, &ACCOUNT, &PAYER, 0, &bytes));
        }
        _ => panic!("expected a submission"),
    }
    s.advance(Outcome::Failed);
    assert!(matches!(s.action(), Action::Stop));
}

#[test]
fn offline_write_dumps_and_submits_nothing() {
    let mut s = session(Command::Write, Some(MULTISIG));
    let mut submissions = 0;
    let mut dumps = Vec::new();
    loop {
        match s.action() {
            Action::Submit { .. } => submissions += 1,
            Action::Dump(d) => dumps.push(d),
            Action::Stop => break,
        }
        s.advance(Outcome::Done);
    }
    assert_eq!(submissions, 0);
    assert_eq!(dumps.len(), 1);
    let bytes = WeightingConfig::new(1, 30000).as_bytes();
    assert_eq!(dumps[0].instruction, build_write(&PROGRAM, &ACCOUNT, &MULTISIG, 0, &bytes));
    assert_eq!(dumps[0].instruction.data, vec![1, 0, 0, 0, 0, 1, 0x30, 0x75, 0, 0, 0, 0, 0, 0]);
    assert_eq!(dumps[0].base58, "NKioeUWdpJdyZMcFL3");
}

#[test]
fn close_is_signed_by_payer() {
    let mut s = session(Command::Close, Some(MULTISIG));
    match s.action() {
        Action::Submit { instruction, signed_by } => {
            assert_eq!(signed_by, SignedBy::Payer);
            assert_eq!(instruction, build_close(&PROGRAM, &ACCOUNT, &PAYER, &PAYER));
        }
        _ => panic!("expected a submission"),
    }
    s.advance(Outcome::Done);
    assert!(matches!(s.action(), Action::Stop));
}
