//! The decisions of a provisioning session: which instruction comes next, and
//! whether it is submitted or handed out for signing elsewhere.
use vstd::prelude::*;

use crate::instruction::{
    build_close, build_initialize, build_write, close_view, create_account_view,
    initialize_view, system_create_account, write_view, Instruction, InstructionView,
};
use crate::record::{account_size, encode_record, spec_account_size, WeightingConfig};

verus! {

/// What the operator asked for.
#[derive(Clone, Copy, Debug, PartialEq, Eq, Structural)]
pub enum Command {
    /// Create the account and record its authority.
    Init,
    /// Write the record into the account.
    Write,
    /// Close the account and reclaim its lamports.
    Close,
}

/// How writes reach the ledger, chosen once when the session starts.
#[derive(Clone, Copy, Debug, PartialEq, Eq, Structural)]
pub enum Strategy {
    /// The payer is the authority: sign and submit.
    DirectSubmit,
    /// Another key is the authority: hand the unsigned instruction out.
    OfflineDump,
}

/// Where a session stands.
#[derive(Clone, Copy, Debug, PartialEq, Eq, Structural)]
pub enum Stage {
    CreateAccount,
    Initialize,
    Write,
    Close,
    Finished,
}

/// The keys whose signatures a submitted transaction carries.
#[derive(Clone, Copy, Debug, PartialEq, Eq, Structural)]
pub enum SignedBy {
    Payer,
    PayerAndAccount,
}

/// How the last action went.
#[derive(Clone, Copy, Debug, PartialEq, Eq, Structural)]
pub enum Outcome {
    /// Confirmed by the ledger, or handed out.
    Done,
    /// Refused or not confirmed.
    Failed,
}

/// An unsigned instruction in the two forms an operator signs from: its data
/// as base-58 text, and the instruction itself with its raw data.
#[derive(Clone, Debug)]
pub struct InstructionDump {
    pub instruction: Instruction,
    pub base58: String,
}

/// What the session asks its runner to do next.
#[derive(Clone, Debug)]
pub enum Action {
    /// Sign the instruction with these keys and submit it.
    Submit { instruction: Instruction, signed_by: SignedBy },
    /// Print the instruction for signing elsewhere; submit nothing.
    Dump(InstructionDump),
    /// Nothing is left to do.
    Stop,
}

/// A provisioning session for one account.
#[derive(Clone, Copy, Debug)]
pub struct Session {
    /// The record program that owns the account.
    pub program_id: [u8; 32],
    /// The key that funds the account and pays for transactions.
    pub payer: [u8; 32],
    /// The account that holds the record.
    pub account: [u8; 32],
    /// The authority recorded on the account, and that signs writes.
    pub authority: [u8; 32],
    pub strategy: Strategy,
    /// The record to write.
    pub record: WeightingConfig,
    /// Lamports that keep the account rent-exempt.
    pub lamports: u64,
    pub stage: Stage,
}

/// The base-58 text of `bytes`.
pub uninterp spec fn base58_of(bytes: Seq<u8>) -> Seq<char>;

/// Relies on bs58::encode(..).into_string(): base-58 text in the Bitcoin
/// alphabet, which depends on the bytes alone.
#[verifier::external_body]
fn base58(bytes: &[u8]) -> (r: String)
    ensures
        r@ == base58_of(bytes@),
{
    bs58::encode(bytes).into_string()
}

/// The authority is another key than the payer exactly when one is given and
/// differs from the payer.
pub open spec fn spec_authority(payer: [u8; 32], authority: Option<[u8; 32]>) -> [u8; 32] {
    match authority {
        Some(a) => a,
        None => payer,
    }
}

pub open spec fn spec_strategy(payer: [u8; 32], authority: Option<[u8; 32]>) -> Strategy {
    if spec_authority(payer, authority) == payer {
        Strategy::DirectSubmit
    } else {
        Strategy::OfflineDump
    }
}

pub open spec fn first_stage(command: Command) -> Stage {
    match command {
        Command::Init => Stage::CreateAccount,
        Command::Write => Stage::Write,
        Command::Close => Stage::Close,
    }
}

/// Only a created account goes on to be initialized; every other step is the
/// last, whatever its outcome.
pub open spec fn next_stage(stage: Stage, outcome: Outcome) -> Stage {
    match stage {
        Stage::CreateAccount => if outcome == Outcome::Done {
            Stage::Initialize
        } else {
            Stage::Finished
        },
        _ => Stage::Finished,
    }
}

/// The instruction of each stage that has one.
pub open spec fn stage_instruction(s: Session) -> InstructionView {
    match s.stage {
        Stage::CreateAccount => create_account_view(
            s.payer,
            s.account,
            s.lamports,
            spec_account_size() as u64,
            s.program_id,
        ),
        Stage::Initialize => initialize_view(s.program_id, s.account, s.authority),
        Stage::Write => write_view(s.program_id, s.account, s.authority, 0, encode_record(s.record@)),
        _ => close_view(s.program_id, s.account, s.payer, s.payer),
    }
}

/// The action a session in `s` asks for.
pub open spec fn is_action_of(s: Session, a: Action) -> bool {
    match a {
        Action::Submit { instruction, signed_by } => {
            &&& s.stage != Stage::Finished
            &&& !(s.stage == Stage::Write && s.strategy == Strategy::OfflineDump)
            &&& instruction@ == stage_instruction(s)
            &&& signed_by == if s.stage == Stage::CreateAccount {
                SignedBy::PayerAndAccount
            } else {
                SignedBy::Payer
            }
        },
        Action::Dump(d) => {
            &&& s.stage == Stage::Write
            &&& s.strategy == Strategy::OfflineDump
            &&& d.instruction@ == stage_instruction(s)
            &&& d.base58@ == base58_of(stage_instruction(s).data)
        },
        Action::Stop => s.stage == Stage::Finished,
    }
}

fn same_key(a: &[u8; 32], b: &[u8; 32]) -> (r: bool)
    ensures
        r == (*a == *b),
{
    let mut i: usize = 0;
    while i < 32
        invariant
            i <= 32,
            forall|j: int| 0 <= j < i ==> a[j] == b[j],
        decreases 32 - i,
    {
        if a[i] != b[i] {
            return false;
        }
        i += 1;
    }
    assert(*a =~= *b);
    true
}

/// Submits directly when the payer is the authority, and hands the
/// instruction out otherwise.
pub fn select_strategy(payer: &[u8; 32], authority: &Option<[u8; 32]>) -> (r: Strategy)
    ensures
        r == spec_strategy(*payer, *authority),
{
    match authority {
        Some(a) => if same_key(a, payer) {
            Strategy::DirectSubmit
        } else {
            Strategy::OfflineDump
        },
        None => Strategy::DirectSubmit,
    }
}

/// The unsigned instruction with its data as base-58 text.
pub fn dump(instruction: Instruction) -> (r: InstructionDump)
    ensures
        r.instruction@ == instruction@,
        r.base58@ == base58_of(instruction@.data),
{
    let base58 = base58(instruction.data.as_slice());
    InstructionDump { instruction, base58 }
}

impl Session {
    /// A session for `command`. The authority is the one given, or the payer
    /// when none is.
    pub fn new(
        command: Command,
        program_id: [u8; 32],
        payer: [u8; 32],
        account: [u8; 32],
        authority: Option<[u8; 32]>,
        record: WeightingConfig,
        lamports: u64,
    ) -> (r: Session)
        ensures
            r.program_id == program_id,
            r.payer == payer,
            r.account == account,
            r.authority == spec_authority(payer, authority),
            r.strategy == spec_strategy(payer, authority),
            r.record@ == record@,
            r.lamports == lamports,
            r.stage == first_stage(command),
    {
        let strategy = select_strategy(&payer, &authority);
        let resolved = match authority {
            Some(a) => a,
            None => payer,
        };
        let stage = match command {
            Command::Init => Stage::CreateAccount,
            Command::Write => Stage::Write,
            Command::Close => Stage::Close,
        };
        Session { program_id, payer, account, authority: resolved, strategy, record, lamports, stage }
    }

    /// The action of the current stage.
    pub fn action(&self) -> (r: Action)
        ensures
            is_action_of(*self, r),
    {
        match self.stage {
            Stage::CreateAccount => {
                let space = account_size() as u64;
                let instruction = system_create_account(
                    &self.payer,
                    &self.account,
                    self.lamports,
                    space,
                    &self.program_id,
                );
                Action::Submit { instruction, signed_by: SignedBy::PayerAndAccount }
            },
            Stage::Initialize => {
                let instruction = build_initialize(&self.program_id, &self.account, &self.authority);
                Action::Submit { instruction, signed_by: SignedBy::Payer }
            },
            Stage::Write => {
                let bytes = self.record.as_bytes();
                let instruction = build_write(
                    &self.program_id,
                    &self.account,
                    &self.authority,
                    0,
                    bytes.as_slice(),
                );
                match self.strategy {
                    Strategy::DirectSubmit => Action::Submit {
                        instruction,
                        signed_by: SignedBy::Payer,
                    },
                    Strategy::OfflineDump => Action::Dump(dump(instruction)),
                }
            },
            Stage::Close => {
                let instruction = build_close(
                    &self.program_id,
                    &self.account,
                    &self.payer,
                    &self.payer,
                );
                Action::Submit { instruction, signed_by: SignedBy::Payer }
            },
            Stage::Finished => Action::Stop,
        }
    }

    /// Moves past the current stage, given how its action went.
    pub fn advance(&mut self, outcome: Outcome)
        ensures
            final(self).stage == next_stage(old(self).stage, outcome),
            final(self).program_id == old(self).program_id,
            final(self).payer == old(self).payer,
            final(self).account == old(self).account,
            final(self).authority == old(self).authority,
            final(self).strategy == old(self).strategy,
            final(self).record@ == old(self).record@,
            final(self).lamports == old(self).lamports,
    {
        self.stage = match self.stage {
            Stage::CreateAccount => match outcome {
                Outcome::Done => Stage::Initialize,
                Outcome::Failed => Stage::Finished,
            },
            _ => Stage::Finished,
        };
    }
}

/// A write session given an authority other than the payer hands its
/// instruction out and then stops: it submits nothing.
pub proof fn lemma_offline_write_submits_nothing(
    s: Session,
    authority: [u8; 32],
    outcome: Outcome,
    first: Action,
    second: Action,
)
    requires
        authority != s.payer,
        s.stage == first_stage(Command::Write),
        s.strategy == spec_strategy(s.payer, Some(authority)),
        is_action_of(s, first),
        is_action_of(Session { stage: next_stage(s.stage, outcome), ..s }, second),
    ensures
        first is Dump,
        second is Stop,
{
}

} // verus!
