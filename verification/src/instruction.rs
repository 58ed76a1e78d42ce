//! Program instructions: the instruction set of the governance program, its data
//! format, and the builders of each instruction with its accounts.
use vstd::prelude::*;
use crate::codec::{
    enc_bool, enc_option_key, enc_string, enc_u16, enc_u64, is_key, string_fits,
    bytes_fit, parse_bool, parse_key, parse_option_key, parse_string, parse_u16, parse_u64,
    parse_u8, put_bool, put_key, put_option_key, put_string, put_u16, put_u64, put_u8,
    read_bool, read_key, read_option_key, read_string, read_u16, read_u64, read_u8, lemma_u16,
    lemma_u64, lemma_u16_back, lemma_u64_back, lemma_string, lemma_string_back,
    lemma_option_key, lemma_option_key_back,
};
use crate::pubkey::{Pubkey, InstructionView};
use crate::state::{
    GovernanceConfig, GovernanceConfigView, InstructionData, config_wf, enc_config,
    parse_config, instruction_data_wf, enc_instruction_data, parse_instruction_data, put_config,
    put_instruction_data, read_config, read_instruction_data, lemma_config, lemma_config_back,
    lemma_instruction_data, lemma_instruction_data_back,
};
use crate::address::opt_key;

verus! {

/// Yes/No Vote
#[derive(Clone, Copy, Debug, PartialEq, Eq)]
pub enum Vote {
    /// Yes vote
    Yes,
    /// No vote
    No,
}

/// What an instruction of the governance program says.
pub enum GovernanceInstructionView {
    CreateRealm { name: Seq<char> },
    DepositGoverningTokens,
    WithdrawGoverningTokens,
    SetGovernanceDelegate { new_governance_delegate: Option<Seq<u8>> },
    CreateAccountGovernance { config: GovernanceConfigView },
    CreateProgramGovernance { config: GovernanceConfigView, transfer_upgrade_authority: bool },
    CreateProposal { name: Seq<char>, description_link: Seq<char>, governing_token_mint: Seq<u8> },
    AddSignatory { signatory: Seq<u8> },
    RemoveSignatory { signatory: Seq<u8> },
    InsertInstruction { index: u16, hold_up_time: u64, instruction: InstructionView },
    RemoveInstruction,
    CancelProposal,
    SignOffProposal,
    CastVote { vote: Vote },
    FinalizeVote,
    RelinquishVote,
    ExecuteInstruction,
    CreateMintGovernance { config: GovernanceConfigView, transfer_mint_authority: bool },
}

/// Instructions supported by the Governance program
#[derive(Clone, Debug, PartialEq, Eq)]
pub enum GovernanceInstruction {
    /// Creates Governance Realm account which aggregates governances for given Community Mint and optional Council Mint
    CreateRealm {
        /// UTF-8 encoded Governance Realm name
        name: String,
    },
    /// Deposits governing tokens (Community or Council) to Governance Realm and establishes your voter weight to be used for voting within the Realm
    DepositGoverningTokens {},
    /// Withdraws governing tokens (Community or Council) from Governance Realm and downgrades your voter weight within the Realm
    WithdrawGoverningTokens {},
    /// Sets Governance Delegate for the given Realm and Governing Token Mint (Community or Council)
    SetGovernanceDelegate {
        /// New Governance Delegate
        new_governance_delegate: Option<Pubkey>,
    },
    /// Creates Account Governance account which can be used to govern an arbitrary account
    CreateAccountGovernance {
        /// Governance config
        config: GovernanceConfig,
    },
    /// Creates Program Governance account which governs an upgradable program
    CreateProgramGovernance {
        /// Governance config
        config: GovernanceConfig,
        /// Indicates whether Program's upgrade_authority should be transferred to the Governance PDA
        transfer_upgrade_authority: bool,
    },
    /// Creates Proposal account for Instructions that will be executed at various slots in the future
    CreateProposal {
        /// UTF-8 encoded name of the proposal
        name: String,
        /// Link to gist explaining proposal
        description_link: String,
        /// Governing Token Mint the Proposal is created for
        governing_token_mint: Pubkey,
    },
    /// Adds a signatory to the Proposal which means this Proposal can't leave Draft state until yet another Signatory signs
    AddSignatory {
        /// Signatory to add to the Proposal
        signatory: Pubkey,
    },
    /// Removes a Signatory from the Proposal
    RemoveSignatory {
        /// Signatory to remove from the Proposal
        signatory: Pubkey,
    },
    /// Inserts an instruction for the Proposal at the given index position
    InsertInstruction {
        /// Instruction index to be inserted at.
        index: u16,
        /// Slot waiting time between vote period ending and this being eligible for execution
        hold_up_time: u64,
        /// Instruction Data
        instruction: InstructionData,
    },
    /// Removes instruction from the Proposal
    RemoveInstruction,
    /// Cancels Proposal by changing its state to Canceled
    CancelProposal,
    /// Signs off Proposal indicating the Signatory approves the Proposal
    SignOffProposal,
    /// Uses your voter weight (deposited Community or Council tokens) to cast a vote on a Proposal
    CastVote {
        /// Yes/No vote
        vote: Vote,
    },
    /// Finalizes vote in case the Vote was not automatically tipped within max_voting_time period
    FinalizeVote {},
    /// Relinquish Vote removes voter weight from a Proposal and removes it from voter's active votes
    RelinquishVote,
    /// Executes an instruction in the Proposal
    ExecuteInstruction,
    /// Creates Mint Governance account which governs a mint
    CreateMintGovernance {
        /// Governance config
        config: GovernanceConfig,
        /// Indicates whether Mint's authority should be transferred to the Governance PDA
        transfer_mint_authority: bool,
    },
}

impl View for GovernanceInstruction {
    type V = GovernanceInstructionView;

    open spec fn view(&self) -> GovernanceInstructionView {
        match self {
            GovernanceInstruction::CreateRealm { name } => GovernanceInstructionView::CreateRealm {
                name: name@,
            },
            GovernanceInstruction::DepositGoverningTokens {  } =>
                GovernanceInstructionView::DepositGoverningTokens,
            GovernanceInstruction::WithdrawGoverningTokens {  } =>
                GovernanceInstructionView::WithdrawGoverningTokens,
            GovernanceInstruction::SetGovernanceDelegate { new_governance_delegate } =>
                GovernanceInstructionView::SetGovernanceDelegate {
                new_governance_delegate: opt_key(*new_governance_delegate),
            },
            GovernanceInstruction::CreateAccountGovernance { config } =>
                GovernanceInstructionView::CreateAccountGovernance { config: config@ },
            GovernanceInstruction::CreateProgramGovernance {
                config,
                transfer_upgrade_authority,
            } => GovernanceInstructionView::CreateProgramGovernance {
                config: config@,
                transfer_upgrade_authority: *transfer_upgrade_authority,
            },
            GovernanceInstruction::CreateProposal { name, description_link, governing_token_mint } =>
                GovernanceInstructionView::CreateProposal {
                name: name@,
                description_link: description_link@,
                governing_token_mint: governing_token_mint@,
            },
            GovernanceInstruction::AddSignatory { signatory } =>
                GovernanceInstructionView::AddSignatory { signatory: signatory@ },
            GovernanceInstruction::RemoveSignatory { signatory } =>
                GovernanceInstructionView::RemoveSignatory { signatory: signatory@ },
            GovernanceInstruction::InsertInstruction { index, hold_up_time, instruction } =>
                GovernanceInstructionView::InsertInstruction {
                index: *index,
                hold_up_time: *hold_up_time,
                instruction: instruction@,
            },
            GovernanceInstruction::RemoveInstruction => GovernanceInstructionView::RemoveInstruction,
            GovernanceInstruction::CancelProposal => GovernanceInstructionView::CancelProposal,
            GovernanceInstruction::SignOffProposal => GovernanceInstructionView::SignOffProposal,
            GovernanceInstruction::CastVote { vote } => GovernanceInstructionView::CastVote {
                vote: *vote,
            },
            GovernanceInstruction::FinalizeVote {  } => GovernanceInstructionView::FinalizeVote,
            GovernanceInstruction::RelinquishVote => GovernanceInstructionView::RelinquishVote,
            GovernanceInstruction::ExecuteInstruction =>
                GovernanceInstructionView::ExecuteInstruction,
            GovernanceInstruction::CreateMintGovernance { config, transfer_mint_authority } =>
                GovernanceInstructionView::CreateMintGovernance {
                config: config@,
                transfer_mint_authority: *transfer_mint_authority,
            },
        }
    }
}

/// The view of an optional instruction of the governance program.
pub open spec fn opt_governance_view(r: Option<GovernanceInstruction>) -> Option<
    GovernanceInstructionView,
> {
    match r {
        Some(ix) => Some(ix@),
        None => None,
    }
}

// ---------------------------------------------------------------- data format

/// The byte of a vote: its position in the declaration.
pub open spec fn vote_byte(v: Vote) -> u8 {
    match v {
        Vote::Yes => 0,
        Vote::No => 1,
    }
}

/// Instruction data: the variant's position in the declaration as one byte, then the
/// variant's fields in order.
pub open spec fn encode_instruction(m: GovernanceInstructionView) -> Seq<u8> {
    match m {
        GovernanceInstructionView::CreateRealm { name } => seq![0u8] + enc_string(name),
        GovernanceInstructionView::DepositGoverningTokens => seq![1u8],
        GovernanceInstructionView::WithdrawGoverningTokens => seq![2u8],
        GovernanceInstructionView::SetGovernanceDelegate { new_governance_delegate } => seq![3u8]
            + enc_option_key(new_governance_delegate),
        GovernanceInstructionView::CreateAccountGovernance { config } => seq![4u8] + enc_config(
            config,
        ),
        GovernanceInstructionView::CreateProgramGovernance {
            config,
            transfer_upgrade_authority,
        } => seq![5u8] + enc_config(config) + enc_bool(transfer_upgrade_authority),
        GovernanceInstructionView::CreateProposal { name, description_link, governing_token_mint } =>
            seq![6u8] + enc_string(name) + enc_string(description_link) + governing_token_mint,
        GovernanceInstructionView::AddSignatory { signatory } => seq![7u8] + signatory,
        GovernanceInstructionView::RemoveSignatory { signatory } => seq![8u8] + signatory,
        GovernanceInstructionView::InsertInstruction { index, hold_up_time, instruction } =>
            seq![9u8] + enc_u16(index) + enc_u64(hold_up_time) + enc_instruction_data(instruction),
        GovernanceInstructionView::RemoveInstruction => seq![10u8],
        GovernanceInstructionView::CancelProposal => seq![11u8],
        GovernanceInstructionView::SignOffProposal => seq![12u8],
        GovernanceInstructionView::CastVote { vote } => seq![13u8, vote_byte(vote)],
        GovernanceInstructionView::FinalizeVote => seq![14u8],
        GovernanceInstructionView::RelinquishVote => seq![15u8],
        GovernanceInstructionView::ExecuteInstruction => seq![16u8],
        GovernanceInstructionView::CreateMintGovernance { config, transfer_mint_authority } =>
            seq![17u8] + enc_config(config) + enc_bool(transfer_mint_authority),
    }
}

/// An instruction whose texts and lists fit their `u32` length prefixes.
pub open spec fn serializable(m: GovernanceInstructionView) -> bool {
    match m {
        GovernanceInstructionView::CreateRealm { name } => string_fits(name),
        GovernanceInstructionView::CreateProposal { name, description_link, .. } => string_fits(
            name,
        ) && string_fits(description_link),
        GovernanceInstructionView::InsertInstruction { instruction, .. } => {
            &&& instruction.accounts.len() <= u32::MAX
            &&& bytes_fit(instruction.data)
        },
        _ => true,
    }
}

/// An instruction that can be encoded: serializable, and every address 32 bytes long.
pub open spec fn instruction_wf(m: GovernanceInstructionView) -> bool {
    &&& serializable(m)
    &&& match m {
        GovernanceInstructionView::SetGovernanceDelegate { new_governance_delegate } =>
            new_governance_delegate matches Some(k) ==> is_key(k),
        GovernanceInstructionView::CreateAccountGovernance { config } => config_wf(config),
        GovernanceInstructionView::CreateProgramGovernance { config, .. } => config_wf(config),
        GovernanceInstructionView::CreateProposal { governing_token_mint, .. } => is_key(
            governing_token_mint,
        ),
        GovernanceInstructionView::AddSignatory { signatory } => is_key(signatory),
        GovernanceInstructionView::RemoveSignatory { signatory } => is_key(signatory),
        GovernanceInstructionView::InsertInstruction { instruction, .. } => instruction_data_wf(
            instruction,
        ),
        GovernanceInstructionView::CreateMintGovernance { config, .. } => config_wf(config),
        _ => true,
    }
}

/// Reads an instruction from the front of `s`: the instruction and the bytes used.
pub open spec fn parse_instruction(s: Seq<u8>) -> Option<(GovernanceInstructionView, int)> {
    if s.len() == 0 {
        None
    } else {
        let b = s.skip(1);
        let tag = s[0];
        if tag == 0 {
            match parse_string(b) {
                Some((name, n)) => Some((GovernanceInstructionView::CreateRealm { name }, 1 + n)),
                None => None,
            }
        } else if tag == 1 {
            Some((GovernanceInstructionView::DepositGoverningTokens, 1))
        } else if tag == 2 {
            Some((GovernanceInstructionView::WithdrawGoverningTokens, 1))
        } else if tag == 3 {
            match parse_option_key(b) {
                Some((d, n)) => Some(
                    (
                        GovernanceInstructionView::SetGovernanceDelegate {
                            new_governance_delegate: d,
                        },
                        1 + n,
                    ),
                ),
                None => None,
            }
        } else if tag == 4 {
            match parse_config(b) {
                Some((config, n)) => Some(
                    (GovernanceInstructionView::CreateAccountGovernance { config }, 1 + n),
                ),
                None => None,
            }
        } else if tag == 5 {
            match parse_config(b) {
                Some((config, n)) => match parse_bool(b.skip(n)) {
                    Some((t, m)) => Some(
                        (
                            GovernanceInstructionView::CreateProgramGovernance {
                                config,
                                transfer_upgrade_authority: t,
                            },
                            1 + n + m,
                        ),
                    ),
                    None => None,
                },
                None => None,
            }
        } else if tag == 6 {
            match parse_string(b) {
                Some((name, n1)) => match parse_string(b.skip(n1)) {
                    Some((description_link, n2)) => match parse_key(b.skip(n1 + n2)) {
                        Some((governing_token_mint, n3)) => Some(
                            (
                                GovernanceInstructionView::CreateProposal {
                                    name,
                                    description_link,
                                    governing_token_mint,
                                },
                                1 + n1 + n2 + n3,
                            ),
                        ),
                        None => None,
                    },
                    None => None,
                },
                None => None,
            }
        } else if tag == 7 {
            match parse_key(b) {
                Some((signatory, n)) => Some(
                    (GovernanceInstructionView::AddSignatory { signatory }, 1 + n),
                ),
                None => None,
            }
        } else if tag == 8 {
            match parse_key(b) {
                Some((signatory, n)) => Some(
                    (GovernanceInstructionView::RemoveSignatory { signatory }, 1 + n),
                ),
                None => None,
            }
        } else if tag == 9 {
            match parse_u16(b) {
                Some((index, n1)) => match parse_u64(b.skip(n1)) {
                    Some((hold_up_time, n2)) => match parse_instruction_data(b.skip(n1 + n2)) {
                        Some((instruction, n3)) => Some(
                            (
                                GovernanceInstructionView::InsertInstruction {
                                    index,
                                    hold_up_time,
                                    instruction,
                                },
                                1 + n1 + n2 + n3,
                            ),
                        ),
                        None => None,
                    },
                    None => None,
                },
                None => None,
            }
        } else if tag == 10 {
            Some((GovernanceInstructionView::RemoveInstruction, 1))
        } else if tag == 11 {
            Some((GovernanceInstructionView::CancelProposal, 1))
        } else if tag == 12 {
            Some((GovernanceInstructionView::SignOffProposal, 1))
        } else if tag == 13 {
            match parse_u8(b) {
                Some((v, n)) => if v == 0 {
                    Some((GovernanceInstructionView::CastVote { vote: Vote::Yes }, 1 + n))
                } else if v == 1 {
                    Some((GovernanceInstructionView::CastVote { vote: Vote::No }, 1 + n))
                } else {
                    None
                },
                None => None,
            }
        } else if tag == 14 {
            Some((GovernanceInstructionView::FinalizeVote, 1))
        } else if tag == 15 {
            Some((GovernanceInstructionView::RelinquishVote, 1))
        } else if tag == 16 {
            Some((GovernanceInstructionView::ExecuteInstruction, 1))
        } else if tag == 17 {
            match parse_config(b) {
                Some((config, n)) => match parse_bool(b.skip(n)) {
                    Some((t, m)) => Some(
                        (
                            GovernanceInstructionView::CreateMintGovernance {
                                config,
                                transfer_mint_authority: t,
                            },
                            1 + n + m,
                        ),
                    ),
                    None => None,
                },
                None => None,
            }
        } else {
            None
        }
    }
}

/// The instruction that the bytes hold, where they hold one and nothing more.
pub open spec fn decode_instruction(s: Seq<u8>) -> Option<GovernanceInstructionView> {
    match parse_instruction(s) {
        Some((m, n)) => if n == s.len() {
            Some(m)
        } else {
            None
        },
        None => None,
    }
}

// ---------------------------------------------------------------- writing and reading

impl GovernanceInstruction {
    /// The instruction's data bytes.
    pub fn try_to_vec(&self) -> (r: Vec<u8>)
        requires
            serializable(self@),
        ensures
            r@ == encode_instruction(self@),
    {
        let mut out: Vec<u8> = Vec::new();
        match self {
            GovernanceInstruction::CreateRealm { name } => {
                put_u8(&mut out, 0);
                put_string(&mut out, name);
            },
            GovernanceInstruction::DepositGoverningTokens {  } => {
                put_u8(&mut out, 1);
            },
            GovernanceInstruction::WithdrawGoverningTokens {  } => {
                put_u8(&mut out, 2);
            },
            GovernanceInstruction::SetGovernanceDelegate { new_governance_delegate } => {
                put_u8(&mut out, 3);
                put_option_key(&mut out, new_governance_delegate);
            },
            GovernanceInstruction::CreateAccountGovernance { config } => {
                put_u8(&mut out, 4);
                put_config(&mut out, config);
            },
            GovernanceInstruction::CreateProgramGovernance { config, transfer_upgrade_authority } => {
                put_u8(&mut out, 5);
                put_config(&mut out, config);
                put_bool(&mut out, *transfer_upgrade_authority);
            },
            GovernanceInstruction::CreateProposal { name, description_link, governing_token_mint } => {
                put_u8(&mut out, 6);
                put_string(&mut out, name);
                put_string(&mut out, description_link);
                put_key(&mut out, governing_token_mint);
            },
            GovernanceInstruction::AddSignatory { signatory } => {
                put_u8(&mut out, 7);
                put_key(&mut out, signatory);
            },
            GovernanceInstruction::RemoveSignatory { signatory } => {
                put_u8(&mut out, 8);
                put_key(&mut out, signatory);
            },
            GovernanceInstruction::InsertInstruction { index, hold_up_time, instruction } => {
                put_u8(&mut out, 9);
                put_u16(&mut out, *index);
                put_u64(&mut out, *hold_up_time);
                put_instruction_data(&mut out, instruction);
            },
            GovernanceInstruction::RemoveInstruction => {
                put_u8(&mut out, 10);
            },
            GovernanceInstruction::CancelProposal => {
                put_u8(&mut out, 11);
            },
            GovernanceInstruction::SignOffProposal => {
                put_u8(&mut out, 12);
            },
            GovernanceInstruction::CastVote { vote } => {
                put_u8(&mut out, 13);
                match vote {
                    Vote::Yes => put_u8(&mut out, 0),
                    Vote::No => put_u8(&mut out, 1),
                }
            },
            GovernanceInstruction::FinalizeVote {  } => {
                put_u8(&mut out, 14);
            },
            GovernanceInstruction::RelinquishVote => {
                put_u8(&mut out, 15);
            },
            GovernanceInstruction::ExecuteInstruction => {
                put_u8(&mut out, 16);
            },
            GovernanceInstruction::CreateMintGovernance { config, transfer_mint_authority } => {
                put_u8(&mut out, 17);
                put_config(&mut out, config);
                put_bool(&mut out, *transfer_mint_authority);
            },
        }
        assert(out@ =~= encode_instruction(self@));
        out
    }

    /// The instruction that `data` holds, where it holds one and nothing more.
    pub fn try_from_slice(data: &[u8]) -> (r: Option<GovernanceInstruction>)
        ensures
            opt_governance_view(r) == decode_instruction(data@),
    {
        match read_instruction(data) {
            None => None,
            Some((ix, p)) => if p == data.len() {
                Some(ix)
            } else {
                None
            },
        }
    }
}

/// Reads the fields of the variants with a configuration and a flag.
fn read_config_and_flag(data: &[u8]) -> (r: Option<(GovernanceConfig, bool, usize)>)
    requires
        1 <= data@.len(),
    ensures
        match (r, parse_config(data@.skip(1))) {
            (Some((c, t, p)), Some((v, n))) => c@ == v && match parse_bool(data@.skip(1).skip(n)) {
                Some((u, m)) => t == u && p == 1 + n + m,
                None => false,
            },
            (None, Some((v, n))) => parse_bool(data@.skip(1).skip(n)) is None,
            (None, None) => true,
            _ => false,
        },
{
    match read_config(data, 1) {
        None => None,
        Some((config, p)) => {
            assert(data@.skip(p as int) =~= data@.skip(1).skip(p - 1));
            match read_bool(data, p) {
                None => None,
                Some((t, q)) => Some((config, t, q)),
            }
        },
    }
}

/// Reads the fields of a new proposal.
fn read_proposal_fields(data: &[u8]) -> (r: Option<(String, String, Pubkey, usize)>)
    requires
        1 <= data@.len(),
    ensures
        match parse_instruction(data@) {
            Some((GovernanceInstructionView::CreateProposal { name, description_link, governing_token_mint }, n)) =>
                data@[0] == 6 ==> (r matches Some((a, b, c, p)) && a@ == name && b@ == description_link
                    && c@ == governing_token_mint && p == n),
            _ => data@[0] == 6 ==> r is None,
        },
{
    let ghost b = data@.skip(1);
    match read_string(data, 1) {
        None => None,
        Some((name, p1)) => {
            assert(data@.skip(p1 as int) =~= b.skip(p1 - 1));
            match read_string(data, p1) {
                None => None,
                Some((description_link, p2)) => {
                    assert(data@.skip(p2 as int) =~= b.skip(p2 - 1));
                    match read_key(data, p2) {
                        None => None,
                        Some((mint, p3)) => Some((name, description_link, mint, p3)),
                    }
                },
            }
        },
    }
}

/// Reads the fields of an instruction inserted into a proposal.
fn read_insert_fields(data: &[u8]) -> (r: Option<(u16, u64, InstructionData, usize)>)
    requires
        1 <= data@.len(),
    ensures
        match parse_instruction(data@) {
            Some((GovernanceInstructionView::InsertInstruction { index, hold_up_time, instruction }, n)) =>
                data@[0] == 9 ==> (r matches Some((a, b, c, p)) && a == index && b == hold_up_time
                    && c@ == instruction && p == n),
            _ => data@[0] == 9 ==> r is None,
        },
{
    let ghost b = data@.skip(1);
    match read_u16(data, 1) {
        None => None,
        Some((index, p1)) => {
            assert(data@.skip(p1 as int) =~= b.skip(p1 - 1));
            match read_u64(data, p1) {
                None => None,
                Some((hold_up_time, p2)) => {
                    assert(data@.skip(p2 as int) =~= b.skip(p2 - 1));
                    match read_instruction_data(data, p2) {
                        None => None,
                        Some((instruction, p3)) => Some((index, hold_up_time, instruction, p3)),
                    }
                },
            }
        },
    }
}

/// Reads an instruction from the front of `data`, and where its bytes end.
fn read_instruction(data: &[u8]) -> (r: Option<(GovernanceInstruction, usize)>)
    ensures
        match (r, parse_instruction(data@)) {
            (Some((ix, p)), Some((m, n))) => ix@ == m && p == n,
            (None, None) => true,
            _ => false,
        },
{
    if data.len() == 0 {
        return None;
    }
    let tag = data[0];
    if tag == 0 {
        match read_string(data, 1) {
            None => None,
            Some((name, p)) => Some((GovernanceInstruction::CreateRealm { name }, p)),
        }
    } else if tag == 1 {
        Some((GovernanceInstruction::DepositGoverningTokens {  }, 1))
    } else if tag == 2 {
        Some((GovernanceInstruction::WithdrawGoverningTokens {  }, 1))
    } else if tag == 3 {
        match read_option_key(data, 1) {
            None => None,
            Some((d, p)) => Some(
                (GovernanceInstruction::SetGovernanceDelegate { new_governance_delegate: d }, p),
            ),
        }
    } else if tag == 4 {
        match read_config(data, 1) {
            None => None,
            Some((config, p)) => Some((GovernanceInstruction::CreateAccountGovernance { config }, p)),
        }
    } else if tag == 5 {
        match read_config_and_flag(data) {
            None => None,
            Some((config, t, p)) => Some(
                (
                    GovernanceInstruction::CreateProgramGovernance {
                        config,
                        transfer_upgrade_authority: t,
                    },
                    p,
                ),
            ),
        }
    } else if tag == 6 {
        match read_proposal_fields(data) {
            None => None,
            Some((name, description_link, governing_token_mint, p)) => Some(
                (
                    GovernanceInstruction::CreateProposal {
                        name,
                        description_link,
                        governing_token_mint,
                    },
                    p,
                ),
            ),
        }
    } else if tag == 7 {
        match read_key(data, 1) {
            None => None,
            Some((signatory, p)) => Some((GovernanceInstruction::AddSignatory { signatory }, p)),
        }
    } else if tag == 8 {
        match read_key(data, 1) {
            None => None,
            Some((signatory, p)) => Some((GovernanceInstruction::RemoveSignatory { signatory }, p)),
        }
    } else if tag == 9 {
        match read_insert_fields(data) {
            None => None,
            Some((index, hold_up_time, instruction, p)) => Some(
                (
                    GovernanceInstruction::InsertInstruction { index, hold_up_time, instruction },
                    p,
                ),
            ),
        }
    } else if tag == 10 {
        Some((GovernanceInstruction::RemoveInstruction, 1))
    } else if tag == 11 {
        Some((GovernanceInstruction::CancelProposal, 1))
    } else if tag == 12 {
        Some((GovernanceInstruction::SignOffProposal, 1))
    } else if tag == 13 {
        match read_u8(data, 1) {
            None => None,
            Some((v, p)) => if v == 0 {
                Some((GovernanceInstruction::CastVote { vote: Vote::Yes }, p))
            } else if v == 1 {
                Some((GovernanceInstruction::CastVote { vote: Vote::No }, p))
            } else {
                None
            },
        }
    } else if tag == 14 {
        Some((GovernanceInstruction::FinalizeVote {  }, 1))
    } else if tag == 15 {
        Some((GovernanceInstruction::RelinquishVote, 1))
    } else if tag == 16 {
        Some((GovernanceInstruction::ExecuteInstruction, 1))
    } else if tag == 17 {
        match read_config_and_flag(data) {
            None => None,
            Some((config, t, p)) => Some(
                (
                    GovernanceInstruction::CreateMintGovernance {
                        config,
                        transfer_mint_authority: t,
                    },
                    p,
                ),
            ),
        }
    } else {
        None
    }
}

// ---------------------------------------------------------------- laws of the data format

/// An encodable instruction is read back from its data, whatever bytes follow.
pub proof fn lemma_parse_encode(m: GovernanceInstructionView, rest: Seq<u8>)
    requires
        instruction_wf(m),
    ensures
        parse_instruction(encode_instruction(m) + rest) == Some(
            (m, encode_instruction(m).len() as int),
        ),
{
    let e = encode_instruction(m);
    let s = e + rest;
    let b = s.skip(1);
    assert(s[0] == e[0]);
    match m {
        GovernanceInstructionView::CreateRealm { name } => {
            assert(b =~= enc_string(name) + rest);
            lemma_string(name, rest);
        },
        GovernanceInstructionView::SetGovernanceDelegate { new_governance_delegate } => {
            assert(b =~= enc_option_key(new_governance_delegate) + rest);
            lemma_option_key(new_governance_delegate, rest);
        },
        GovernanceInstructionView::CreateAccountGovernance { config } => {
            assert(b =~= enc_config(config) + rest);
            lemma_config(config, rest);
        },
        GovernanceInstructionView::CreateProgramGovernance { config, transfer_upgrade_authority } => {
            let t = enc_bool(transfer_upgrade_authority) + rest;
            assert(b =~= enc_config(config) + t);
            lemma_config(config, t);
            assert(b.skip(83) =~= t);
        },
        GovernanceInstructionView::CreateProposal { name, description_link, governing_token_mint } => {
            let t2 = governing_token_mint + rest;
            let t1 = enc_string(description_link) + t2;
            assert(b =~= enc_string(name) + t1);
            lemma_string(name, t1);
            lemma_string(description_link, t2);
            let n1 = enc_string(name).len() as int;
            let n2 = enc_string(description_link).len() as int;
            assert(b.skip(n1) =~= t1);
            assert(b.skip(n1 + n2) =~= t2);
            assert(t2.subrange(0, 32) =~= governing_token_mint);
        },
        GovernanceInstructionView::AddSignatory { signatory } => {
            assert(b.subrange(0, 32) =~= signatory);
        },
        GovernanceInstructionView::RemoveSignatory { signatory } => {
            assert(b.subrange(0, 32) =~= signatory);
        },
        GovernanceInstructionView::InsertInstruction { index, hold_up_time, instruction } => {
            let t2 = enc_instruction_data(instruction) + rest;
            let t1 = enc_u64(hold_up_time) + t2;
            assert(b =~= enc_u16(index) + t1);
            lemma_u16(index, t1);
            lemma_u64(hold_up_time, t2);
            lemma_instruction_data(instruction, rest);
            assert(b.skip(2) =~= t1);
            assert(b.skip(10) =~= t2);
        },
        GovernanceInstructionView::CreateMintGovernance { config, transfer_mint_authority } => {
            let t = enc_bool(transfer_mint_authority) + rest;
            assert(b =~= enc_config(config) + t);
            lemma_config(config, t);
            assert(b.skip(83) =~= t);
        },
        _ => {},
    }
}

proof fn lemma_parse_back_text(s: Seq<u8>)
    requires
        parse_instruction(s) is Some,
        s[0] == 0,
    ensures
        ({
            let (m, n) = parse_instruction(s).unwrap();
            &&& instruction_wf(m)
            &&& 0 <= n <= s.len()
            &&& s.subrange(0, n) == encode_instruction(m)
        }),
{
    let (m, n) = parse_instruction(s).unwrap();
    let b = s.skip(1);
    let tag = s[0];
    lemma_string_back(b);
    assert(s.subrange(0, n) =~= seq![tag] + b.subrange(0, n - 1));
}

proof fn lemma_parse_back_key(s: Seq<u8>)
    requires
        parse_instruction(s) is Some,
        s[0] == 3 || s[0] == 7 || s[0] == 8,
    ensures
        ({
            let (m, n) = parse_instruction(s).unwrap();
            &&& instruction_wf(m)
            &&& 0 <= n <= s.len()
            &&& s.subrange(0, n) == encode_instruction(m)
        }),
{
    let (m, n) = parse_instruction(s).unwrap();
    let b = s.skip(1);
    let tag = s[0];
    if tag == 3 {
        lemma_option_key_back(b);
        assert(s.subrange(0, n) =~= seq![tag] + b.subrange(0, n - 1));
    } else {
        assert(s.subrange(0, n) =~= seq![tag] + b.subrange(0, 32));
    }
}

proof fn lemma_parse_back_config(s: Seq<u8>)
    requires
        parse_instruction(s) is Some,
        s[0] == 4 || s[0] == 5 || s[0] == 17,
    ensures
        ({
            let (m, n) = parse_instruction(s).unwrap();
            &&& instruction_wf(m)
            &&& 0 <= n <= s.len()
            &&& s.subrange(0, n) == encode_instruction(m)
        }),
{
    let (m, n) = parse_instruction(s).unwrap();
    let b = s.skip(1);
    let tag = s[0];
    lemma_config_back(b);
    if tag == 4 {
        assert(s.subrange(0, n) =~= seq![tag] + b.subrange(0, n - 1));
    } else {
        assert(s.subrange(0, n) =~= seq![tag] + b.subrange(0, 83) + b.skip(83).subrange(0, 1));
    }
}

proof fn lemma_parse_back_proposal(s: Seq<u8>)
    requires
        parse_instruction(s) is Some,
        s[0] == 6,
    ensures
        ({
            let (m, n) = parse_instruction(s).unwrap();
            &&& instruction_wf(m)
            &&& 0 <= n <= s.len()
            &&& s.subrange(0, n) == encode_instruction(m)
        }),
{
    let (m, n) = parse_instruction(s).unwrap();
    let b = s.skip(1);
    let tag = s[0];
    lemma_string_back(b);
    let n1 = parse_string(b).unwrap().1;
    lemma_string_back(b.skip(n1));
    let n2 = parse_string(b.skip(n1)).unwrap().1;
    assert(s.subrange(0, n) =~= seq![tag] + b.subrange(0, n1) + b.skip(n1).subrange(0, n2)
        + b.skip(n1 + n2).subrange(0, 32));
}

proof fn lemma_parse_back_insert(s: Seq<u8>)
    requires
        parse_instruction(s) is Some,
        s[0] == 9,
    ensures
        ({
            let (m, n) = parse_instruction(s).unwrap();
            &&& instruction_wf(m)
            &&& 0 <= n <= s.len()
            &&& s.subrange(0, n) == encode_instruction(m)
        }),
{
    let (m, n) = parse_instruction(s).unwrap();
    let b = s.skip(1);
    let tag = s[0];
    lemma_u16_back(b);
    lemma_u64_back(b.skip(2));
    lemma_instruction_data_back(b.skip(10));
    let n3 = parse_instruction_data(b.skip(10)).unwrap().1;
    assert(s.subrange(0, n) =~= seq![tag] + b.subrange(0, 2) + b.skip(2).subrange(0, 8)
        + b.skip(10).subrange(0, n3));
}

/// What the parser reads is an encodable instruction, encoded by the bytes it used.
pub proof fn lemma_parse_back(s: Seq<u8>)
    requires
        parse_instruction(s) is Some,
    ensures
        ({
            let (m, n) = parse_instruction(s).unwrap();
            &&& instruction_wf(m)
            &&& 0 <= n <= s.len()
            &&& s.subrange(0, n) == encode_instruction(m)
        }),
{
    let (m, n) = parse_instruction(s).unwrap();
    let tag = s[0];
    if tag == 0 {
        lemma_parse_back_text(s);
    } else if tag == 3 || tag == 7 || tag == 8 {
        lemma_parse_back_key(s);
    } else if tag == 4 || tag == 5 || tag == 17 {
        lemma_parse_back_config(s);
    } else if tag == 6 {
        lemma_parse_back_proposal(s);
    } else if tag == 9 {
        lemma_parse_back_insert(s);
    } else if tag == 13 {
        assert(s.subrange(0, n) =~= seq![tag, s.skip(1)[0]]);
    } else {
        assert(s.subrange(0, n) =~= seq![tag]);
    }
}

/// Law: the data of an encodable instruction decodes to that instruction.
pub proof fn lemma_decode_encode(m: GovernanceInstructionView)
    requires
        instruction_wf(m),
    ensures
        decode_instruction(encode_instruction(m)) == Some(m),
{
    lemma_parse_encode(m, Seq::empty());
    assert(encode_instruction(m) + Seq::empty() =~= encode_instruction(m));
}

/// Law: bytes that decode are the encoding of what they decode to; an instruction
/// has one encoding and no other bytes are accepted for it.
pub proof fn lemma_encode_decode(s: Seq<u8>)
    requires
        decode_instruction(s) is Some,
    ensures
        instruction_wf(decode_instruction(s).unwrap()),
        encode_instruction(decode_instruction(s).unwrap()) == s,
{
    lemma_parse_back(s);
    assert(s.subrange(0, s.len() as int) =~= s);
}

/// Law: two encodable instructions with the same data are the same instruction.
pub proof fn lemma_encode_injective(a: GovernanceInstructionView, b: GovernanceInstructionView)
    requires
        instruction_wf(a),
        instruction_wf(b),
        encode_instruction(a) == encode_instruction(b),
    ensures
        a == b,
{
    lemma_decode_encode(a);
    lemma_decode_encode(b);
}

/// Every address of an instruction value is 32 bytes long, so a serializable
/// instruction value is encodable.
pub proof fn lemma_value_wf(ix: &GovernanceInstruction)
    requires
        serializable(ix@),
    ensures
        instruction_wf(ix@),
{
    match ix {
        GovernanceInstruction::InsertInstruction { instruction, .. } => {
            let d = instruction@;
            assert forall|i: int| 0 <= i < d.accounts.len() implies #[trigger] is_key(
                d.accounts[i].pubkey,
            ) by {
                assert(d.accounts[i] == instruction.accounts@[i]@);
            }
        },
        _ => {},
    }
}

/// Law: what `try_to_vec` writes, `try_from_slice` reads back as the same instruction.
pub proof fn lemma_roundtrip(ix: &GovernanceInstruction)
    requires
        serializable(ix@),
    ensures
        decode_instruction(encode_instruction(ix@)) == Some(ix@),
{
    lemma_value_wf(ix);
    lemma_decode_encode(ix@);
}

} // verus!
