//! Builders of the governance program's instructions: the accounts of each, in the
//! order that the program reads them, and the instruction data.
use vstd::prelude::*;
use vstd::utf8::encode_utf8;
use crate::pubkey::{
    Pubkey, AccountMeta, AccountMetaView, Instruction, InstructionView, metas_view,
    opt_instruction_view, readonly, writable, system_program_key, spl_token_key,
    rent_sysvar_key, clock_sysvar_key, bpf_loader_upgradeable_key, system_program_id,
    spl_token_id, rent_sysvar_id, clock_sysvar_id, bpf_loader_upgradeable_id,
};
use crate::address::{
    opt_key,
    realm_address, governing_token_holding_address, token_owner_record_address,
    account_governance_address, program_governance_address, mint_governance_address,
    program_data_address, proposal_address, signatory_record_address, vote_record_address,
    proposal_instruction_address, get_realm_address, get_governing_token_holding_address,
    get_token_owner_record_address, get_account_governance_address,
    get_program_governance_address, get_mint_governance_address, get_program_data_address,
    get_proposal_address, get_signatory_record_address, get_vote_record_address,
    get_proposal_instruction_address,
};
use crate::instruction::{
    GovernanceInstruction, GovernanceInstructionView, encode_instruction, decode_instruction,
    instruction_wf, lemma_decode_encode, lemma_roundtrip,
};
use crate::state::{GovernanceConfig, GovernanceConfigView, InstructionData};
use crate::instruction::Vote;
use crate::codec::{enc_u32, enc_u16, string_fits, bytes_fit};
use vstd::bytes::{u32_to_le_bytes, u16_to_le_bytes};

verus! {

/// An instruction of the governance program with the given accounts and data.
pub open spec fn governance_ix(
    program_id: Seq<u8>,
    accounts: Seq<AccountMetaView>,
    m: GovernanceInstructionView,
) -> InstructionView {
    InstructionView { program_id, accounts, data: encode_instruction(m) }
}

/// Law: the data of an instruction that a builder makes decodes to the governance
/// instruction that it was made from.
pub proof fn lemma_built_data_decodes(
    program_id: Seq<u8>,
    accounts: Seq<AccountMetaView>,
    m: GovernanceInstructionView,
)
    requires
        instruction_wf(m),
    ensures
        decode_instruction(governance_ix(program_id, accounts, m).data) == Some(m),
{
    lemma_decode_encode(m);
}

/// Accounts of DepositGoverningTokens.
pub open spec fn deposit_governing_tokens_accounts(
    realm: Seq<u8>,
    holding: Seq<u8>,
    source: Seq<u8>,
    owner: Seq<u8>,
    transfer_authority: Seq<u8>,
    record: Seq<u8>,
    payer: Seq<u8>,
) -> Seq<AccountMetaView> {
    seq![
        readonly(realm, false),
        writable(holding, false),
        writable(source, false),
        readonly(owner, true),
        readonly(transfer_authority, true),
        writable(record, false),
        readonly(payer, true),
        readonly(system_program_key(), false),
        readonly(spl_token_key(), false),
        readonly(rent_sysvar_key(), false),
    ]
}

/// DepositGoverningTokens, where its addresses are found.
pub open spec fn deposit_governing_tokens_spec(
    program_id: Seq<u8>,
    realm: Seq<u8>,
    governing_token_source: Seq<u8>,
    governing_token_owner: Seq<u8>,
    governing_token_transfer_authority: Seq<u8>,
    payer: Seq<u8>,
    governing_token_mint: Seq<u8>,
) -> Option<InstructionView> {
    match (
        token_owner_record_address(program_id, realm, governing_token_mint, governing_token_owner),
        governing_token_holding_address(program_id, realm, governing_token_mint),
    ) {
        (Some(record), Some(holding)) => Some(
            governance_ix(
                program_id,
                deposit_governing_tokens_accounts(
                    realm,
                    holding,
                    governing_token_source,
                    governing_token_owner,
                    governing_token_transfer_authority,
                    record,
                    payer,
                ),
                GovernanceInstructionView::DepositGoverningTokens,
            ),
        ),
        _ => None,
    }
}

/// Creates DepositGoverningTokens instruction
pub fn deposit_governing_tokens(
    program_id: &Pubkey,
    realm: &Pubkey,
    governing_token_source: &Pubkey,
    governing_token_owner: &Pubkey,
    governing_token_transfer_authority: &Pubkey,
    payer: &Pubkey,
    governing_token_mint: &Pubkey,
) -> (r: Option<Instruction>)
    ensures
        opt_instruction_view(r) == deposit_governing_tokens_spec(
            program_id@,
            realm@,
            governing_token_source@,
            governing_token_owner@,
            governing_token_transfer_authority@,
            payer@,
            governing_token_mint@,
        ),
        r matches Some(ix) ==> ix.program_id == *program_id && decode_instruction(ix.data@)
            == Some(GovernanceInstructionView::DepositGoverningTokens),
{
    let token_owner_record_address = match get_token_owner_record_address(
        program_id,
        realm,
        governing_token_mint,
        governing_token_owner,
    ) {
        Some(a) => a,
        None => return None,
    };
    let governing_token_holding_address = match get_governing_token_holding_address(
        program_id,
        realm,
        governing_token_mint,
    ) {
        Some(a) => a,
        None => return None,
    };
    let accounts = vec![
        AccountMeta::new_readonly(*realm, false),
        AccountMeta::new(governing_token_holding_address, false),
        AccountMeta::new(*governing_token_source, false),
        AccountMeta::new_readonly(*governing_token_owner, true),
        AccountMeta::new_readonly(*governing_token_transfer_authority, true),
        AccountMeta::new(token_owner_record_address, false),
        AccountMeta::new_readonly(*payer, true),
        AccountMeta::new_readonly(system_program_id(), false),
        AccountMeta::new_readonly(spl_token_id(), false),
        AccountMeta::new_readonly(rent_sysvar_id(), false),
    ];
    assert(metas_view(accounts@) =~= deposit_governing_tokens_accounts(
        realm@,
        governing_token_holding_address@,
        governing_token_source@,
        governing_token_owner@,
        governing_token_transfer_authority@,
        token_owner_record_address@,
        payer@,
    ));
    let instruction = GovernanceInstruction::DepositGoverningTokens {  };
    let data = instruction.try_to_vec();
    proof {
        lemma_roundtrip(&instruction);
    }
    Some(Instruction { program_id: *program_id, accounts, data })
}

/// Accounts of CreateRealm, without the council's.
pub open spec fn create_realm_accounts(
    realm: Seq<u8>,
    community_token_mint: Seq<u8>,
    community_holding: Seq<u8>,
    payer: Seq<u8>,
) -> Seq<AccountMetaView> {
    seq![
        writable(realm, false),
        readonly(community_token_mint, false),
        writable(community_holding, false),
        readonly(payer, true),
        readonly(system_program_key(), false),
        readonly(spl_token_key(), false),
        readonly(rent_sysvar_key(), false),
    ]
}

/// CreateRealm, where its addresses are found.
pub open spec fn create_realm_spec(
    program_id: Seq<u8>,
    community_token_mint: Seq<u8>,
    payer: Seq<u8>,
    council_token_mint: Option<Seq<u8>>,
    name: Seq<char>,
) -> Option<InstructionView> {
    match realm_address(program_id, name) {
        None => None,
        Some(realm) => match governing_token_holding_address(
            program_id,
            realm,
            community_token_mint,
        ) {
            None => None,
            Some(holding) => {
                let base = create_realm_accounts(realm, community_token_mint, holding, payer);
                let m = GovernanceInstructionView::CreateRealm { name };
                match council_token_mint {
                    None => Some(governance_ix(program_id, base, m)),
                    Some(council) => match governing_token_holding_address(
                        program_id,
                        realm,
                        council,
                    ) {
                        None => None,
                        Some(council_holding) => Some(
                            governance_ix(
                                program_id,
                                base + seq![
                                    readonly(council, false),
                                    writable(council_holding, false),
                                ],
                                m,
                            ),
                        ),
                    },
                }
            },
        },
    }
}

/// Creates CreateRealm instruction
pub fn create_realm(
    program_id: &Pubkey,
    community_token_mint: &Pubkey,
    payer: &Pubkey,
    council_token_mint: Option<Pubkey>,
    name: String,
) -> (r: Option<Instruction>)
    ensures
        opt_instruction_view(r) == create_realm_spec(
            program_id@,
            community_token_mint@,
            payer@,
            opt_key(council_token_mint),
            name@,
        ),
        encode_utf8(name@).len() > 32 ==> r is None,
        r matches Some(ix) ==> ix.program_id == *program_id && decode_instruction(ix.data@)
            == Some(GovernanceInstructionView::CreateRealm { name: name@ }),
{
    let realm_address = match get_realm_address(program_id, name.as_str()) {
        Some(a) => a,
        None => return None,
    };
    let community_token_holding_address = match get_governing_token_holding_address(
        program_id,
        &realm_address,
        community_token_mint,
    ) {
        Some(a) => a,
        None => return None,
    };
    let mut accounts = vec![
        AccountMeta::new(realm_address, false),
        AccountMeta::new_readonly(*community_token_mint, false),
        AccountMeta::new(community_token_holding_address, false),
        AccountMeta::new_readonly(*payer, true),
        AccountMeta::new_readonly(system_program_id(), false),
        AccountMeta::new_readonly(spl_token_id(), false),
        AccountMeta::new_readonly(rent_sysvar_id(), false),
    ];
    let ghost base = create_realm_accounts(
        realm_address@,
        community_token_mint@,
        community_token_holding_address@,
        payer@,
    );
    assert(metas_view(accounts@) =~= base);
    if let Some(council_token_mint) = council_token_mint {
        let council_token_holding_address = match get_governing_token_holding_address(
            program_id,
            &realm_address,
            &council_token_mint,
        ) {
            Some(a) => a,
            None => return None,
        };
        accounts.push(AccountMeta::new_readonly(council_token_mint, false));
        accounts.push(AccountMeta::new(council_token_holding_address, false));
        assert(metas_view(accounts@) =~= base + seq![
            readonly(council_token_mint@, false),
            writable(council_token_holding_address@, false),
        ]);
    }
    let instruction = GovernanceInstruction::CreateRealm { name };
    let data = instruction.try_to_vec();
    proof {
        lemma_roundtrip(&instruction);
    }
    Some(Instruction { program_id: *program_id, accounts, data })
}

/// Accounts of WithdrawGoverningTokens.
pub open spec fn withdraw_governing_tokens_accounts(
    realm: Seq<u8>,
    holding: Seq<u8>,
    destination: Seq<u8>,
    owner: Seq<u8>,
    record: Seq<u8>,
) -> Seq<AccountMetaView> {
    seq![
        readonly(realm, false),
        writable(holding, false),
        writable(destination, false),
        readonly(owner, true),
        writable(record, false),
        readonly(spl_token_key(), false),
    ]
}

/// WithdrawGoverningTokens, where its addresses are found.
pub open spec fn withdraw_governing_tokens_spec(
    program_id: Seq<u8>,
    realm: Seq<u8>,
    governing_token_destination: Seq<u8>,
    governing_token_owner: Seq<u8>,
    governing_token_mint: Seq<u8>,
) -> Option<InstructionView> {
    match (
        token_owner_record_address(program_id, realm, governing_token_mint, governing_token_owner),
        governing_token_holding_address(program_id, realm, governing_token_mint),
    ) {
        (Some(record), Some(holding)) => Some(
            governance_ix(
                program_id,
                withdraw_governing_tokens_accounts(
                    realm,
                    holding,
                    governing_token_destination,
                    governing_token_owner,
                    record,
                ),
                GovernanceInstructionView::WithdrawGoverningTokens,
            ),
        ),
        _ => None,
    }
}

/// Creates WithdrawGoverningTokens instruction
pub fn withdraw_governing_tokens(
    program_id: &Pubkey,
    realm: &Pubkey,
    governing_token_destination: &Pubkey,
    governing_token_owner: &Pubkey,
    governing_token_mint: &Pubkey,
) -> (r: Option<Instruction>)
    ensures
        opt_instruction_view(r) == withdraw_governing_tokens_spec(
            program_id@,
            realm@,
            governing_token_destination@,
            governing_token_owner@,
            governing_token_mint@,
        ),
        r matches Some(ix) ==> ix.program_id == *program_id && decode_instruction(ix.data@)
            == Some(GovernanceInstructionView::WithdrawGoverningTokens),
{
    let token_owner_record_address = match get_token_owner_record_address(
        program_id,
        realm,
        governing_token_mint,
        governing_token_owner,
    ) {
        Some(a) => a,
        None => return None,
    };
    let governing_token_holding_address = match get_governing_token_holding_address(
        program_id,
        realm,
        governing_token_mint,
    ) {
        Some(a) => a,
        None => return None,
    };
    let accounts = vec![
        AccountMeta::new_readonly(*realm, false),
        AccountMeta::new(governing_token_holding_address, false),
        AccountMeta::new(*governing_token_destination, false),
        AccountMeta::new_readonly(*governing_token_owner, true),
        AccountMeta::new(token_owner_record_address, false),
        AccountMeta::new_readonly(spl_token_id(), false),
    ];
    assert(metas_view(accounts@) =~= withdraw_governing_tokens_accounts(
        realm@,
        governing_token_holding_address@,
        governing_token_destination@,
        governing_token_owner@,
        token_owner_record_address@,
    ));
    let instruction = GovernanceInstruction::WithdrawGoverningTokens {  };
    let data = instruction.try_to_vec();
    proof {
        lemma_roundtrip(&instruction);
    }
    Some(Instruction { program_id: *program_id, accounts, data })
}

/// SetGovernanceDelegate, where its address is found.
pub open spec fn set_governance_delegate_spec(
    program_id: Seq<u8>,
    governance_authority: Seq<u8>,
    realm: Seq<u8>,
    governing_token_mint: Seq<u8>,
    governing_token_owner: Seq<u8>,
    new_governance_delegate: Option<Seq<u8>>,
) -> Option<InstructionView> {
    match token_owner_record_address(
        program_id,
        realm,
        governing_token_mint,
        governing_token_owner,
    ) {
        Some(record) => Some(
            governance_ix(
                program_id,
                seq![readonly(governance_authority, true), writable(record, false)],
                GovernanceInstructionView::SetGovernanceDelegate { new_governance_delegate },
            ),
        ),
        None => None,
    }
}

/// Creates SetGovernanceDelegate instruction
pub fn set_governance_delegate(
    program_id: &Pubkey,
    governance_authority: &Pubkey,
    realm: &Pubkey,
    governing_token_mint: &Pubkey,
    governing_token_owner: &Pubkey,
    new_governance_delegate: &Option<Pubkey>,
) -> (r: Option<Instruction>)
    ensures
        opt_instruction_view(r) == set_governance_delegate_spec(
            program_id@,
            governance_authority@,
            realm@,
            governing_token_mint@,
            governing_token_owner@,
            opt_key(*new_governance_delegate),
        ),
        r matches Some(ix) ==> ix.program_id == *program_id && decode_instruction(ix.data@)
            == Some(GovernanceInstructionView::SetGovernanceDelegate {
                new_governance_delegate: opt_key(*new_governance_delegate),
            }),
{
    let vote_record_address = match get_token_owner_record_address(
        program_id,
        realm,
        governing_token_mint,
        governing_token_owner,
    ) {
        Some(a) => a,
        None => return None,
    };
    let accounts = vec![
        AccountMeta::new_readonly(*governance_authority, true),
        AccountMeta::new(vote_record_address, false),
    ];
    assert(metas_view(accounts@) =~= seq![
        readonly(governance_authority@, true),
        writable(vote_record_address@, false),
    ]);
    let instruction = GovernanceInstruction::SetGovernanceDelegate {
        new_governance_delegate: *new_governance_delegate,
    };
    let data = instruction.try_to_vec();
    proof {
        lemma_roundtrip(&instruction);
    }
    Some(Instruction { program_id: *program_id, accounts, data })
}

/// CreateAccountGovernance, where its address is found.
pub open spec fn create_account_governance_spec(
    program_id: Seq<u8>,
    payer: Seq<u8>,
    config: GovernanceConfigView,
) -> Option<InstructionView> {
    match account_governance_address(program_id, config.realm, config.governed_account) {
        Some(governance) => Some(
            governance_ix(
                program_id,
                seq![
                    readonly(config.realm, false),
                    writable(governance, false),
                    readonly(payer, true),
                    readonly(system_program_key(), false),
                    readonly(rent_sysvar_key(), false),
                ],
                GovernanceInstructionView::CreateAccountGovernance { config },
            ),
        ),
        None => None,
    }
}

/// Creates CreateAccountGovernance instruction
pub fn create_account_governance(program_id: &Pubkey, payer: &Pubkey, config: GovernanceConfig) -> (r:
    Option<Instruction>)
    ensures
        opt_instruction_view(r) == create_account_governance_spec(program_id@, payer@, config@),
        r matches Some(ix) ==> ix.program_id == *program_id && decode_instruction(ix.data@)
            == Some(GovernanceInstructionView::CreateAccountGovernance { config: config@ }),
{
    let account_governance_address = match get_account_governance_address(
        program_id,
        &config.realm,
        &config.governed_account,
    ) {
        Some(a) => a,
        None => return None,
    };
    let accounts = vec![
        AccountMeta::new_readonly(config.realm, false),
        AccountMeta::new(account_governance_address, false),
        AccountMeta::new_readonly(*payer, true),
        AccountMeta::new_readonly(system_program_id(), false),
        AccountMeta::new_readonly(rent_sysvar_id(), false),
    ];
    assert(metas_view(accounts@) =~= seq![
        readonly(config.realm@, false),
        writable(account_governance_address@, false),
        readonly(payer@, true),
        readonly(system_program_key(), false),
        readonly(rent_sysvar_key(), false),
    ]);
    let instruction = GovernanceInstruction::CreateAccountGovernance { config };
    let data = instruction.try_to_vec();
    proof {
        lemma_roundtrip(&instruction);
    }
    Some(Instruction { program_id: *program_id, accounts, data })
}

/// Accounts of CreateProgramGovernance.
pub open spec fn create_program_governance_accounts(
    realm: Seq<u8>,
    governance: Seq<u8>,
    program_data: Seq<u8>,
    upgrade_authority: Seq<u8>,
    payer: Seq<u8>,
) -> Seq<AccountMetaView> {
    seq![
        readonly(realm, false),
        writable(governance, false),
        writable(program_data, false),
        readonly(upgrade_authority, true),
        readonly(payer, true),
        readonly(bpf_loader_upgradeable_key(), false),
        readonly(system_program_key(), false),
        readonly(rent_sysvar_key(), false),
    ]
}

/// CreateProgramGovernance, where its addresses are found.
pub open spec fn create_program_governance_spec(
    program_id: Seq<u8>,
    governed_program_upgrade_authority: Seq<u8>,
    payer: Seq<u8>,
    config: GovernanceConfigView,
    transfer_upgrade_authority: bool,
) -> Option<InstructionView> {
    match (
        program_governance_address(program_id, config.realm, config.governed_account),
        program_data_address(config.governed_account),
    ) {
        (Some(governance), Some(program_data)) => Some(
            governance_ix(
                program_id,
                create_program_governance_accounts(
                    config.realm,
                    governance,
                    program_data,
                    governed_program_upgrade_authority,
                    payer,
                ),
                GovernanceInstructionView::CreateProgramGovernance {
                    config,
                    transfer_upgrade_authority,
                },
            ),
        ),
        _ => None,
    }
}

/// Creates CreateProgramGovernance instruction
pub fn create_program_governance(
    program_id: &Pubkey,
    governed_program_upgrade_authority: &Pubkey,
    payer: &Pubkey,
    config: GovernanceConfig,
    transfer_upgrade_authority: bool,
) -> (r: Option<Instruction>)
    ensures
        opt_instruction_view(r) == create_program_governance_spec(
            program_id@,
            governed_program_upgrade_authority@,
            payer@,
            config@,
            transfer_upgrade_authority,
        ),
        r matches Some(ix) ==> ix.program_id == *program_id && decode_instruction(ix.data@)
            == Some(GovernanceInstructionView::CreateProgramGovernance {
                config: config@,
                transfer_upgrade_authority,
            }),
{
    let program_governance_address = match get_program_governance_address(
        program_id,
        &config.realm,
        &config.governed_account,
    ) {
        Some(a) => a,
        None => return None,
    };
    let governed_program_data_address = match get_program_data_address(&config.governed_account) {
        Some(a) => a,
        None => return None,
    };
    let accounts = vec![
        AccountMeta::new_readonly(config.realm, false),
        AccountMeta::new(program_governance_address, false),
        AccountMeta::new(governed_program_data_address, false),
        AccountMeta::new_readonly(*governed_program_upgrade_authority, true),
        AccountMeta::new_readonly(*payer, true),
        AccountMeta::new_readonly(bpf_loader_upgradeable_id(), false),
        AccountMeta::new_readonly(system_program_id(), false),
        AccountMeta::new_readonly(rent_sysvar_id(), false),
    ];
    assert(metas_view(accounts@) =~= create_program_governance_accounts(
        config.realm@,
        program_governance_address@,
        governed_program_data_address@,
        governed_program_upgrade_authority@,
        payer@,
    ));
    let instruction = GovernanceInstruction::CreateProgramGovernance {
        config,
        transfer_upgrade_authority,
    };
    let data = instruction.try_to_vec();
    proof {
        lemma_roundtrip(&instruction);
    }
    Some(Instruction { program_id: *program_id, accounts, data })
}

/// Accounts of CreateMintGovernance.
pub open spec fn create_mint_governance_accounts(
    realm: Seq<u8>,
    governance: Seq<u8>,
    governed_mint: Seq<u8>,
    mint_authority: Seq<u8>,
    payer: Seq<u8>,
) -> Seq<AccountMetaView> {
    seq![
        readonly(realm, false),
        writable(governance, false),
        writable(governed_mint, false),
        readonly(mint_authority, true),
        readonly(payer, true),
        readonly(spl_token_key(), false),
        readonly(system_program_key(), false),
        readonly(rent_sysvar_key(), false),
    ]
}

/// CreateMintGovernance, where its address is found.
pub open spec fn create_mint_governance_spec(
    program_id: Seq<u8>,
    governed_mint_authority: Seq<u8>,
    payer: Seq<u8>,
    config: GovernanceConfigView,
    transfer_mint_authority: bool,
) -> Option<InstructionView> {
    match mint_governance_address(program_id, config.realm, config.governed_account) {
        Some(governance) => Some(
            governance_ix(
                program_id,
                create_mint_governance_accounts(
                    config.realm,
                    governance,
                    config.governed_account,
                    governed_mint_authority,
                    payer,
                ),
                GovernanceInstructionView::CreateMintGovernance { config, transfer_mint_authority },
            ),
        ),
        None => None,
    }
}

/// Creates CreateMintGovernance instruction
pub fn create_mint_governance(
    program_id: &Pubkey,
    governed_mint_authority: &Pubkey,
    payer: &Pubkey,
    config: GovernanceConfig,
    transfer_mint_authority: bool,
) -> (r: Option<Instruction>)
    ensures
        opt_instruction_view(r) == create_mint_governance_spec(
            program_id@,
            governed_mint_authority@,
            payer@,
            config@,
            transfer_mint_authority,
        ),
        r matches Some(ix) ==> ix.program_id == *program_id && decode_instruction(ix.data@)
            == Some(GovernanceInstructionView::CreateMintGovernance {
                config: config@,
                transfer_mint_authority,
            }),
{
    let mint_governance_address = match get_mint_governance_address(
        program_id,
        &config.realm,
        &config.governed_account,
    ) {
        Some(a) => a,
        None => return None,
    };
    let accounts = vec![
        AccountMeta::new_readonly(config.realm, false),
        AccountMeta::new(mint_governance_address, false),
        AccountMeta::new(config.governed_account, false),
        AccountMeta::new_readonly(*governed_mint_authority, true),
        AccountMeta::new_readonly(*payer, true),
        AccountMeta::new_readonly(spl_token_id(), false),
        AccountMeta::new_readonly(system_program_id(), false),
        AccountMeta::new_readonly(rent_sysvar_id(), false),
    ];
    assert(metas_view(accounts@) =~= create_mint_governance_accounts(
        config.realm@,
        mint_governance_address@,
        config.governed_account@,
        governed_mint_authority@,
        payer@,
    ));
    let instruction = GovernanceInstruction::CreateMintGovernance {
        config,
        transfer_mint_authority,
    };
    let data = instruction.try_to_vec();
    proof {
        lemma_roundtrip(&instruction);
    }
    Some(Instruction { program_id: *program_id, accounts, data })
}

/// Accounts of CreateProposal.
pub open spec fn create_proposal_accounts(
    proposal: Seq<u8>,
    governance: Seq<u8>,
    record: Seq<u8>,
    governance_authority: Seq<u8>,
    payer: Seq<u8>,
) -> Seq<AccountMetaView> {
    seq![
        writable(proposal, false),
        writable(governance, false),
        readonly(record, false),
        readonly(governance_authority, true),
        readonly(payer, true),
        readonly(system_program_key(), false),
        readonly(rent_sysvar_key(), false),
        readonly(clock_sysvar_key(), false),
    ]
}

/// CreateProposal, where its addresses are found; the proposal's seed carries the
/// proposal index in little-endian order.
pub open spec fn create_proposal_spec(
    program_id: Seq<u8>,
    governance: Seq<u8>,
    governing_token_owner: Seq<u8>,
    governance_authority: Seq<u8>,
    payer: Seq<u8>,
    realm: Seq<u8>,
    name: Seq<char>,
    description_link: Seq<char>,
    governing_token_mint: Seq<u8>,
    proposal_index: u32,
) -> Option<InstructionView> {
    match (
        proposal_address(program_id, governance, governing_token_mint, enc_u32(proposal_index)),
        token_owner_record_address(program_id, realm, governing_token_mint, governing_token_owner),
    ) {
        (Some(proposal), Some(record)) => Some(
            governance_ix(
                program_id,
                create_proposal_accounts(proposal, governance, record, governance_authority, payer),
                GovernanceInstructionView::CreateProposal {
                    name,
                    description_link,
                    governing_token_mint,
                },
            ),
        ),
        _ => None,
    }
}

/// Creates CreateProposal instruction
pub fn create_proposal(
    program_id: &Pubkey,
    governance: &Pubkey,
    governing_token_owner: &Pubkey,
    governance_authority: &Pubkey,
    payer: &Pubkey,
    realm: &Pubkey,
    name: String,
    description_link: String,
    governing_token_mint: &Pubkey,
    proposal_index: u32,
) -> (r: Option<Instruction>)
    requires
        string_fits(name@),
        string_fits(description_link@),
    ensures
        opt_instruction_view(r) == create_proposal_spec(
            program_id@,
            governance@,
            governing_token_owner@,
            governance_authority@,
            payer@,
            realm@,
            name@,
            description_link@,
            governing_token_mint@,
            proposal_index,
        ),
        r matches Some(ix) ==> ix.program_id == *program_id && decode_instruction(ix.data@)
            == Some(GovernanceInstructionView::CreateProposal {
                name: name@,
                description_link: description_link@,
                governing_token_mint: governing_token_mint@,
            }),
{
    let index_bytes = u32_to_le_bytes(proposal_index);
    let proposal_address = match get_proposal_address(
        program_id,
        governance,
        governing_token_mint,
        index_bytes.as_slice(),
    ) {
        Some(a) => a,
        None => return None,
    };
    let token_owner_record_address = match get_token_owner_record_address(
        program_id,
        realm,
        governing_token_mint,
        governing_token_owner,
    ) {
        Some(a) => a,
        None => return None,
    };
    let accounts = vec![
        AccountMeta::new(proposal_address, false),
        AccountMeta::new(*governance, false),
        AccountMeta::new_readonly(token_owner_record_address, false),
        AccountMeta::new_readonly(*governance_authority, true),
        AccountMeta::new_readonly(*payer, true),
        AccountMeta::new_readonly(system_program_id(), false),
        AccountMeta::new_readonly(rent_sysvar_id(), false),
        AccountMeta::new_readonly(clock_sysvar_id(), false),
    ];
    assert(metas_view(accounts@) =~= create_proposal_accounts(
        proposal_address@,
        governance@,
        token_owner_record_address@,
        governance_authority@,
        payer@,
    ));
    let instruction = GovernanceInstruction::CreateProposal {
        name,
        description_link,
        governing_token_mint: *governing_token_mint,
    };
    let data = instruction.try_to_vec();
    proof {
        lemma_roundtrip(&instruction);
    }
    Some(Instruction { program_id: *program_id, accounts, data })
}

/// Accounts of AddSignatory.
pub open spec fn add_signatory_accounts(
    proposal: Seq<u8>,
    token_owner_record: Seq<u8>,
    governance_authority: Seq<u8>,
    signatory_record: Seq<u8>,
    payer: Seq<u8>,
) -> Seq<AccountMetaView> {
    seq![
        writable(proposal, false),
        readonly(token_owner_record, false),
        readonly(governance_authority, true),
        writable(signatory_record, false),
        readonly(payer, true),
        readonly(system_program_key(), false),
        readonly(rent_sysvar_key(), false),
    ]
}

/// AddSignatory, where its address is found.
pub open spec fn add_signatory_spec(
    program_id: Seq<u8>,
    proposal: Seq<u8>,
    token_owner_record: Seq<u8>,
    governance_authority: Seq<u8>,
    payer: Seq<u8>,
    signatory: Seq<u8>,
) -> Option<InstructionView> {
    match signatory_record_address(program_id, proposal, signatory) {
        Some(record) => Some(
            governance_ix(
                program_id,
                add_signatory_accounts(
                    proposal,
                    token_owner_record,
                    governance_authority,
                    record,
                    payer,
                ),
                GovernanceInstructionView::AddSignatory { signatory },
            ),
        ),
        None => None,
    }
}

/// Creates AddSignatory instruction
pub fn add_signatory(
    program_id: &Pubkey,
    proposal: &Pubkey,
    token_owner_record: &Pubkey,
    governance_authority: &Pubkey,
    payer: &Pubkey,
    signatory: &Pubkey,
) -> (r: Option<Instruction>)
    ensures
        opt_instruction_view(r) == add_signatory_spec(
            program_id@,
            proposal@,
            token_owner_record@,
            governance_authority@,
            payer@,
            signatory@,
        ),
        r matches Some(ix) ==> ix.program_id == *program_id && decode_instruction(ix.data@)
            == Some(GovernanceInstructionView::AddSignatory { signatory: signatory@ }),
{
    let signatory_record_address = match get_signatory_record_address(
        program_id,
        proposal,
        signatory,
    ) {
        Some(a) => a,
        None => return None,
    };
    let accounts = vec![
        AccountMeta::new(*proposal, false),
        AccountMeta::new_readonly(*token_owner_record, false),
        AccountMeta::new_readonly(*governance_authority, true),
        AccountMeta::new(signatory_record_address, false),
        AccountMeta::new_readonly(*payer, true),
        AccountMeta::new_readonly(system_program_id(), false),
        AccountMeta::new_readonly(rent_sysvar_id(), false),
    ];
    assert(metas_view(accounts@) =~= add_signatory_accounts(
        proposal@,
        token_owner_record@,
        governance_authority@,
        signatory_record_address@,
        payer@,
    ));
    let instruction = GovernanceInstruction::AddSignatory { signatory: *signatory };
    let data = instruction.try_to_vec();
    proof {
        lemma_roundtrip(&instruction);
    }
    Some(Instruction { program_id: *program_id, accounts, data })
}

/// RemoveSignatory, where its address is found.
pub open spec fn remove_signatory_spec(
    program_id: Seq<u8>,
    proposal: Seq<u8>,
    token_owner_record: Seq<u8>,
    governance_authority: Seq<u8>,
    signatory: Seq<u8>,
    beneficiary: Seq<u8>,
) -> Option<InstructionView> {
    match signatory_record_address(program_id, proposal, signatory) {
        Some(record) => Some(
            governance_ix(
                program_id,
                seq![
                    writable(proposal, false),
                    readonly(token_owner_record, false),
                    readonly(governance_authority, true),
                    writable(record, false),
                    writable(beneficiary, false),
                ],
                GovernanceInstructionView::RemoveSignatory { signatory },
            ),
        ),
        None => None,
    }
}

/// Creates RemoveSignatory instruction
pub fn remove_signatory(
    program_id: &Pubkey,
    proposal: &Pubkey,
    token_owner_record: &Pubkey,
    governance_authority: &Pubkey,
    signatory: &Pubkey,
    beneficiary: &Pubkey,
) -> (r: Option<Instruction>)
    ensures
        opt_instruction_view(r) == remove_signatory_spec(
            program_id@,
            proposal@,
            token_owner_record@,
            governance_authority@,
            signatory@,
            beneficiary@,
        ),
        r matches Some(ix) ==> ix.program_id == *program_id && decode_instruction(ix.data@)
            == Some(GovernanceInstructionView::RemoveSignatory { signatory: signatory@ }),
{
    let signatory_record_address = match get_signatory_record_address(
        program_id,
        proposal,
        signatory,
    ) {
        Some(a) => a,
        None => return None,
    };
    let accounts = vec![
        AccountMeta::new(*proposal, false),
        AccountMeta::new_readonly(*token_owner_record, false),
        AccountMeta::new_readonly(*governance_authority, true),
        AccountMeta::new(signatory_record_address, false),
        AccountMeta::new(*beneficiary, false),
    ];
    assert(metas_view(accounts@) =~= seq![
        writable(proposal@, false),
        readonly(token_owner_record@, false),
        readonly(governance_authority@, true),
        writable(signatory_record_address@, false),
        writable(beneficiary@, false),
    ]);
    let instruction = GovernanceInstruction::RemoveSignatory { signatory: *signatory };
    let data = instruction.try_to_vec();
    proof {
        lemma_roundtrip(&instruction);
    }
    Some(Instruction { program_id: *program_id, accounts, data })
}

/// SignOffProposal, where its address is found.
pub open spec fn sign_off_proposal_spec(
    program_id: Seq<u8>,
    proposal: Seq<u8>,
    signatory: Seq<u8>,
) -> Option<InstructionView> {
    match signatory_record_address(program_id, proposal, signatory) {
        Some(record) => Some(
            governance_ix(
                program_id,
                seq![
                    writable(proposal, false),
                    writable(record, false),
                    readonly(signatory, true),
                    readonly(clock_sysvar_key(), false),
                ],
                GovernanceInstructionView::SignOffProposal,
            ),
        ),
        None => None,
    }
}

/// Creates SignOffProposal instruction
pub fn sign_off_proposal(program_id: &Pubkey, proposal: &Pubkey, signatory: &Pubkey) -> (r: Option<
    Instruction,
>)
    ensures
        opt_instruction_view(r) == sign_off_proposal_spec(program_id@, proposal@, signatory@),
        r matches Some(ix) ==> ix.program_id == *program_id && decode_instruction(ix.data@)
            == Some(GovernanceInstructionView::SignOffProposal),
{
    let signatory_record_address = match get_signatory_record_address(
        program_id,
        proposal,
        signatory,
    ) {
        Some(a) => a,
        None => return None,
    };
    let accounts = vec![
        AccountMeta::new(*proposal, false),
        AccountMeta::new(signatory_record_address, false),
        AccountMeta::new_readonly(*signatory, true),
        AccountMeta::new_readonly(clock_sysvar_id(), false),
    ];
    assert(metas_view(accounts@) =~= seq![
        writable(proposal@, false),
        writable(signatory_record_address@, false),
        readonly(signatory@, true),
        readonly(clock_sysvar_key(), false),
    ]);
    let instruction = GovernanceInstruction::SignOffProposal;
    let data = instruction.try_to_vec();
    proof {
        lemma_roundtrip(&instruction);
    }
    Some(Instruction { program_id: *program_id, accounts, data })
}

/// Accounts of CastVote.
pub open spec fn cast_vote_accounts(
    governance: Seq<u8>,
    proposal: Seq<u8>,
    token_owner_record: Seq<u8>,
    governance_authority: Seq<u8>,
    vote_record: Seq<u8>,
    governing_token_mint: Seq<u8>,
    payer: Seq<u8>,
) -> Seq<AccountMetaView> {
    seq![
        readonly(governance, false),
        writable(proposal, false),
        writable(token_owner_record, false),
        readonly(governance_authority, true),
        writable(vote_record, false),
        readonly(governing_token_mint, false),
        readonly(payer, true),
        readonly(system_program_key(), false),
        readonly(rent_sysvar_key(), false),
        readonly(clock_sysvar_key(), false),
    ]
}

/// CastVote, where its address is found.
pub open spec fn cast_vote_spec(
    program_id: Seq<u8>,
    governance: Seq<u8>,
    proposal: Seq<u8>,
    token_owner_record: Seq<u8>,
    governance_authority: Seq<u8>,
    governing_token_mint: Seq<u8>,
    payer: Seq<u8>,
    vote: Vote,
) -> Option<InstructionView> {
    match vote_record_address(program_id, proposal, token_owner_record) {
        Some(record) => Some(
            governance_ix(
                program_id,
                cast_vote_accounts(
                    governance,
                    proposal,
                    token_owner_record,
                    governance_authority,
                    record,
                    governing_token_mint,
                    payer,
                ),
                GovernanceInstructionView::CastVote { vote },
            ),
        ),
        None => None,
    }
}

/// Creates CastVote instruction
pub fn cast_vote(
    program_id: &Pubkey,
    governance: &Pubkey,
    proposal: &Pubkey,
    token_owner_record: &Pubkey,
    governance_authority: &Pubkey,
    governing_token_mint: &Pubkey,
    payer: &Pubkey,
    vote: Vote,
) -> (r: Option<Instruction>)
    ensures
        opt_instruction_view(r) == cast_vote_spec(
            program_id@,
            governance@,
            proposal@,
            token_owner_record@,
            governance_authority@,
            governing_token_mint@,
            payer@,
            vote,
        ),
        r matches Some(ix) ==> ix.program_id == *program_id && decode_instruction(ix.data@)
            == Some(GovernanceInstructionView::CastVote { vote }),
{
    let vote_record_address = match get_vote_record_address(
        program_id,
        proposal,
        token_owner_record,
    ) {
        Some(a) => a,
        None => return None,
    };
    let accounts = vec![
        AccountMeta::new_readonly(*governance, false),
        AccountMeta::new(*proposal, false),
        AccountMeta::new(*token_owner_record, false),
        AccountMeta::new_readonly(*governance_authority, true),
        AccountMeta::new(vote_record_address, false),
        AccountMeta::new_readonly(*governing_token_mint, false),
        AccountMeta::new_readonly(*payer, true),
        AccountMeta::new_readonly(system_program_id(), false),
        AccountMeta::new_readonly(rent_sysvar_id(), false),
        AccountMeta::new_readonly(clock_sysvar_id(), false),
    ];
    assert(metas_view(accounts@) =~= cast_vote_accounts(
        governance@,
        proposal@,
        token_owner_record@,
        governance_authority@,
        vote_record_address@,
        governing_token_mint@,
        payer@,
    ));
    let instruction = GovernanceInstruction::CastVote { vote };
    let data = instruction.try_to_vec();
    proof {
        lemma_roundtrip(&instruction);
    }
    Some(Instruction { program_id: *program_id, accounts, data })
}

/// FinalizeVote.
pub open spec fn finalize_vote_spec(
    program_id: Seq<u8>,
    governance: Seq<u8>,
    proposal: Seq<u8>,
    governing_token_mint: Seq<u8>,
) -> InstructionView {
    governance_ix(
        program_id,
        seq![
            readonly(governance, false),
            writable(proposal, false),
            readonly(governing_token_mint, false),
            readonly(clock_sysvar_key(), false),
        ],
        GovernanceInstructionView::FinalizeVote,
    )
}

/// Creates FinalizeVote instruction
pub fn finalize_vote(
    program_id: &Pubkey,
    governance: &Pubkey,
    proposal: &Pubkey,
    governing_token_mint: &Pubkey,
) -> (r: Instruction)
    ensures
        r@ == finalize_vote_spec(program_id@, governance@, proposal@, governing_token_mint@),
        r.program_id == *program_id,
        decode_instruction(r.data@) == Some(GovernanceInstructionView::FinalizeVote),
{
    let accounts = vec![
        AccountMeta::new_readonly(*governance, false),
        AccountMeta::new(*proposal, false),
        AccountMeta::new_readonly(*governing_token_mint, false),
        AccountMeta::new_readonly(clock_sysvar_id(), false),
    ];
    assert(metas_view(accounts@) =~= seq![
        readonly(governance@, false),
        writable(proposal@, false),
        readonly(governing_token_mint@, false),
        readonly(clock_sysvar_key(), false),
    ]);
    let instruction = GovernanceInstruction::FinalizeVote {  };
    let data = instruction.try_to_vec();
    proof {
        lemma_roundtrip(&instruction);
    }
    Instruction { program_id: *program_id, accounts, data }
}

/// Accounts of RelinquishVote, without the optional ones.
pub open spec fn relinquish_vote_accounts(
    governance: Seq<u8>,
    proposal: Seq<u8>,
    token_owner_record: Seq<u8>,
    vote_record: Seq<u8>,
    governing_token_mint: Seq<u8>,
) -> Seq<AccountMetaView> {
    seq![
        readonly(governance, false),
        writable(proposal, false),
        writable(token_owner_record, false),
        writable(vote_record, false),
        readonly(governing_token_mint, false),
    ]
}

/// RelinquishVote, where its address is found; the governance authority (a signer)
/// and the beneficiary follow when an authority is given.
pub open spec fn relinquish_vote_spec(
    program_id: Seq<u8>,
    governance: Seq<u8>,
    proposal: Seq<u8>,
    token_owner_record: Seq<u8>,
    governing_token_mint: Seq<u8>,
    governance_authority: Option<Seq<u8>>,
    beneficiary: Option<Seq<u8>>,
) -> Option<InstructionView> {
    match vote_record_address(program_id, proposal, token_owner_record) {
        Some(record) => {
            let base = relinquish_vote_accounts(
                governance,
                proposal,
                token_owner_record,
                record,
                governing_token_mint,
            );
            let accounts = match governance_authority {
                Some(authority) => base + seq![
                    readonly(authority, true),
                    writable(beneficiary.unwrap(), false),
                ],
                None => base,
            };
            Some(governance_ix(program_id, accounts, GovernanceInstructionView::RelinquishVote))
        },
        None => None,
    }
}

/// Creates RelinquishVote instruction
pub fn relinquish_vote(
    program_id: &Pubkey,
    governance: &Pubkey,
    proposal: &Pubkey,
    token_owner_record: &Pubkey,
    governing_token_mint: &Pubkey,
    governance_authority: Option<Pubkey>,
    beneficiary: Option<Pubkey>,
) -> (r: Option<Instruction>)
    requires
        governance_authority is Some ==> beneficiary is Some,
    ensures
        opt_instruction_view(r) == relinquish_vote_spec(
            program_id@,
            governance@,
            proposal@,
            token_owner_record@,
            governing_token_mint@,
            opt_key(governance_authority),
            opt_key(beneficiary),
        ),
        r matches Some(ix) ==> ix.program_id == *program_id && decode_instruction(ix.data@)
            == Some(GovernanceInstructionView::RelinquishVote),
{
    let vote_record_address = match get_vote_record_address(
        program_id,
        proposal,
        token_owner_record,
    ) {
        Some(a) => a,
        None => return None,
    };
    let mut accounts = vec![
        AccountMeta::new_readonly(*governance, false),
        AccountMeta::new(*proposal, false),
        AccountMeta::new(*token_owner_record, false),
        AccountMeta::new(vote_record_address, false),
        AccountMeta::new_readonly(*governing_token_mint, false),
    ];
    let ghost base = relinquish_vote_accounts(
        governance@,
        proposal@,
        token_owner_record@,
        vote_record_address@,
        governing_token_mint@,
    );
    assert(metas_view(accounts@) =~= base);
    if let Some(governance_authority) = governance_authority {
        let beneficiary = beneficiary.unwrap();
        accounts.push(AccountMeta::new_readonly(governance_authority, true));
        accounts.push(AccountMeta::new(beneficiary, false));
        assert(metas_view(accounts@) =~= base + seq![
            readonly(governance_authority@, true),
            writable(beneficiary@, false),
        ]);
    }
    let instruction = GovernanceInstruction::RelinquishVote;
    let data = instruction.try_to_vec();
    proof {
        lemma_roundtrip(&instruction);
    }
    Some(Instruction { program_id: *program_id, accounts, data })
}

/// CancelProposal.
pub open spec fn cancel_proposal_spec(
    program_id: Seq<u8>,
    proposal: Seq<u8>,
    token_owner_record: Seq<u8>,
    governance_authority: Seq<u8>,
) -> InstructionView {
    governance_ix(
        program_id,
        seq![
            writable(proposal, false),
            readonly(token_owner_record, false),
            readonly(governance_authority, true),
            readonly(clock_sysvar_key(), false),
        ],
        GovernanceInstructionView::CancelProposal,
    )
}

/// Creates CancelProposal instruction
pub fn cancel_proposal(
    program_id: &Pubkey,
    proposal: &Pubkey,
    token_owner_record: &Pubkey,
    governance_authority: &Pubkey,
) -> (r: Instruction)
    ensures
        r@ == cancel_proposal_spec(program_id@, proposal@, token_owner_record@, governance_authority@),
        r.program_id == *program_id,
        decode_instruction(r.data@) == Some(GovernanceInstructionView::CancelProposal),
{
    let accounts = vec![
        AccountMeta::new(*proposal, false),
        AccountMeta::new_readonly(*token_owner_record, false),
        AccountMeta::new_readonly(*governance_authority, true),
        AccountMeta::new_readonly(clock_sysvar_id(), false),
    ];
    assert(metas_view(accounts@) =~= seq![
        writable(proposal@, false),
        readonly(token_owner_record@, false),
        readonly(governance_authority@, true),
        readonly(clock_sysvar_key(), false),
    ]);
    let instruction = GovernanceInstruction::CancelProposal;
    let data = instruction.try_to_vec();
    proof {
        lemma_roundtrip(&instruction);
    }
    Instruction { program_id: *program_id, accounts, data }
}

/// Accounts of InsertInstruction.
pub open spec fn insert_instruction_accounts(
    governance: Seq<u8>,
    proposal: Seq<u8>,
    token_owner_record: Seq<u8>,
    governance_authority: Seq<u8>,
    proposal_instruction: Seq<u8>,
    payer: Seq<u8>,
) -> Seq<AccountMetaView> {
    seq![
        readonly(governance, false),
        writable(proposal, false),
        readonly(token_owner_record, false),
        readonly(governance_authority, true),
        writable(proposal_instruction, false),
        readonly(payer, true),
        readonly(system_program_key(), false),
        readonly(clock_sysvar_key(), false),
    ]
}

/// InsertInstruction, where its address is found; the proposal instruction's seed
/// carries the index in little-endian order.
pub open spec fn insert_instruction_spec(
    program_id: Seq<u8>,
    governance: Seq<u8>,
    proposal: Seq<u8>,
    token_owner_record: Seq<u8>,
    governance_authority: Seq<u8>,
    payer: Seq<u8>,
    index: u16,
    hold_up_time: u64,
    instruction: InstructionView,
) -> Option<InstructionView> {
    match proposal_instruction_address(program_id, proposal, enc_u16(index)) {
        Some(address) => Some(
            governance_ix(
                program_id,
                insert_instruction_accounts(
                    governance,
                    proposal,
                    token_owner_record,
                    governance_authority,
                    address,
                    payer,
                ),
                GovernanceInstructionView::InsertInstruction { index, hold_up_time, instruction },
            ),
        ),
        None => None,
    }
}

/// Creates InsertInstruction instruction
pub fn insert_instruction(
    program_id: &Pubkey,
    governance: &Pubkey,
    proposal: &Pubkey,
    token_owner_record: &Pubkey,
    governance_authority: &Pubkey,
    payer: &Pubkey,
    index: u16,
    hold_up_time: u64,
    instruction: InstructionData,
) -> (r: Option<Instruction>)
    requires
        instruction.accounts@.len() <= u32::MAX,
        bytes_fit(instruction.data@),
    ensures
        opt_instruction_view(r) == insert_instruction_spec(
            program_id@,
            governance@,
            proposal@,
            token_owner_record@,
            governance_authority@,
            payer@,
            index,
            hold_up_time,
            instruction@,
        ),
        r matches Some(ix) ==> ix.program_id == *program_id && decode_instruction(ix.data@)
            == Some(GovernanceInstructionView::InsertInstruction {
                index,
                hold_up_time,
                instruction: instruction@,
            }),
{
    let index_bytes = u16_to_le_bytes(index);
    let proposal_instruction_address = match get_proposal_instruction_address(
        program_id,
        proposal,
        index_bytes.as_slice(),
    ) {
        Some(a) => a,
        None => return None,
    };
    let accounts = vec![
        AccountMeta::new_readonly(*governance, false),
        AccountMeta::new(*proposal, false),
        AccountMeta::new_readonly(*token_owner_record, false),
        AccountMeta::new_readonly(*governance_authority, true),
        AccountMeta::new(proposal_instruction_address, false),
        AccountMeta::new_readonly(*payer, true),
        AccountMeta::new_readonly(system_program_id(), false),
        AccountMeta::new_readonly(clock_sysvar_id(), false),
    ];
    assert(metas_view(accounts@) =~= insert_instruction_accounts(
        governance@,
        proposal@,
        token_owner_record@,
        governance_authority@,
        proposal_instruction_address@,
        payer@,
    ));
    let instruction = GovernanceInstruction::InsertInstruction { index, hold_up_time, instruction };
    let data = instruction.try_to_vec();
    proof {
        lemma_roundtrip(&instruction);
    }
    Some(Instruction { program_id: *program_id, accounts, data })
}

/// RemoveInstruction.
pub open spec fn remove_instruction_spec(
    program_id: Seq<u8>,
    proposal: Seq<u8>,
    token_owner_record: Seq<u8>,
    governance_authority: Seq<u8>,
    proposal_instruction: Seq<u8>,
    beneficiary: Seq<u8>,
) -> InstructionView {
    governance_ix(
        program_id,
        seq![
            writable(proposal, false),
            readonly(token_owner_record, false),
            readonly(governance_authority, true),
            writable(proposal_instruction, false),
            writable(beneficiary, false),
        ],
        GovernanceInstructionView::RemoveInstruction,
    )
}

/// Creates RemoveInstruction instruction
pub fn remove_instruction(
    program_id: &Pubkey,
    proposal: &Pubkey,
    token_owner_record: &Pubkey,
    governance_authority: &Pubkey,
    proposal_instruction: &Pubkey,
    beneficiary: &Pubkey,
) -> (r: Instruction)
    ensures
        r@ == remove_instruction_spec(
            program_id@,
            proposal@,
            token_owner_record@,
            governance_authority@,
            proposal_instruction@,
            beneficiary@,
        ),
        r.program_id == *program_id,
        decode_instruction(r.data@) == Some(GovernanceInstructionView::RemoveInstruction),
{
    let accounts = vec![
        AccountMeta::new(*proposal, false),
        AccountMeta::new_readonly(*token_owner_record, false),
        AccountMeta::new_readonly(*governance_authority, true),
        AccountMeta::new(*proposal_instruction, false),
        AccountMeta::new(*beneficiary, false),
    ];
    assert(metas_view(accounts@) =~= seq![
        writable(proposal@, false),
        readonly(token_owner_record@, false),
        readonly(governance_authority@, true),
        writable(proposal_instruction@, false),
        writable(beneficiary@, false),
    ]);
    let instruction = GovernanceInstruction::RemoveInstruction;
    let data = instruction.try_to_vec();
    proof {
        lemma_roundtrip(&instruction);
    }
    Instruction { program_id: *program_id, accounts, data }
}

/// ExecuteInstruction: the proposal, the proposal instruction and the clock, then the
/// accounts that are part of the executed instruction, in order: its program, then
/// its own accounts.
pub open spec fn execute_instruction_spec(
    program_id: Seq<u8>,
    proposal: Seq<u8>,
    proposal_instruction: Seq<u8>,
    instruction_program_id: Seq<u8>,
    instruction_accounts: Seq<AccountMetaView>,
) -> InstructionView {
    governance_ix(
        program_id,
        seq![
            writable(proposal, false),
            writable(proposal_instruction, false),
            readonly(clock_sysvar_key(), false),
            readonly(instruction_program_id, false),
        ] + instruction_accounts,
        GovernanceInstructionView::ExecuteInstruction,
    )
}

/// Creates ExecuteInstruction instruction
pub fn execute_instruction(
    program_id: &Pubkey,
    governance: &Pubkey,
    proposal: &Pubkey,
    proposal_instruction: &Pubkey,
    instruction_program_id: &Pubkey,
    instruction_accounts: &[AccountMeta],
) -> (r: Instruction)
    ensures
        r@ == execute_instruction_spec(
            program_id@,
            proposal@,
            proposal_instruction@,
            instruction_program_id@,
            metas_view(instruction_accounts@),
        ),
        r.accounts@.len() == 4 + instruction_accounts@.len(),
        forall|i: int|
            0 <= i < instruction_accounts@.len() ==> #[trigger] r.accounts@[4 + i]
                == instruction_accounts@[i],
        r.program_id == *program_id,
        decode_instruction(r.data@) == Some(GovernanceInstructionView::ExecuteInstruction),
{
    let mut accounts = vec![
        AccountMeta::new(*proposal, false),
        AccountMeta::new(*proposal_instruction, false),
        AccountMeta::new_readonly(clock_sysvar_id(), false),
        AccountMeta::new_readonly(*instruction_program_id, false),
    ];
    let ghost base = seq![
        writable(proposal@, false),
        writable(proposal_instruction@, false),
        readonly(clock_sysvar_key(), false),
        readonly(instruction_program_id@, false),
    ];
    assert(metas_view(accounts@) =~= base);
    let n = instruction_accounts.len();
    for i in 0..n
        invariant
            n == instruction_accounts@.len(),
            metas_view(accounts@) == base + metas_view(instruction_accounts@.take(i as int)),
            accounts@.len() == 4 + i,
            forall|j: int| 0 <= j < i ==> #[trigger] accounts@[4 + j] == instruction_accounts@[j],
    {
        let ghost before = accounts@;
        let a = instruction_accounts[i];
        accounts.push(a);
        assert(metas_view(accounts@) =~= metas_view(before).push(a@));
        assert(metas_view(instruction_accounts@.take(i + 1)) =~= metas_view(
            instruction_accounts@.take(i as int),
        ).push(instruction_accounts@[i as int]@));
        assert(metas_view(accounts@) =~= base + metas_view(instruction_accounts@.take(i + 1)));
    }
    assert(instruction_accounts@.take(n as int) =~= instruction_accounts@);
    let instruction = GovernanceInstruction::ExecuteInstruction;
    let data = instruction.try_to_vec();
    proof {
        lemma_roundtrip(&instruction);
    }
    Instruction { program_id: *program_id, accounts, data }
}

} // verus!
