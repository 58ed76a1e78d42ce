//! What the addresses and the builders are, stated from first principles: each
//! address is the program derived address of the documented seeds, written out byte
//! by byte; each built instruction carries the caller's program id, the documented
//! accounts in order, and data that decodes to the instruction variant holding
//! exactly the caller's arguments.
use vstd::prelude::*;
use vstd::bytes::{spec_u16_to_le_bytes, spec_u32_to_le_bytes};
use vstd::utf8::encode_utf8;
use crate::codec::{is_key, string_fits};
use crate::pubkey::{
    AccountMetaView, Instruction, InstructionView, program_address, readonly, writable, system_program_key, spl_token_key,
    rent_sysvar_key, clock_sysvar_key, bpf_loader_upgradeable_key,
};
use crate::address::{
    realm_address, governing_token_holding_address, token_owner_record_address,
    account_governance_address, program_governance_address, mint_governance_address,
    program_data_address, proposal_address, signatory_record_address, vote_record_address,
    proposal_instruction_address,
};
use crate::state::{GovernanceConfigView, config_wf, instruction_data_wf};
use crate::instruction::{GovernanceInstructionView, Vote, decode_instruction, lemma_decode_encode};
use crate::builders::{
    create_realm_spec, deposit_governing_tokens_spec, withdraw_governing_tokens_spec,
    set_governance_delegate_spec, create_account_governance_spec, create_program_governance_spec,
    create_mint_governance_spec, create_proposal_spec, add_signatory_spec, remove_signatory_spec,
    sign_off_proposal_spec, cast_vote_spec, finalize_vote_spec, relinquish_vote_spec,
    cancel_proposal_spec, insert_instruction_spec, remove_instruction_spec,
    execute_instruction_spec,
};

verus! {

/// The bytes of "governance".
pub open spec fn text_governance() -> Seq<u8> {
    seq![103u8, 111u8, 118u8, 101u8, 114u8, 110u8, 97u8, 110u8, 99u8, 101u8]
}

/// The bytes of "account-governance".
pub open spec fn text_account_governance() -> Seq<u8> {
    seq![
        97u8, 99u8, 99u8, 111u8, 117u8, 110u8, 116u8, 45u8, 103u8, 111u8, 118u8, 101u8, 114u8,
        110u8, 97u8, 110u8, 99u8, 101u8,
    ]
}

/// The bytes of "program-governance".
pub open spec fn text_program_governance() -> Seq<u8> {
    seq![
        112u8, 114u8, 111u8, 103u8, 114u8, 97u8, 109u8, 45u8, 103u8, 111u8, 118u8, 101u8, 114u8,
        110u8, 97u8, 110u8, 99u8, 101u8,
    ]
}

/// The bytes of "mint-governance".
pub open spec fn text_mint_governance() -> Seq<u8> {
    seq![
        109u8, 105u8, 110u8, 116u8, 45u8, 103u8, 111u8, 118u8, 101u8, 114u8, 110u8, 97u8, 110u8,
        99u8, 101u8,
    ]
}

/// The address, without its bump seed, that `solana_program` derives from `seeds`.
pub open spec fn pda(seeds: Seq<Seq<u8>>, program_id: Seq<u8>) -> Option<Seq<u8>> {
    match program_address(seeds, program_id) {
        Some((k, _)) => Some(k),
        None => None,
    }
}

/// An account entry.
pub open spec fn am(pubkey: Seq<u8>, is_signer: bool, is_writable: bool) -> AccountMetaView {
    AccountMetaView { pubkey, is_signer, is_writable }
}

/// Law: every governance address is the program derived address of exactly its
/// documented seeds, unchanged: the realm from ['governance', the UTF-8 bytes of the
/// name]; the holding account from ['governance', realm, mint]; the token owner record
/// from ['governance', realm, mint, owner]; the account, program and mint governances
/// from ['account-governance' | 'program-governance' | 'mint-governance', realm,
/// governed]; the program data from [program] under the upgradeable loader; the
/// proposal from ['governance', governance, mint, index bytes]; the signatory record
/// from ['governance', proposal, signatory]; the vote record from ['governance',
/// proposal, token owner record]; the proposal instruction from ['governance',
/// proposal, index bytes].
pub proof fn law_addresses(p: Seq<u8>, name: Seq<char>, x: Seq<u8>, y: Seq<u8>, z: Seq<u8>)
    ensures
        realm_address(p, name) == pda(seq![text_governance(), encode_utf8(name)], p),
        governing_token_holding_address(p, x, y) == pda(seq![text_governance(), x, y], p),
        token_owner_record_address(p, x, y, z) == pda(seq![text_governance(), x, y, z], p),
        account_governance_address(p, x, y) == pda(seq![text_account_governance(), x, y], p),
        program_governance_address(p, x, y) == pda(seq![text_program_governance(), x, y], p),
        mint_governance_address(p, x, y) == pda(seq![text_mint_governance(), x, y], p),
        program_data_address(x) == pda(seq![x], bpf_loader_upgradeable_key()),
        proposal_address(p, x, y, z) == pda(seq![text_governance(), x, y, z], p),
        signatory_record_address(p, x, y) == pda(seq![text_governance(), x, y], p),
        vote_record_address(p, x, y) == pda(seq![text_governance(), x, y], p),
        proposal_instruction_address(p, x, y) == pda(seq![text_governance(), x, y], p),
{
    assert(seq![text_governance(), encode_utf8(name)] =~= seq![
        crate::address::governance_seed(),
        encode_utf8(name),
    ]);
    assert(text_account_governance() =~= crate::address::account_governance_seed());
    assert(text_program_governance() =~= crate::address::program_governance_seed());
    assert(text_mint_governance() =~= crate::address::mint_governance_seed());
}

/// Law: CreateRealm carries the realm (writable), the community mint, the community
/// holding account (writable), the payer (signer), the system program, the token
/// program and the rent sysvar, then, with a council mint, the council mint and its
/// holding account (writable); its data decodes to CreateRealm with the given name.
/// There is an instruction exactly where these addresses exist.
pub proof fn law_create_realm(
    p: Seq<u8>,
    community_mint: Seq<u8>,
    payer: Seq<u8>,
    council_mint: Option<Seq<u8>>,
    name: Seq<char>,
)
    requires
        string_fits(name),
    ensures
        match pda(seq![text_governance(), encode_utf8(name)], p) {
            None => create_realm_spec(p, community_mint, payer, council_mint, name) is None,
            Some(realm) => match pda(seq![text_governance(), realm, community_mint], p) {
                None => create_realm_spec(p, community_mint, payer, council_mint, name) is None,
                Some(holding) => {
                    let base = seq![
                        am(realm, false, true),
                        am(community_mint, false, false),
                        am(holding, false, true),
                        am(payer, true, false),
                        am(system_program_key(), false, false),
                        am(spl_token_key(), false, false),
                        am(rent_sysvar_key(), false, false),
                    ];
                    match council_mint {
                        None => create_realm_spec(p, community_mint, payer, council_mint, name)
                            matches Some(ix) && ix.program_id == p && ix.accounts == base
                            && decode_instruction(ix.data) == Some(
                            GovernanceInstructionView::CreateRealm { name },
                        ),
                        Some(c) => match pda(seq![text_governance(), realm, c], p) {
                            None => create_realm_spec(
                                p,
                                community_mint,
                                payer,
                                council_mint,
                                name,
                            ) is None,
                            Some(council_holding) => create_realm_spec(
                                p,
                                community_mint,
                                payer,
                                council_mint,
                                name,
                            ) matches Some(ix) && ix.program_id == p && ix.accounts == base
                                + seq![am(c, false, false), am(council_holding, false, true)]
                                && decode_instruction(ix.data) == Some(
                                GovernanceInstructionView::CreateRealm { name },
                            ),
                        },
                    }
                },
            },
        },
{
    law_addresses(p, name, Seq::empty(), Seq::empty(), Seq::empty());
    if let Some(realm) = pda(seq![text_governance(), encode_utf8(name)], p) {
        law_addresses(p, name, realm, community_mint, Seq::empty());
        if let Some(c) = council_mint {
            law_addresses(p, name, realm, c, Seq::empty());
        }
    }
    lemma_decode_encode(GovernanceInstructionView::CreateRealm { name });
}

/// Law: CastVote carries the governance, the proposal (writable), the token owner
/// record (writable), the governance authority (signer), the vote record of
/// ['governance', proposal, token owner record] (writable), the mint, the payer
/// (signer), the system program and the rent and clock sysvars; its data decodes to
/// CastVote with exactly the given vote.
pub proof fn law_cast_vote(
    p: Seq<u8>,
    governance: Seq<u8>,
    proposal: Seq<u8>,
    record: Seq<u8>,
    authority: Seq<u8>,
    mint: Seq<u8>,
    payer: Seq<u8>,
    vote: Vote,
)
    ensures
        match pda(seq![text_governance(), proposal, record], p) {
            None => cast_vote_spec(p, governance, proposal, record, authority, mint, payer, vote) is None,
            Some(vote_record) => cast_vote_spec(
                p,
                governance,
                proposal,
                record,
                authority,
                mint,
                payer,
                vote,
            ) matches Some(ix) && ix.program_id == p && ix.accounts == seq![
                am(governance, false, false),
                am(proposal, false, true),
                am(record, false, true),
                am(authority, true, false),
                am(vote_record, false, true),
                am(mint, false, false),
                am(payer, true, false),
                am(system_program_key(), false, false),
                am(rent_sysvar_key(), false, false),
                am(clock_sysvar_key(), false, false),
            ] && decode_instruction(ix.data) == Some(GovernanceInstructionView::CastVote { vote }),
        },
{
    law_addresses(p, Seq::empty(), proposal, record, Seq::empty());
    lemma_decode_encode(GovernanceInstructionView::CastVote { vote });
}

/// Law: DepositGoverningTokens carries the realm, the holding account of ['governance',
/// realm, mint] (writable), the source (writable), the owner and the transfer authority
/// (signers), the token owner record of ['governance', realm, mint, owner] (writable),
/// the payer (signer), the system and token programs and the rent sysvar.
pub proof fn law_deposit_governing_tokens(
    p: Seq<u8>,
    realm: Seq<u8>,
    source: Seq<u8>,
    owner: Seq<u8>,
    authority: Seq<u8>,
    payer: Seq<u8>,
    mint: Seq<u8>,
)
    ensures
        match pda(seq![text_governance(), realm, mint, owner], p) {
        None => deposit_governing_tokens_spec(p, realm, source, owner, authority, payer, mint) is None,
        Some(rec) => match pda(seq![text_governance(), realm, mint], p) {
        None => deposit_governing_tokens_spec(p, realm, source, owner, authority, payer, mint) is None,
        Some(holding) => deposit_governing_tokens_spec(p, realm, source, owner, authority, payer, mint) matches Some(ix) && ix.program_id == p && ix.accounts == seq![
            am(realm, false, false),
            am(holding, false, true),
            am(source, false, true),
            am(owner, true, false),
            am(authority, true, false),
            am(rec, false, true),
            am(payer, true, false),
            am(system_program_key(), false, false),
            am(spl_token_key(), false, false),
            am(rent_sysvar_key(), false, false),
        ] && decode_instruction(ix.data) == Some(GovernanceInstructionView::DepositGoverningTokens),
    },
    },
{
    law_addresses(p, Seq::empty(), realm, mint, owner);
    lemma_decode_encode(GovernanceInstructionView::DepositGoverningTokens);
}

/// Law: WithdrawGoverningTokens carries the realm, the holding account (writable), the
/// destination (writable), the owner (signer), the token owner record (writable) and
/// the token program.
pub proof fn law_withdraw_governing_tokens(
    p: Seq<u8>,
    realm: Seq<u8>,
    destination: Seq<u8>,
    owner: Seq<u8>,
    mint: Seq<u8>,
)
    ensures
        match pda(seq![text_governance(), realm, mint, owner], p) {
        None => withdraw_governing_tokens_spec(p, realm, destination, owner, mint) is None,
        Some(rec) => match pda(seq![text_governance(), realm, mint], p) {
        None => withdraw_governing_tokens_spec(p, realm, destination, owner, mint) is None,
        Some(holding) => withdraw_governing_tokens_spec(p, realm, destination, owner, mint) matches Some(ix) && ix.program_id == p && ix.accounts == seq![
            am(realm, false, false),
            am(holding, false, true),
            am(destination, false, true),
            am(owner, true, false),
            am(rec, false, true),
            am(spl_token_key(), false, false),
        ] && decode_instruction(ix.data) == Some(GovernanceInstructionView::WithdrawGoverningTokens),
    },
    },
{
    law_addresses(p, Seq::empty(), realm, mint, owner);
    lemma_decode_encode(GovernanceInstructionView::WithdrawGoverningTokens);
}

/// Law: SetGovernanceDelegate carries the authority (signer) and the token owner record
/// (writable); its data decodes to SetGovernanceDelegate with exactly the given delegate.
pub proof fn law_set_governance_delegate(
    p: Seq<u8>,
    authority: Seq<u8>,
    realm: Seq<u8>,
    mint: Seq<u8>,
    owner: Seq<u8>,
    delegate: Option<Seq<u8>>,
)
    requires
        delegate matches Some(k) ==> is_key(k),
    ensures
        match pda(seq![text_governance(), realm, mint, owner], p) {
        None => set_governance_delegate_spec(p, authority, realm, mint, owner, delegate) is None,
        Some(rec) => set_governance_delegate_spec(p, authority, realm, mint, owner, delegate) matches Some(ix) && ix.program_id == p && ix.accounts == seq![
            am(authority, true, false),
            am(rec, false, true),
        ] && decode_instruction(ix.data) == Some(GovernanceInstructionView::SetGovernanceDelegate { new_governance_delegate: delegate }),
    },
{
    law_addresses(p, Seq::empty(), realm, mint, owner);
    lemma_decode_encode(GovernanceInstructionView::SetGovernanceDelegate { new_governance_delegate: delegate });
}

/// Law: CreateAccountGovernance carries the config's realm, the account governance of
/// ['account-governance', realm, governed account] (writable), the payer (signer), the
/// system program and the rent sysvar; its data decodes to the given config.
pub proof fn law_create_account_governance(
    p: Seq<u8>,
    payer: Seq<u8>,
    config: GovernanceConfigView,
)
    requires
        config_wf(config),
    ensures
        match pda(seq![text_account_governance(), config.realm, config.governed_account], p) {
        None => create_account_governance_spec(p, payer, config) is None,
        Some(gov) => create_account_governance_spec(p, payer, config) matches Some(ix) && ix.program_id == p && ix.accounts == seq![
            am(config.realm, false, false),
            am(gov, false, true),
            am(payer, true, false),
            am(system_program_key(), false, false),
            am(rent_sysvar_key(), false, false),
        ] && decode_instruction(ix.data) == Some(GovernanceInstructionView::CreateAccountGovernance { config }),
    },
{
    law_addresses(p, Seq::empty(), config.realm, config.governed_account, Seq::empty());
    lemma_decode_encode(GovernanceInstructionView::CreateAccountGovernance { config });
}

/// Law: CreateProgramGovernance carries the realm, the program governance of
/// ['program-governance', realm, program] (writable), the program data of [program]
/// under the upgradeable loader (writable), the upgrade authority and the payer
/// (signers), the loader, the system program and the rent sysvar; its data decodes to
/// the given config and exactly the given transfer flag.
pub proof fn law_create_program_governance(
    p: Seq<u8>,
    upgrade_authority: Seq<u8>,
    payer: Seq<u8>,
    config: GovernanceConfigView,
    transfer: bool,
)
    requires
        config_wf(config),
    ensures
        match (
            pda(seq![text_program_governance(), config.realm, config.governed_account], p),
            pda(seq![config.governed_account], bpf_loader_upgradeable_key()),
        ) {
            (Some(gov), Some(data)) => create_program_governance_spec(
                p,
                upgrade_authority,
                payer,
                config,
                transfer,
            ) matches Some(ix) && ix.program_id == p && ix.accounts == seq![
                am(config.realm, false, false),
                am(gov, false, true),
                am(data, false, true),
                am(upgrade_authority, true, false),
                am(payer, true, false),
                am(bpf_loader_upgradeable_key(), false, false),
                am(system_program_key(), false, false),
                am(rent_sysvar_key(), false, false),
            ] && decode_instruction(ix.data) == Some(
                GovernanceInstructionView::CreateProgramGovernance {
                    config,
                    transfer_upgrade_authority: transfer,
                },
            ),
            _ => create_program_governance_spec(p, upgrade_authority, payer, config, transfer) is None,
        },
{
    law_addresses(p, Seq::empty(), config.realm, config.governed_account, Seq::empty());
    law_addresses(p, Seq::empty(), config.governed_account, Seq::empty(), Seq::empty());
    lemma_decode_encode(
        GovernanceInstructionView::CreateProgramGovernance {
            config,
            transfer_upgrade_authority: transfer,
        },
    );
}

/// Law: CreateMintGovernance carries the realm, the mint governance of
/// ['mint-governance', realm, mint] (writable), the governed mint (writable), the mint
/// authority and the payer (signers), the token and system programs and the rent
/// sysvar; its data decodes to the given config and exactly the given transfer flag.
pub proof fn law_create_mint_governance(
    p: Seq<u8>,
    mint_authority: Seq<u8>,
    payer: Seq<u8>,
    config: GovernanceConfigView,
    transfer: bool,
)
    requires
        config_wf(config),
    ensures
        match pda(seq![text_mint_governance(), config.realm, config.governed_account], p) {
        None => create_mint_governance_spec(p, mint_authority, payer, config, transfer) is None,
        Some(gov) => create_mint_governance_spec(p, mint_authority, payer, config, transfer) matches Some(ix) && ix.program_id == p && ix.accounts == seq![
            am(config.realm, false, false),
            am(gov, false, true),
            am(config.governed_account, false, true),
            am(mint_authority, true, false),
            am(payer, true, false),
            am(spl_token_key(), false, false),
            am(system_program_key(), false, false),
            am(rent_sysvar_key(), false, false),
        ] && decode_instruction(ix.data) == Some(GovernanceInstructionView::CreateMintGovernance { config, transfer_mint_authority: transfer }),
    },
{
    law_addresses(p, Seq::empty(), config.realm, config.governed_account, Seq::empty());
    lemma_decode_encode(GovernanceInstructionView::CreateMintGovernance { config, transfer_mint_authority: transfer });
}

/// Law: CreateProposal carries the proposal of ['governance', governance, mint, the
/// index in little-endian order] (writable), the governance (writable), the token
/// owner record of ['governance', realm, mint, owner], the authority and the payer
/// (signers), the system program and the rent and clock sysvars; its data decodes to
/// the given name, description link and mint.
pub proof fn law_create_proposal(
    p: Seq<u8>,
    governance: Seq<u8>,
    owner: Seq<u8>,
    authority: Seq<u8>,
    payer: Seq<u8>,
    realm: Seq<u8>,
    name: Seq<char>,
    link: Seq<char>,
    mint: Seq<u8>,
    index: u32,
)
    requires
        string_fits(name),
        string_fits(link),
        is_key(mint),
    ensures
        match pda(seq![text_governance(), governance, mint, spec_u32_to_le_bytes(index)], p) {
        None => create_proposal_spec(p, governance, owner, authority, payer, realm, name, link, mint, index) is None,
        Some(proposal) => match pda(seq![text_governance(), realm, mint, owner], p) {
        None => create_proposal_spec(p, governance, owner, authority, payer, realm, name, link, mint, index) is None,
        Some(rec) => create_proposal_spec(p, governance, owner, authority, payer, realm, name, link, mint, index) matches Some(ix) && ix.program_id == p && ix.accounts == seq![
            am(proposal, false, true),
            am(governance, false, true),
            am(rec, false, false),
            am(authority, true, false),
            am(payer, true, false),
            am(system_program_key(), false, false),
            am(rent_sysvar_key(), false, false),
            am(clock_sysvar_key(), false, false),
        ] && decode_instruction(ix.data) == Some(GovernanceInstructionView::CreateProposal { name, description_link: link, governing_token_mint: mint }),
    },
    },
{
    law_addresses(p, Seq::empty(), governance, mint, spec_u32_to_le_bytes(index));
    law_addresses(p, Seq::empty(), realm, mint, owner);
    lemma_decode_encode(GovernanceInstructionView::CreateProposal { name, description_link: link, governing_token_mint: mint });
}

/// Law: AddSignatory carries the proposal (writable), the token owner record, the
/// authority (signer), the signatory record of ['governance', proposal, signatory]
/// (writable), the payer (signer), the system program and the rent sysvar; its data
/// decodes to AddSignatory with exactly the given signatory.
pub proof fn law_add_signatory(
    p: Seq<u8>,
    proposal: Seq<u8>,
    record: Seq<u8>,
    authority: Seq<u8>,
    payer: Seq<u8>,
    signatory: Seq<u8>,
)
    requires
        is_key(signatory),
    ensures
        match pda(seq![text_governance(), proposal, signatory], p) {
        None => add_signatory_spec(p, proposal, record, authority, payer, signatory) is None,
        Some(sr) => add_signatory_spec(p, proposal, record, authority, payer, signatory) matches Some(ix) && ix.program_id == p && ix.accounts == seq![
            am(proposal, false, true),
            am(record, false, false),
            am(authority, true, false),
            am(sr, false, true),
            am(payer, true, false),
            am(system_program_key(), false, false),
            am(rent_sysvar_key(), false, false),
        ] && decode_instruction(ix.data) == Some(GovernanceInstructionView::AddSignatory { signatory }),
    },
{
    law_addresses(p, Seq::empty(), proposal, signatory, Seq::empty());
    lemma_decode_encode(GovernanceInstructionView::AddSignatory { signatory });
}

/// Law: RemoveSignatory carries the proposal (writable), the token owner record, the
/// authority (signer), the signatory record (writable) and the beneficiary (writable);
/// its data decodes to RemoveSignatory with exactly the given signatory.
pub proof fn law_remove_signatory(
    p: Seq<u8>,
    proposal: Seq<u8>,
    record: Seq<u8>,
    authority: Seq<u8>,
    signatory: Seq<u8>,
    beneficiary: Seq<u8>,
)
    requires
        is_key(signatory),
    ensures
        match pda(seq![text_governance(), proposal, signatory], p) {
        None => remove_signatory_spec(p, proposal, record, authority, signatory, beneficiary) is None,
        Some(sr) => remove_signatory_spec(p, proposal, record, authority, signatory, beneficiary) matches Some(ix) && ix.program_id == p && ix.accounts == seq![
            am(proposal, false, true),
            am(record, false, false),
            am(authority, true, false),
            am(sr, false, true),
            am(beneficiary, false, true),
        ] && decode_instruction(ix.data) == Some(GovernanceInstructionView::RemoveSignatory { signatory }),
    },
{
    law_addresses(p, Seq::empty(), proposal, signatory, Seq::empty());
    lemma_decode_encode(GovernanceInstructionView::RemoveSignatory { signatory });
}

/// Law: SignOffProposal carries the proposal (writable), the signatory record
/// (writable), the signatory (signer) and the clock sysvar.
pub proof fn law_sign_off_proposal(
    p: Seq<u8>,
    proposal: Seq<u8>,
    signatory: Seq<u8>,
)
    ensures
        match pda(seq![text_governance(), proposal, signatory], p) {
        None => sign_off_proposal_spec(p, proposal, signatory) is None,
        Some(sr) => sign_off_proposal_spec(p, proposal, signatory) matches Some(ix) && ix.program_id == p && ix.accounts == seq![
            am(proposal, false, true),
            am(sr, false, true),
            am(signatory, true, false),
            am(clock_sysvar_key(), false, false),
        ] && decode_instruction(ix.data) == Some(GovernanceInstructionView::SignOffProposal),
    },
{
    law_addresses(p, Seq::empty(), proposal, signatory, Seq::empty());
    lemma_decode_encode(GovernanceInstructionView::SignOffProposal);
}

/// Law: FinalizeVote carries the governance, the proposal (writable), the mint and the
/// clock sysvar.
pub proof fn law_finalize_vote(
    p: Seq<u8>,
    governance: Seq<u8>,
    proposal: Seq<u8>,
    mint: Seq<u8>,
)
    ensures
        finalize_vote_spec(p, governance, proposal, mint).program_id == p && finalize_vote_spec(p, governance, proposal, mint).accounts == seq![
            am(governance, false, false),
            am(proposal, false, true),
            am(mint, false, false),
            am(clock_sysvar_key(), false, false),
        ] && decode_instruction(finalize_vote_spec(p, governance, proposal, mint).data) == Some(GovernanceInstructionView::FinalizeVote),
{
    lemma_decode_encode(GovernanceInstructionView::FinalizeVote);
}

/// Law: CancelProposal carries the proposal (writable), the token owner record, the
/// authority (signer) and the clock sysvar.
pub proof fn law_cancel_proposal(
    p: Seq<u8>,
    proposal: Seq<u8>,
    record: Seq<u8>,
    authority: Seq<u8>,
)
    ensures
        cancel_proposal_spec(p, proposal, record, authority).program_id == p && cancel_proposal_spec(p, proposal, record, authority).accounts == seq![
            am(proposal, false, true),
            am(record, false, false),
            am(authority, true, false),
            am(clock_sysvar_key(), false, false),
        ] && decode_instruction(cancel_proposal_spec(p, proposal, record, authority).data) == Some(GovernanceInstructionView::CancelProposal),
{
    lemma_decode_encode(GovernanceInstructionView::CancelProposal);
}

/// Law: InsertInstruction carries the governance, the proposal (writable), the token
/// owner record, the authority (signer), the proposal instruction of ['governance',
/// proposal, the index in little-endian order] (writable), the payer (signer), the
/// system program and the clock sysvar; its data decodes to the given index, hold-up
/// time and stored instruction.
pub proof fn law_insert_instruction(
    p: Seq<u8>,
    governance: Seq<u8>,
    proposal: Seq<u8>,
    record: Seq<u8>,
    authority: Seq<u8>,
    payer: Seq<u8>,
    index: u16,
    hold_up_time: u64,
    instruction: InstructionView,
)
    requires
        instruction_data_wf(instruction),
    ensures
        match pda(seq![text_governance(), proposal, spec_u16_to_le_bytes(index)], p) {
        None => insert_instruction_spec(p, governance, proposal, record, authority, payer, index, hold_up_time, instruction) is None,
        Some(pi) => insert_instruction_spec(p, governance, proposal, record, authority, payer, index, hold_up_time, instruction) matches Some(ix) && ix.program_id == p && ix.accounts == seq![
            am(governance, false, false),
            am(proposal, false, true),
            am(record, false, false),
            am(authority, true, false),
            am(pi, false, true),
            am(payer, true, false),
            am(system_program_key(), false, false),
            am(clock_sysvar_key(), false, false),
        ] && decode_instruction(ix.data) == Some(GovernanceInstructionView::InsertInstruction { index, hold_up_time, instruction }),
    },
{
    law_addresses(p, Seq::empty(), proposal, spec_u16_to_le_bytes(index), Seq::empty());
    lemma_decode_encode(GovernanceInstructionView::InsertInstruction { index, hold_up_time, instruction });
}

/// Law: RemoveInstruction carries the proposal (writable), the token owner record, the
/// authority (signer), the proposal instruction (writable) and the beneficiary
/// (writable).
pub proof fn law_remove_instruction(
    p: Seq<u8>,
    proposal: Seq<u8>,
    record: Seq<u8>,
    authority: Seq<u8>,
    proposal_instruction: Seq<u8>,
    beneficiary: Seq<u8>,
)
    ensures
        remove_instruction_spec(p, proposal, record, authority, proposal_instruction, beneficiary).program_id == p && remove_instruction_spec(p, proposal, record, authority, proposal_instruction, beneficiary).accounts == seq![
            am(proposal, false, true),
            am(record, false, false),
            am(authority, true, false),
            am(proposal_instruction, false, true),
            am(beneficiary, false, true),
        ] && decode_instruction(remove_instruction_spec(p, proposal, record, authority, proposal_instruction, beneficiary).data) == Some(GovernanceInstructionView::RemoveInstruction),
{
    lemma_decode_encode(GovernanceInstructionView::RemoveInstruction);
}

/// Law: RelinquishVote carries the governance, the proposal (writable), the token
/// owner record (writable), the vote record of ['governance', proposal, token owner
/// record] (writable) and the mint, then, when an authority is given, the authority
/// (signer) and the beneficiary (writable).
pub proof fn law_relinquish_vote(
    p: Seq<u8>,
    governance: Seq<u8>,
    proposal: Seq<u8>,
    record: Seq<u8>,
    mint: Seq<u8>,
    authority: Option<Seq<u8>>,
    beneficiary: Option<Seq<u8>>,
)
    requires
        authority is Some ==> beneficiary is Some,
    ensures
        match pda(seq![text_governance(), proposal, record], p) {
            None => relinquish_vote_spec(p, governance, proposal, record, mint, authority, beneficiary)
                is None,
            Some(vr) => {
                let base = seq![
                    am(governance, false, false),
                    am(proposal, false, true),
                    am(record, false, true),
                    am(vr, false, true),
                    am(mint, false, false),
                ];
                relinquish_vote_spec(p, governance, proposal, record, mint, authority, beneficiary)
                    matches Some(ix) && ix.program_id == p && decode_instruction(ix.data) == Some(
                    GovernanceInstructionView::RelinquishVote,
                ) && ix.accounts == match (authority, beneficiary) {
                    (Some(a), Some(b)) => base + seq![am(a, true, false), am(b, false, true)],
                    _ => base,
                }
            },
        },
{
    law_addresses(p, Seq::empty(), proposal, record, Seq::empty());
    lemma_decode_encode(GovernanceInstructionView::RelinquishVote);
}

/// Law: ExecuteInstruction carries the proposal (writable), the proposal instruction
/// (writable), the clock sysvar and the executed instruction's program, followed by
/// every one of the executed instruction's accounts, unchanged and in order.
pub proof fn law_execute_instruction(
    p: Seq<u8>,
    proposal: Seq<u8>,
    proposal_instruction: Seq<u8>,
    instruction_program: Seq<u8>,
    instruction_accounts: Seq<AccountMetaView>,
)
    ensures
        ({
            let ix = execute_instruction_spec(
                p,
                proposal,
                proposal_instruction,
                instruction_program,
                instruction_accounts,
            );
            &&& ix.program_id == p
            &&& ix.accounts.len() == 4 + instruction_accounts.len()
            &&& ix.accounts[0] == am(proposal, false, true)
            &&& ix.accounts[1] == am(proposal_instruction, false, true)
            &&& ix.accounts[2] == am(clock_sysvar_key(), false, false)
            &&& ix.accounts[3] == am(instruction_program, false, false)
            &&& forall|i: int|
                0 <= i < instruction_accounts.len() ==> #[trigger] ix.accounts[4 + i]
                    == instruction_accounts[i]
            &&& decode_instruction(ix.data) == Some(GovernanceInstructionView::ExecuteInstruction)
        }),
{
    lemma_decode_encode(GovernanceInstructionView::ExecuteInstruction);
}

/// Law: what an instruction says is what it holds: the bytes of its program's
/// address, each account entry's address bytes and flags, in order and none left out,
/// and its data bytes.
pub proof fn law_instruction_view(ix: Instruction)
    ensures
        ix@.program_id == ix.program_id.0@,
        ix@.data == ix.data@,
        ix@.accounts.len() == ix.accounts@.len(),
        forall|i: int|
            0 <= i < ix.accounts@.len() ==> #[trigger] ix@.accounts[i] == am(
                ix.accounts@[i].pubkey.0@,
                ix.accounts@[i].is_signer,
                ix.accounts@[i].is_writable,
            ),
{
}

/// Law: a writable entry and a read-only entry keep the address and the signer flag
/// they are made from.
pub proof fn law_account_entries(key: Seq<u8>, is_signer: bool)
    ensures
        writable(key, is_signer) == am(key, is_signer, true),
        readonly(key, is_signer) == am(key, is_signer, false),
{
}

} // verus!
