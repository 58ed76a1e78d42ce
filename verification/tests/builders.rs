use solana_program::pubkey::Pubkey as SolPubkey;
use spl_governance::address::{
    get_account_governance_address, get_governing_token_holding_address,
    get_mint_governance_address, get_program_data_address, get_program_governance_address,
    get_proposal_address, get_proposal_instruction_address, get_realm_address,
    get_signatory_record_address, get_token_owner_record_address, get_vote_record_address,
};
use spl_governance::builders::{
    add_signatory, cancel_proposal, cast_vote, create_account_governance, create_mint_governance,
    create_program_governance, create_proposal, create_realm, deposit_governing_tokens,
    execute_instruction, finalize_vote, insert_instruction, relinquish_vote, remove_instruction,
    remove_signatory, set_governance_delegate, sign_off_proposal, withdraw_governing_tokens,
};
use spl_governance::instruction::{GovernanceInstruction, Vote};
use spl_governance::pubkey::{AccountMeta, Instruction, Pubkey};
use spl_governance::state::{AccountMetaData, GovernanceConfig, InstructionData};

fn key(b: u8) -> Pubkey {
    Pubkey::new_from_array([b; 32])
}

fn sol(k: &Pubkey) -> SolPubkey {
    SolPubkey::new_from_array(k.to_bytes())
}

fn ours(k: &SolPubkey) -> Pubkey {
    Pubkey::new_from_array(k.to_bytes())
}

fn pda(seeds: &[&[u8]], program_id: &Pubkey) -> Pubkey {
    ours(&SolPubkey::find_program_address(seeds, &sol(program_id)).0)
}

fn w(k: Pubkey, signer: bool) -> AccountMeta {
    AccountMeta { pubkey: k, is_signer: signer, is_writable: true }
}

fn r(k: Pubkey, signer: bool) -> AccountMeta {
    AccountMeta { pubkey: k, is_signer: signer, is_writable: false }
}

fn system() -> Pubkey {
    ours(&solana_program::system_program::id())
}

fn token() -> Pubkey {
    ours(&spl_token::id())
}

fn rent() -> Pubkey {
    ours(&solana_program::sysvar::rent::id())
}

fn clock() -> Pubkey {
    ours(&solana_program::sysvar::clock::id())
}

fn loader() -> Pubkey {
    ours(&solana_program::bpf_loader_upgradeable::id())
}

fn program() -> Pubkey {
    key(200)
}

fn config() -> GovernanceConfig {
    GovernanceConfig {
        realm: key(1),
        governed_account: key(2),
        yes_vote_threshold_percentage: 55,
        min_tokens_to_create_proposal: 10,
        min_instruction_hold_up_time: 5,
        max_voting_time: 1000,
    }
}

fn check(ix: &Instruction, accounts: Vec<AccountMeta>, data: GovernanceInstruction) {
    assert_eq!(ix.program_id, program());
    assert_eq!(ix.accounts, accounts);
    assert_eq!(ix.data, data.try_to_vec());
    assert_eq!(GovernanceInstruction::try_from_slice(&ix.data), Some(data));
}

#[test]
fn addresses_match_solana_derivation() {
    let p = program();
    assert_eq!(get_realm_address(&p, "dao"), Some(pda(&[b"governance", b"dao"], &p)));
    assert_eq!(
        get_governing_token_holding_address(&p, &key(1), &key(2)),
        Some(pda(&[b"governance", &[1u8; 32], &[2u8; 32]], &p))
    );
    assert_eq!(
        get_token_owner_record_address(&p, &key(1), &key(2), &key(3)),
        Some(pda(&[b"governance", &[1u8; 32], &[2u8; 32], &[3u8; 32]], &p))
    );
    assert_eq!(
        get_account_governance_address(&p, &key(1), &key(2)),
        Some(pda(&[b"account-governance", &[1u8; 32], &[2u8; 32]], &p))
    );
    assert_eq!(
        get_program_governance_address(&p, &key(1), &key(2)),
        Some(pda(&[b"program-governance", &[1u8; 32], &[2u8; 32]], &p))
    );
    assert_eq!(
        get_mint_governance_address(&p, &key(1), &key(2)),
        Some(pda(&[b"mint-governance", &[1u8; 32], &[2u8; 32]], &p))
    );
    assert_eq!(get_program_data_address(&key(2)), Some(pda(&[&[2u8; 32]], &loader())));
    assert_eq!(
        get_proposal_address(&p, &key(1), &key(2), &7u32.to_le_bytes()),
        Some(pda(&[b"governance", &[1u8; 32], &[2u8; 32], &[7, 0, 0, 0]], &p))
    );
    assert_eq!(
        get_signatory_record_address(&p, &key(1), &key(2)),
        Some(pda(&[b"governance", &[1u8; 32], &[2u8; 32]], &p))
    );
    assert_eq!(
        get_vote_record_address(&p, &key(1), &key(2)),
        Some(pda(&[b"governance", &[1u8; 32], &[2u8; 32]], &p))
    );
    assert_eq!(
        get_proposal_instruction_address(&p, &key(1), &3u16.to_le_bytes()),
        Some(pda(&[b"governance", &[1u8; 32], &[3, 0]], &p))
    );
}

#[test]
fn realm_name_longer_than_a_seed_has_no_address() {
    let p = program();
    let long = "a".repeat(33);
    assert_eq!(get_realm_address(&p, &long), None);
    assert!(create_realm(&p, &key(1), &key(2), None, long).is_none());
    let max = "b".repeat(32);
    assert_eq!(get_realm_address(&p, &max), Some(pda(&[b"governance", max.as_bytes()], &p)));
}

#[test]
fn create_realm_without_council() {
    let p = program();
    let realm = pda(&[b"governance", b"dao"], &p);
    let holding = pda(&[b"governance", &realm.to_bytes(), &[1u8; 32]], &p);
    let ix = create_realm(&p, &key(1), &key(9), None, "dao".to_string()).unwrap();
    check(
        &ix,
        vec![
            w(realm, false),
            r(key(1), false),
            w(holding, false),
            r(key(9), true),
            r(system(), false),
            r(token(), false),
            r(rent(), false),
        ],
        GovernanceInstruction::CreateRealm { name: "dao".to_string() },
    );
}

#[test]
fn create_realm_with_council() {
    let p = program();
    let realm = pda(&[b"governance", b"dao"], &p);
    let holding = pda(&[b"governance", &realm.to_bytes(), &[1u8; 32]], &p);
    let council_holding = pda(&[b"governance", &realm.to_bytes(), &[3u8; 32]], &p);
    let ix = create_realm(&p, &key(1), &key(9), Some(key(3)), "dao".to_string()).unwrap();
    check(
        &ix,
        vec![
            w(realm, false),
            r(key(1), false),
            w(holding, false),
            r(key(9), true),
            r(system(), false),
            r(token(), false),
            r(rent(), false),
            r(key(3), false),
            w(council_holding, false),
        ],
        GovernanceInstruction::CreateRealm { name: "dao".to_string() },
    );
}

#[test]
fn deposit_governing_tokens_accounts() {
    let p = program();
    let (realm, source, owner, authority, payer, mint) = (key(1), key(2), key(3), key(4), key(5), key(6));
    let record = pda(&[b"governance", &[1u8; 32], &[6u8; 32], &[3u8; 32]], &p);
    let holding = pda(&[b"governance", &[1u8; 32], &[6u8; 32]], &p);
    let ix = deposit_governing_tokens(&p, &realm, &source, &owner, &authority, &payer, &mint).unwrap();
    check(
        &ix,
        vec![
            r(realm, false),
            w(holding, false),
            w(source, false),
            r(owner, true),
            r(authority, true),
            w(record, false),
            r(payer, true),
            r(system(), false),
            r(token(), false),
            r(rent(), false),
        ],
        GovernanceInstruction::DepositGoverningTokens {},
    );
}

#[test]
fn withdraw_governing_tokens_accounts() {
    let p = program();
    let (realm, destination, owner, mint) = (key(1), key(2), key(3), key(6));
    let record = pda(&[b"governance", &[1u8; 32], &[6u8; 32], &[3u8; 32]], &p);
    let holding = pda(&[b"governance", &[1u8; 32], &[6u8; 32]], &p);
    let ix = withdraw_governing_tokens(&p, &realm, &destination, &owner, &mint).unwrap();
    check(
        &ix,
        vec![
            r(realm, false),
            w(holding, false),
            w(destination, false),
            r(owner, true),
            w(record, false),
            r(token(), false),
        ],
        GovernanceInstruction::WithdrawGoverningTokens {},
    );
}

#[test]
fn set_governance_delegate_accounts() {
    let p = program();
    let record = pda(&[b"governance", &[1u8; 32], &[2u8; 32], &[3u8; 32]], &p);
    let ix = set_governance_delegate(&p, &key(9), &key(1), &key(2), &key(3), &Some(key(4))).unwrap();
    check(
        &ix,
        vec![r(key(9), true), w(record, false)],
        GovernanceInstruction::SetGovernanceDelegate { new_governance_delegate: Some(key(4)) },
    );
    let ix = set_governance_delegate(&p, &key(9), &key(1), &key(2), &key(3), &None).unwrap();
    assert_eq!(ix.data, vec![3, 0]);
}

#[test]
fn create_account_governance_accounts() {
    let p = program();
    let governance = pda(&[b"account-governance", &[1u8; 32], &[2u8; 32]], &p);
    let ix = create_account_governance(&p, &key(9), config()).unwrap();
    check(
        &ix,
        vec![r(key(1), false), w(governance, false), r(key(9), true), r(system(), false), r(rent(), false)],
        GovernanceInstruction::CreateAccountGovernance { config: config() },
    );
}

#[test]
fn create_program_governance_accounts() {
    let p = program();
    let governance = pda(&[b"program-governance", &[1u8; 32], &[2u8; 32]], &p);
    let program_data = pda(&[&[2u8; 32]], &loader());
    let ix = create_program_governance(&p, &key(8), &key(9), config(), true).unwrap();
    check(
        &ix,
        vec![
            r(key(1), false),
            w(governance, false),
            w(program_data, false),
            r(key(8), true),
            r(key(9), true),
            r(loader(), false),
            r(system(), false),
            r(rent(), false),
        ],
        GovernanceInstruction::CreateProgramGovernance { config: config(), transfer_upgrade_authority: true },
    );
}

#[test]
fn create_mint_governance_accounts() {
    let p = program();
    let governance = pda(&[b"mint-governance", &[1u8; 32], &[2u8; 32]], &p);
    let ix = create_mint_governance(&p, &key(8), &key(9), config(), false).unwrap();
    check(
        &ix,
        vec![
            r(key(1), false),
            w(governance, false),
            w(key(2), false),
            r(key(8), true),
            r(key(9), true),
            r(token(), false),
            r(system(), false),
            r(rent(), false),
        ],
        GovernanceInstruction::CreateMintGovernance { config: config(), transfer_mint_authority: false },
    );
}

#[test]
fn create_proposal_accounts() {
    let p = program();
    let (governance, owner, authority, payer, realm, mint) = (key(1), key(2), key(3), key(4), key(5), key(6));
    let proposal = pda(&[b"governance", &[1u8; 32], &[6u8; 32], &258u32.to_le_bytes()], &p);
    let record = pda(&[b"governance", &[5u8; 32], &[6u8; 32], &[2u8; 32]], &p);
    let ix = create_proposal(
        &p,
        &governance,
        &owner,
        &authority,
        &payer,
        &realm,
        "name".to_string(),
        "link".to_string(),
        &mint,
        258,
    )
    .unwrap();
    check(
        &ix,
        vec![
            w(proposal, false),
            w(governance, false),
            r(record, false),
            r(authority, true),
            r(payer, true),
            r(system(), false),
            r(rent(), false),
            r(clock(), false),
        ],
        GovernanceInstruction::CreateProposal {
            name: "name".to_string(),
            description_link: "link".to_string(),
            governing_token_mint: mint,
        },
    );
}

#[test]
fn signatory_instructions_accounts() {
    let p = program();
    let (proposal, record, authority, payer, signatory, beneficiary) =
        (key(1), key(2), key(3), key(4), key(5), key(6));
    let signatory_record = pda(&[b"governance", &[1u8; 32], &[5u8; 32]], &p);
    let ix = add_signatory(&p, &proposal, &record, &authority, &payer, &signatory).unwrap();
    check(
        &ix,
        vec![
            w(proposal, false),
            r(record, false),
            r(authority, true),
            w(signatory_record, false),
            r(payer, true),
            r(system(), false),
            r(rent(), false),
        ],
        GovernanceInstruction::AddSignatory { signatory },
    );
    let ix = remove_signatory(&p, &proposal, &record, &authority, &signatory, &beneficiary).unwrap();
    check(
        &ix,
        vec![
            w(proposal, false),
            r(record, false),
            r(authority, true),
            w(signatory_record, false),
            w(beneficiary, false),
        ],
        GovernanceInstruction::RemoveSignatory { signatory },
    );
    let ix = sign_off_proposal(&p, &proposal, &signatory).unwrap();
    check(
        &ix,
        vec![w(proposal, false), w(signatory_record, false), r(signatory, true), r(clock(), false)],
        GovernanceInstruction::SignOffProposal,
    );
}

#[test]
fn cast_vote_accounts() {
    let p = program();
    let (governance, proposal, record, authority, mint, payer) = (key(1), key(2), key(3), key(4), key(5), key(6));
    let vote_record = pda(&[b"governance", &[2u8; 32], &[3u8; 32]], &p);
    let ix = cast_vote(&p, &governance, &proposal, &record, &authority, &mint, &payer, Vote::No).unwrap();
    check(
        &ix,
        vec![
            r(governance, false),
            w(proposal, false),
            w(record, false),
            r(authority, true),
            w(vote_record, false),
            r(mint, false),
            r(payer, true),
            r(system(), false),
            r(rent(), false),
            r(clock(), false),
        ],
        GovernanceInstruction::CastVote { vote: Vote::No },
    );
}

#[test]
fn finalize_and_cancel_accounts() {
    let p = program();
    let ix = finalize_vote(&p, &key(1), &key(2), &key(3));
    check(
        &ix,
        vec![r(key(1), false), w(key(2), false), r(key(3), false), r(clock(), false)],
        GovernanceInstruction::FinalizeVote {},
    );
    let ix = cancel_proposal(&p, &key(1), &key(2), &key(3));
    check(
        &ix,
        vec![w(key(1), false), r(key(2), false), r(key(3), true), r(clock(), false)],
        GovernanceInstruction::CancelProposal,
    );
}

#[test]
fn relinquish_vote_without_authority() {
    let p = program();
    let vote_record = pda(&[b"governance", &[2u8; 32], &[3u8; 32]], &p);
    let ix = relinquish_vote(&p, &key(1), &key(2), &key(3), &key(4), None, None).unwrap();
    check(
        &ix,
        vec![r(key(1), false), w(key(2), false), w(key(3), false), w(vote_record, false), r(key(4), false)],
        GovernanceInstruction::RelinquishVote,
    );
}

#[test]
fn relinquish_vote_with_authority_and_beneficiary() {
    let p = program();
    let vote_record = pda(&[b"governance", &[2u8; 32], &[3u8; 32]], &p);
    let ix = relinquish_vote(&p, &key(1), &key(2), &key(3), &key(4), Some(key(5)), Some(key(6))).unwrap();
    check(
        &ix,
        vec![
            r(key(1), false),
            w(key(2), false),
            w(key(3), false),
            w(vote_record, false),
            r(key(4), false),
            r(key(5), true),
            w(key(6), false),
        ],
        GovernanceInstruction::RelinquishVote,
    );
}

#[test]
fn insert_and_remove_instruction_accounts() {
    let p = program();
    let stored = InstructionData {
        program_id: key(7),
        accounts: vec![AccountMetaData { pubkey: key(8), is_signer: false, is_writable: true }],
        data: vec![1, 2],
    };
    let proposal_instruction = pda(&[b"governance", &[2u8; 32], &[1, 1]], &p);
    let ix = insert_instruction(&p, &key(1), &key(2), &key(3), &key(4), &key(5), 257, 9, stored.clone()).unwrap();
    check(
        &ix,
        vec![
            r(key(1), false),
            w(key(2), false),
            r(key(3), false),
            r(key(4), true),
            w(proposal_instruction, false),
            r(key(5), true),
            r(system(), false),
            r(clock(), false),
        ],
        GovernanceInstruction::InsertInstruction { index: 257, hold_up_time: 9, instruction: stored },
    );
    let ix = remove_instruction(&p, &key(1), &key(2), &key(3), &key(4), &key(5));
    check(
        &ix,
        vec![w(key(1), false), r(key(2), false), r(key(3), true), w(key(4), false), w(key(5), false)],
        GovernanceInstruction::RemoveInstruction,
    );
}

#[test]
fn execute_instruction_appends_the_instruction_accounts() {
    let p = program();
    let extra = vec![w(key(10), true), r(key(11), false)];
    let ix = execute_instruction(&p, &key(1), &key(2), &key(3), &key(4), &extra);
    check(
        &ix,
        vec![w(key(2), false), w(key(3), false), r(clock(), false), r(key(4), false), w(key(10), true), r(key(11), false)],
        GovernanceInstruction::ExecuteInstruction,
    );
    let ix = execute_instruction(&p, &key(1), &key(2), &key(3), &key(4), &[]);
    assert_eq!(ix.accounts.len(), 4);
}

#[test]
fn account_meta_constructors() {
    assert_eq!(AccountMeta::new(key(1), true), w(key(1), true));
    assert_eq!(AccountMeta::new_readonly(key(1), false), r(key(1), false));
}

#[test]
fn well_known_program_ids() {
    assert_eq!(system(), key(0));
    let ix = deposit_governing_tokens(&program(), &key(1), &key(2), &key(3), &key(4), &key(5), &key(6)).unwrap();
    assert_eq!(ix.accounts[7].pubkey, system());
    assert_eq!(ix.accounts[8].pubkey, token());
    assert_eq!(ix.accounts[9].pubkey, rent());
    let ix = finalize_vote(&program(), &key(1), &key(2), &key(3));
    assert_eq!(ix.accounts[3].pubkey, clock());
    let ix = create_program_governance(&program(), &key(8), &key(9), config(), false).unwrap();
    assert_eq!(ix.accounts[5].pubkey, loader());
}
