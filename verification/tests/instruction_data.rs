use borsh::BorshSerialize;
use spl_governance::instruction::{GovernanceInstruction, Vote};
use spl_governance::pubkey::Pubkey;
use spl_governance::state::{AccountMetaData, GovernanceConfig, InstructionData};

fn key(b: u8) -> Pubkey {
    Pubkey::new_from_array([b; 32])
}

fn config() -> GovernanceConfig {
    GovernanceConfig {
        realm: key(1),
        governed_account: key(2),
        yes_vote_threshold_percentage: 60,
        min_tokens_to_create_proposal: 0x0102,
        min_instruction_hold_up_time: 0x0a0b0c0d,
        max_voting_time: 0x1122334455667788,
    }
}

fn config_bytes() -> Vec<u8> {
    let c = config();
    let mut v = Vec::new();
    v.extend_from_slice(&[1u8; 32]);
    v.extend_from_slice(&[2u8; 32]);
    v.extend(c.yes_vote_threshold_percentage.try_to_vec().unwrap());
    v.extend(c.min_tokens_to_create_proposal.try_to_vec().unwrap());
    v.extend(c.min_instruction_hold_up_time.try_to_vec().unwrap());
    v.extend(c.max_voting_time.try_to_vec().unwrap());
    v
}

fn stored_instruction() -> InstructionData {
    InstructionData {
        program_id: key(7),
        accounts: vec![
            AccountMetaData { pubkey: key(8), is_signer: true, is_writable: false },
            AccountMetaData { pubkey: key(9), is_signer: false, is_writable: true },
        ],
        data: vec![5, 6, 7],
    }
}

fn all_instructions() -> Vec<GovernanceInstruction> {
    vec![
        GovernanceInstruction::CreateRealm { name: "realm ✓".to_string() },
        GovernanceInstruction::DepositGoverningTokens {},
        GovernanceInstruction::WithdrawGoverningTokens {},
        GovernanceInstruction::SetGovernanceDelegate { new_governance_delegate: Some(key(3)) },
        GovernanceInstruction::SetGovernanceDelegate { new_governance_delegate: None },
        GovernanceInstruction::CreateAccountGovernance { config: config() },
        GovernanceInstruction::CreateProgramGovernance {
            config: config(),
            transfer_upgrade_authority: true,
        },
        GovernanceInstruction::CreateProposal {
            name: "p".to_string(),
            description_link: "https://x".to_string(),
            governing_token_mint: key(4),
        },
        GovernanceInstruction::AddSignatory { signatory: key(5) },
        GovernanceInstruction::RemoveSignatory { signatory: key(6) },
        GovernanceInstruction::InsertInstruction {
            index: 3,
            hold_up_time: 100,
            instruction: stored_instruction(),
        },
        GovernanceInstruction::RemoveInstruction,
        GovernanceInstruction::CancelProposal,
        GovernanceInstruction::SignOffProposal,
        GovernanceInstruction::CastVote { vote: Vote::Yes },
        GovernanceInstruction::CastVote { vote: Vote::No },
        GovernanceInstruction::FinalizeVote {},
        GovernanceInstruction::RelinquishVote,
        GovernanceInstruction::ExecuteInstruction,
        GovernanceInstruction::CreateMintGovernance {
            config: config(),
            transfer_mint_authority: false,
        },
    ]
}

#[test]
fn create_realm_data_is_tag_then_length_prefixed_utf8() {
    let data = GovernanceInstruction::CreateRealm { name: "abc".to_string() }.try_to_vec();
    let mut expected = vec![0u8];
    expected.extend("abc".to_string().try_to_vec().unwrap());
    assert_eq!(expected, vec![0, 3, 0, 0, 0, b'a', b'b', b'c']);
    assert_eq!(data, expected);
}

#[test]
fn unit_variants_are_their_position() {
    assert_eq!(GovernanceInstruction::DepositGoverningTokens {}.try_to_vec(), vec![1]);
    assert_eq!(GovernanceInstruction::WithdrawGoverningTokens {}.try_to_vec(), vec![2]);
    assert_eq!(GovernanceInstruction::RemoveInstruction.try_to_vec(), vec![10]);
    assert_eq!(GovernanceInstruction::CancelProposal.try_to_vec(), vec![11]);
    assert_eq!(GovernanceInstruction::SignOffProposal.try_to_vec(), vec![12]);
    assert_eq!(GovernanceInstruction::FinalizeVote {}.try_to_vec(), vec![14]);
    assert_eq!(GovernanceInstruction::RelinquishVote.try_to_vec(), vec![15]);
    assert_eq!(GovernanceInstruction::ExecuteInstruction.try_to_vec(), vec![16]);
}

#[test]
fn set_governance_delegate_data_has_option_tag() {
    let some = GovernanceInstruction::SetGovernanceDelegate { new_governance_delegate: Some(key(3)) }
        .try_to_vec();
    let mut expected = vec![3u8, 1u8];
    expected.extend_from_slice(&[3u8; 32]);
    assert_eq!(some, expected);
    let none = GovernanceInstruction::SetGovernanceDelegate { new_governance_delegate: None }
        .try_to_vec();
    assert_eq!(none, vec![3, 0]);
}

#[test]
fn config_variants_carry_the_fields_in_order() {
    let mut expected = vec![4u8];
    expected.extend(config_bytes());
    assert_eq!(expected.len(), 84);
    assert_eq!(GovernanceInstruction::CreateAccountGovernance { config: config() }.try_to_vec(), expected);

    let mut expected = vec![5u8];
    expected.extend(config_bytes());
    expected.push(1);
    assert_eq!(
        GovernanceInstruction::CreateProgramGovernance {
            config: config(),
            transfer_upgrade_authority: true
        }
        .try_to_vec(),
        expected
    );

    let mut expected = vec![17u8];
    expected.extend(config_bytes());
    expected.push(0);
    assert_eq!(
        GovernanceInstruction::CreateMintGovernance { config: config(), transfer_mint_authority: false }
            .try_to_vec(),
        expected
    );
}

#[test]
fn create_proposal_data() {
    let data = GovernanceInstruction::CreateProposal {
        name: "p".to_string(),
        description_link: "https://x".to_string(),
        governing_token_mint: key(4),
    }
    .try_to_vec();
    let mut expected = vec![6u8];
    expected.extend("p".to_string().try_to_vec().unwrap());
    expected.extend("https://x".to_string().try_to_vec().unwrap());
    expected.extend_from_slice(&[4u8; 32]);
    assert_eq!(data, expected);
}

#[test]
fn signatory_data() {
    let mut expected = vec![7u8];
    expected.extend_from_slice(&[5u8; 32]);
    assert_eq!(GovernanceInstruction::AddSignatory { signatory: key(5) }.try_to_vec(), expected);
    let mut expected = vec![8u8];
    expected.extend_from_slice(&[6u8; 32]);
    assert_eq!(GovernanceInstruction::RemoveSignatory { signatory: key(6) }.try_to_vec(), expected);
}

#[test]
fn insert_instruction_data() {
    let data = GovernanceInstruction::InsertInstruction {
        index: 3,
        hold_up_time: 100,
        instruction: stored_instruction(),
    }
    .try_to_vec();
    let mut expected = vec![9u8];
    expected.extend(3u16.try_to_vec().unwrap());
    expected.extend(100u64.try_to_vec().unwrap());
    expected.extend_from_slice(&[7u8; 32]);
    expected.extend(2u32.try_to_vec().unwrap());
    expected.extend_from_slice(&[8u8; 32]);
    expected.extend(true.try_to_vec().unwrap());
    expected.extend(false.try_to_vec().unwrap());
    expected.extend_from_slice(&[9u8; 32]);
    expected.extend(false.try_to_vec().unwrap());
    expected.extend(true.try_to_vec().unwrap());
    expected.extend(vec![5u8, 6, 7].try_to_vec().unwrap());
    assert_eq!(data.len(), 1 + 2 + 8 + 40 + 34 * 2 + 3);
    assert_eq!(data, expected);
}

#[test]
fn cast_vote_data() {
    assert_eq!(GovernanceInstruction::CastVote { vote: Vote::Yes }.try_to_vec(), vec![13, 0]);
    assert_eq!(GovernanceInstruction::CastVote { vote: Vote::No }.try_to_vec(), vec![13, 1]);
}

#[test]
fn every_instruction_reads_back_from_its_data() {
    for ix in all_instructions() {
        let data = ix.try_to_vec();
        assert_eq!(GovernanceInstruction::try_from_slice(&data), Some(ix));
    }
}

#[test]
fn decoding_then_encoding_gives_the_same_bytes() {
    for ix in all_instructions() {
        let data = ix.try_to_vec();
        let back = GovernanceInstruction::try_from_slice(&data).unwrap();
        assert_eq!(back.try_to_vec(), data);
    }
}

#[test]
fn empty_data_is_refused() {
    assert_eq!(GovernanceInstruction::try_from_slice(&[]), None);
}

#[test]
fn unknown_variant_is_refused() {
    assert_eq!(GovernanceInstruction::try_from_slice(&[18]), None);
    assert_eq!(GovernanceInstruction::try_from_slice(&[255]), None);
}

#[test]
fn trailing_bytes_are_refused() {
    assert_eq!(GovernanceInstruction::try_from_slice(&[1, 0]), None);
    let mut data = GovernanceInstruction::CreateRealm { name: "x".to_string() }.try_to_vec();
    data.push(0);
    assert_eq!(GovernanceInstruction::try_from_slice(&data), None);
}

#[test]
fn truncated_data_is_refused() {
    for ix in all_instructions() {
        let data = ix.try_to_vec();
        if data.len() > 1 {
            assert_eq!(GovernanceInstruction::try_from_slice(&data[..data.len() - 1]), None);
        }
    }
}

#[test]
fn bool_other_than_zero_or_one_is_refused() {
    let mut data = GovernanceInstruction::CreateProgramGovernance {
        config: config(),
        transfer_upgrade_authority: true,
    }
    .try_to_vec();
    let last = data.len() - 1;
    data[last] = 2;
    assert_eq!(GovernanceInstruction::try_from_slice(&data), None);
}

#[test]
fn option_tag_other_than_zero_or_one_is_refused() {
    let mut data = vec![3u8, 2u8];
    data.extend_from_slice(&[0u8; 32]);
    assert_eq!(GovernanceInstruction::try_from_slice(&data), None);
}

#[test]
fn vote_other_than_zero_or_one_is_refused() {
    assert_eq!(GovernanceInstruction::try_from_slice(&[13, 2]), None);
    assert_eq!(GovernanceInstruction::try_from_slice(&[13]), None);
}

#[test]
fn invalid_utf8_name_is_refused() {
    assert_eq!(GovernanceInstruction::try_from_slice(&[0, 2, 0, 0, 0, 0xc3, 0x28]), None);
    assert_eq!(
        GovernanceInstruction::try_from_slice(&[0, 2, 0, 0, 0, 0xc3, 0xa9]),
        Some(GovernanceInstruction::CreateRealm { name: "é".to_string() })
    );
}

#[test]
fn string_length_past_the_end_is_refused() {
    assert_eq!(GovernanceInstruction::try_from_slice(&[0, 5, 0, 0, 0, b'a']), None);
}

#[test]
fn account_count_past_the_end_is_refused() {
    let mut data = vec![9u8, 0, 0];
    data.extend_from_slice(&[0u8; 8]);
    data.extend_from_slice(&[7u8; 32]);
    data.extend_from_slice(&[0xff, 0xff, 0xff, 0xff]);
    assert_eq!(GovernanceInstruction::try_from_slice(&data), None);
}

#[test]
fn stored_account_flag_other_than_zero_or_one_is_refused() {
    let mut data = GovernanceInstruction::InsertInstruction {
        index: 0,
        hold_up_time: 0,
        instruction: stored_instruction(),
    }
    .try_to_vec();
    // the signer flag of the first stored account
    let at = 1 + 2 + 8 + 32 + 4 + 32;
    assert_eq!(data[at], 1);
    data[at] = 7;
    assert_eq!(GovernanceInstruction::try_from_slice(&data), None);
}

#[test]
fn empty_stored_instruction_reads_back() {
    let ix = GovernanceInstruction::InsertInstruction {
        index: u16::MAX,
        hold_up_time: u64::MAX,
        instruction: InstructionData { program_id: key(0), accounts: vec![], data: vec![] },
    };
    let data = ix.try_to_vec();
    assert_eq!(data.len(), 1 + 2 + 8 + 32 + 4 + 4);
    assert_eq!(GovernanceInstruction::try_from_slice(&data), Some(ix));
}

#[test]
fn pubkey_bytes_round_trip() {
    let bytes = [42u8; 32];
    assert_eq!(Pubkey::new_from_array(bytes).to_bytes(), bytes);
}

#[test]
fn distinct_instructions_have_distinct_data() {
    let all = all_instructions();
    for (i, a) in all.iter().enumerate() {
        for (j, b) in all.iter().enumerate() {
            if i != j {
                assert_ne!(a.try_to_vec(), b.try_to_vec());
            }
        }
    }
}
