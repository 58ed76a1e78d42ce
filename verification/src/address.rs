//! The program derived addresses of the governance accounts, from their seeds.
use vstd::prelude::*;
use vstd::slice::*;
use vstd::string::*;
use vstd::utf8::*;
use crate::laws::{
    pda, law_addresses, text_governance, text_account_governance, text_program_governance,
    text_mint_governance,
};
use crate::pubkey::{
    Pubkey, program_address, seeds_view, seeds_refused, try_find_program_address,
    bpf_loader_upgradeable_key, bpf_loader_upgradeable_id,
};

verus! {

/// The seed "governance".
pub open spec fn governance_seed() -> Seq<u8> {
    seq![103u8, 111u8, 118u8, 101u8, 114u8, 110u8, 97u8, 110u8, 99u8, 101u8]
}

/// The seed "account-governance".
pub open spec fn account_governance_seed() -> Seq<u8> {
    seq![97u8, 99u8, 99u8, 111u8, 117u8, 110u8, 116u8, 45u8] + governance_seed()
}

/// The seed "program-governance".
pub open spec fn program_governance_seed() -> Seq<u8> {
    seq![112u8, 114u8, 111u8, 103u8, 114u8, 97u8, 109u8, 45u8] + governance_seed()
}

/// The seed "mint-governance".
pub open spec fn mint_governance_seed() -> Seq<u8> {
    seq![109u8, 105u8, 110u8, 116u8, 45u8] + governance_seed()
}

/// The address that `seeds` derive under `program_id`, without its bump seed.
pub open spec fn derived(seeds: Seq<Seq<u8>>, program_id: Seq<u8>) -> Option<Seq<u8>> {
    match program_address(seeds, program_id) {
        Some((key, _)) => Some(key),
        None => None,
    }
}

/// The view of an optional address.
pub open spec fn opt_key(r: Option<Pubkey>) -> Option<Seq<u8>> {
    match r {
        Some(k) => Some(k@),
        None => None,
    }
}

/// Realm: seeds ['governance', name].
pub open spec fn realm_address(program_id: Seq<u8>, name: Seq<char>) -> Option<Seq<u8>> {
    derived(seq![governance_seed(), encode_utf8(name)], program_id)
}

/// Governing token holding account: seeds ['governance', realm, governing_token_mint].
pub open spec fn governing_token_holding_address(
    program_id: Seq<u8>,
    realm: Seq<u8>,
    governing_token_mint: Seq<u8>,
) -> Option<Seq<u8>> {
    derived(seq![governance_seed(), realm, governing_token_mint], program_id)
}

/// Token owner record: seeds ['governance', realm, governing_token_mint, governing_token_owner].
pub open spec fn token_owner_record_address(
    program_id: Seq<u8>,
    realm: Seq<u8>,
    governing_token_mint: Seq<u8>,
    governing_token_owner: Seq<u8>,
) -> Option<Seq<u8>> {
    derived(seq![governance_seed(), realm, governing_token_mint, governing_token_owner], program_id)
}

/// Account governance: seeds ['account-governance', realm, governed_account].
pub open spec fn account_governance_address(
    program_id: Seq<u8>,
    realm: Seq<u8>,
    governed_account: Seq<u8>,
) -> Option<Seq<u8>> {
    derived(seq![account_governance_seed(), realm, governed_account], program_id)
}

/// Program governance: seeds ['program-governance', realm, governed_program].
pub open spec fn program_governance_address(
    program_id: Seq<u8>,
    realm: Seq<u8>,
    governed_program: Seq<u8>,
) -> Option<Seq<u8>> {
    derived(seq![program_governance_seed(), realm, governed_program], program_id)
}

/// Mint governance: seeds ['mint-governance', realm, governed_mint].
pub open spec fn mint_governance_address(
    program_id: Seq<u8>,
    realm: Seq<u8>,
    governed_mint: Seq<u8>,
) -> Option<Seq<u8>> {
    derived(seq![mint_governance_seed(), realm, governed_mint], program_id)
}

/// Program data account of an upgradeable program: seeds [program] under the
/// upgradeable loader.
pub open spec fn program_data_address(program: Seq<u8>) -> Option<Seq<u8>> {
    derived(seq![program], bpf_loader_upgradeable_key())
}

/// Proposal: seeds ['governance', governance, governing_token_mint, proposal_index].
pub open spec fn proposal_address(
    program_id: Seq<u8>,
    governance: Seq<u8>,
    governing_token_mint: Seq<u8>,
    proposal_index_le_bytes: Seq<u8>,
) -> Option<Seq<u8>> {
    derived(
        seq![governance_seed(), governance, governing_token_mint, proposal_index_le_bytes],
        program_id,
    )
}

/// Signatory record: seeds ['governance', proposal, signatory].
pub open spec fn signatory_record_address(
    program_id: Seq<u8>,
    proposal: Seq<u8>,
    signatory: Seq<u8>,
) -> Option<Seq<u8>> {
    derived(seq![governance_seed(), proposal, signatory], program_id)
}

/// Vote record: seeds ['governance', proposal, token_owner_record].
pub open spec fn vote_record_address(
    program_id: Seq<u8>,
    proposal: Seq<u8>,
    token_owner_record: Seq<u8>,
) -> Option<Seq<u8>> {
    derived(seq![governance_seed(), proposal, token_owner_record], program_id)
}

/// Proposal instruction: seeds ['governance', proposal, instruction_index].
pub open spec fn proposal_instruction_address(
    program_id: Seq<u8>,
    proposal: Seq<u8>,
    instruction_index_le_bytes: Seq<u8>,
) -> Option<Seq<u8>> {
    derived(seq![governance_seed(), proposal, instruction_index_le_bytes], program_id)
}

fn governance_seed_vec() -> (r: Vec<u8>)
    ensures
        r@ == governance_seed(),
{
    let r = vec![103u8, 111u8, 118u8, 101u8, 114u8, 110u8, 97u8, 110u8, 99u8, 101u8];
    assert(r@ =~= governance_seed());
    r
}

fn account_governance_seed_vec() -> (r: Vec<u8>)
    ensures
        r@ == account_governance_seed(),
{
    let mut r = vec![97u8, 99u8, 99u8, 111u8, 117u8, 110u8, 116u8, 45u8];
    let mut g = governance_seed_vec();
    r.append(&mut g);
    assert(r@ =~= account_governance_seed());
    r
}

fn program_governance_seed_vec() -> (r: Vec<u8>)
    ensures
        r@ == program_governance_seed(),
{
    let mut r = vec![112u8, 114u8, 111u8, 103u8, 114u8, 97u8, 109u8, 45u8];
    let mut g = governance_seed_vec();
    r.append(&mut g);
    assert(r@ =~= program_governance_seed());
    r
}

fn mint_governance_seed_vec() -> (r: Vec<u8>)
    ensures
        r@ == mint_governance_seed(),
{
    let mut r = vec![109u8, 105u8, 110u8, 116u8, 45u8];
    let mut g = governance_seed_vec();
    r.append(&mut g);
    assert(r@ =~= mint_governance_seed());
    r
}

fn key_seed(k: &Pubkey) -> (r: Vec<u8>)
    ensures
        r@ == k@,
{
    slice_to_vec(k.0.as_slice())
}

/// The address that `seeds` derive under `program_id`, if one is found.
fn derive_address(seeds: &Vec<Vec<u8>>, program_id: &Pubkey) -> (r: Option<Pubkey>)
    ensures
        opt_key(r) == derived(seeds_view(seeds@), program_id@),
        seeds_refused(seeds_view(seeds@)) ==> r is None,
{
    match try_find_program_address(seeds, program_id) {
        Some((key, _)) => Some(key),
        None => None,
    }
}

/// Derives the address from a list of three seeds.
fn derive3(a: Vec<u8>, b: Vec<u8>, c: Vec<u8>, program_id: &Pubkey) -> (r: Option<Pubkey>)
    ensures
        opt_key(r) == derived(seq![a@, b@, c@], program_id@),
{
    let ghost (sa, sb, sc) = (a@, b@, c@);
    let mut seeds: Vec<Vec<u8>> = Vec::new();
    seeds.push(a);
    seeds.push(b);
    seeds.push(c);
    assert(seeds_view(seeds@) =~= seq![sa, sb, sc]);
    derive_address(&seeds, program_id)
}

/// Derives the address from a list of four seeds.
fn derive4(a: Vec<u8>, b: Vec<u8>, c: Vec<u8>, d: Vec<u8>, program_id: &Pubkey) -> (r: Option<
    Pubkey,
>)
    ensures
        opt_key(r) == derived(seq![a@, b@, c@, d@], program_id@),
{
    let ghost (sa, sb, sc, sd) = (a@, b@, c@, d@);
    let mut seeds: Vec<Vec<u8>> = Vec::new();
    seeds.push(a);
    seeds.push(b);
    seeds.push(c);
    seeds.push(d);
    assert(seeds_view(seeds@) =~= seq![sa, sb, sc, sd]);
    derive_address(&seeds, program_id)
}

/// The realm's address; `None` where none is found, as for a name longer than 32 bytes.
pub fn get_realm_address(program_id: &Pubkey, name: &str) -> (r: Option<Pubkey>)
    ensures
        opt_key(r) == realm_address(program_id@, name@),
        encode_utf8(name@).len() > 32 ==> r is None,
        opt_key(r) == pda(seq![text_governance(), encode_utf8(name@)], program_id@),
{
    let ghost g = governance_seed();
    let ghost n = encode_utf8(name@);
    let mut seeds: Vec<Vec<u8>> = Vec::new();
    seeds.push(governance_seed_vec());
    seeds.push(slice_to_vec(name.as_bytes()));
    assert(seeds_view(seeds@) =~= seq![g, n]);
    proof {
        if n.len() > 32 {
            assert(seeds_view(seeds@)[1].len() > 32);
            assert(seeds_refused(seeds_view(seeds@)));
        }
    }
    let r = derive_address(&seeds, program_id);
    proof {
        law_addresses(program_id@, name@, Seq::empty(), Seq::empty(), Seq::empty());
    }
    r
}

/// The governing token holding account's address.
pub fn get_governing_token_holding_address(
    program_id: &Pubkey,
    realm: &Pubkey,
    governing_token_mint: &Pubkey,
) -> (r: Option<Pubkey>)
    ensures
        opt_key(r) == governing_token_holding_address(
            program_id@,
            realm@,
            governing_token_mint@,
        ),
        opt_key(r) == pda(seq![text_governance(), realm@, governing_token_mint@], program_id@),
{
    let r = derive3(governance_seed_vec(), key_seed(realm), key_seed(governing_token_mint), program_id);
    proof {
        law_addresses(program_id@, Seq::empty(), realm@, governing_token_mint@, Seq::empty());
    }
    r
}

/// The token owner record's address.
pub fn get_token_owner_record_address(
    program_id: &Pubkey,
    realm: &Pubkey,
    governing_token_mint: &Pubkey,
    governing_token_owner: &Pubkey,
) -> (r: Option<Pubkey>)
    ensures
        opt_key(r) == token_owner_record_address(
            program_id@,
            realm@,
            governing_token_mint@,
            governing_token_owner@,
        ),
        opt_key(r) == pda(
            seq![text_governance(), realm@, governing_token_mint@, governing_token_owner@],
            program_id@,
        ),
{
    let r = derive4(
        governance_seed_vec(),
        key_seed(realm),
        key_seed(governing_token_mint),
        key_seed(governing_token_owner),
        program_id,
    );
    proof {
        law_addresses(program_id@, Seq::empty(), realm@, governing_token_mint@, governing_token_owner@);
    }
    r
}

/// The account governance's address.
pub fn get_account_governance_address(
    program_id: &Pubkey,
    realm: &Pubkey,
    governed_account: &Pubkey,
) -> (r: Option<Pubkey>)
    ensures
        opt_key(r) == account_governance_address(program_id@, realm@, governed_account@),
        opt_key(r) == pda(seq![text_account_governance(), realm@, governed_account@], program_id@),
{
    let r = derive3(account_governance_seed_vec(), key_seed(realm), key_seed(governed_account), program_id);
    proof {
        law_addresses(program_id@, Seq::empty(), realm@, governed_account@, Seq::empty());
    }
    r
}

/// The program governance's address.
pub fn get_program_governance_address(
    program_id: &Pubkey,
    realm: &Pubkey,
    governed_program: &Pubkey,
) -> (r: Option<Pubkey>)
    ensures
        opt_key(r) == program_governance_address(program_id@, realm@, governed_program@),
        opt_key(r) == pda(seq![text_program_governance(), realm@, governed_program@], program_id@),
{
    let r = derive3(program_governance_seed_vec(), key_seed(realm), key_seed(governed_program), program_id);
    proof {
        law_addresses(program_id@, Seq::empty(), realm@, governed_program@, Seq::empty());
    }
    r
}

/// The mint governance's address.
pub fn get_mint_governance_address(
    program_id: &Pubkey,
    realm: &Pubkey,
    governed_mint: &Pubkey,
) -> (r: Option<Pubkey>)
    ensures
        opt_key(r) == mint_governance_address(program_id@, realm@, governed_mint@),
        opt_key(r) == pda(seq![text_mint_governance(), realm@, governed_mint@], program_id@),
{
    let r = derive3(mint_governance_seed_vec(), key_seed(realm), key_seed(governed_mint), program_id);
    proof {
        law_addresses(program_id@, Seq::empty(), realm@, governed_mint@, Seq::empty());
    }
    r
}

/// The program data account's address of an upgradeable program.
pub fn get_program_data_address(program: &Pubkey) -> (r: Option<Pubkey>)
    ensures
        opt_key(r) == program_data_address(program@),
        opt_key(r) == pda(seq![program@], bpf_loader_upgradeable_key()),
{
    let ghost p = program@;
    let loader = bpf_loader_upgradeable_id();
    let mut seeds: Vec<Vec<u8>> = Vec::new();
    seeds.push(key_seed(program));
    assert(seeds_view(seeds@) =~= seq![p]);
    let r = derive_address(&seeds, &loader);
    proof {
        law_addresses(Seq::empty(), Seq::empty(), program@, Seq::empty(), Seq::empty());
    }
    r
}

/// The proposal's address.
pub fn get_proposal_address(
    program_id: &Pubkey,
    governance: &Pubkey,
    governing_token_mint: &Pubkey,
    proposal_index_le_bytes: &[u8],
) -> (r: Option<Pubkey>)
    ensures
        opt_key(r) == proposal_address(
            program_id@,
            governance@,
            governing_token_mint@,
            proposal_index_le_bytes@,
        ),
        opt_key(r) == pda(
            seq![text_governance(), governance@, governing_token_mint@, proposal_index_le_bytes@],
            program_id@,
        ),
{
    let r = derive4(
        governance_seed_vec(),
        key_seed(governance),
        key_seed(governing_token_mint),
        slice_to_vec(proposal_index_le_bytes),
        program_id,
    );
    proof {
        law_addresses(program_id@, Seq::empty(), governance@, governing_token_mint@, proposal_index_le_bytes@);
    }
    r
}

/// The signatory record's address.
pub fn get_signatory_record_address(program_id: &Pubkey, proposal: &Pubkey, signatory: &Pubkey) -> (r:
    Option<Pubkey>)
    ensures
        opt_key(r) == signatory_record_address(program_id@, proposal@, signatory@),
        opt_key(r) == pda(seq![text_governance(), proposal@, signatory@], program_id@),
{
    let r = derive3(governance_seed_vec(), key_seed(proposal), key_seed(signatory), program_id);
    proof {
        law_addresses(program_id@, Seq::empty(), proposal@, signatory@, Seq::empty());
    }
    r
}

/// The vote record's address.
pub fn get_vote_record_address(
    program_id: &Pubkey,
    proposal: &Pubkey,
    token_owner_record: &Pubkey,
) -> (r: Option<Pubkey>)
    ensures
        opt_key(r) == vote_record_address(program_id@, proposal@, token_owner_record@),
        opt_key(r) == pda(seq![text_governance(), proposal@, token_owner_record@], program_id@),
{
    let r = derive3(governance_seed_vec(), key_seed(proposal), key_seed(token_owner_record), program_id);
    proof {
        law_addresses(program_id@, Seq::empty(), proposal@, token_owner_record@, Seq::empty());
    }
    r
}

/// The proposal instruction's address.
pub fn get_proposal_instruction_address(
    program_id: &Pubkey,
    proposal: &Pubkey,
    instruction_index_le_bytes: &[u8],
) -> (r: Option<Pubkey>)
    ensures
        opt_key(r) == proposal_instruction_address(
            program_id@,
            proposal@,
            instruction_index_le_bytes@,
        ),
        opt_key(r) == pda(seq![text_governance(), proposal@, instruction_index_le_bytes@], program_id@),
{
    let r = derive3(
        governance_seed_vec(),
        key_seed(proposal),
        slice_to_vec(instruction_index_le_bytes),
        program_id,
    );
    proof {
        law_addresses(program_id@, Seq::empty(), proposal@, instruction_index_le_bytes@, Seq::empty());
    }
    r
}

} // verus!
