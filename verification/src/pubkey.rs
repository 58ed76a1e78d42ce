//! Account addresses, account metadata and instructions, with the calls into
//! `solana_program` and `spl_token` that derive or name addresses.
use vstd::prelude::*;

verus! {

/// A 32-byte account address.
#[derive(Clone, Copy, Debug, PartialEq, Eq)]
pub struct Pubkey(pub [u8; 32]);

impl View for Pubkey {
    type V = Seq<u8>;

    open spec fn view(&self) -> Seq<u8> {
        self.0@
    }
}

impl Pubkey {
    /// Builds an address from its 32 bytes.
    pub fn new_from_array(bytes: [u8; 32]) -> (r: Pubkey)
        ensures
            r@ == bytes@,
    {
        Pubkey(bytes)
    }

    /// The 32 bytes of the address.
    pub fn to_bytes(&self) -> (r: [u8; 32])
        ensures
            r@ == self@,
    {
        self.0
    }
}

/// What an account entry of an instruction says: the address and its two flags.
pub struct AccountMetaView {
    pub pubkey: Seq<u8>,
    pub is_signer: bool,
    pub is_writable: bool,
}

/// The entry for a writable account.
pub open spec fn writable(pubkey: Seq<u8>, is_signer: bool) -> AccountMetaView {
    AccountMetaView { pubkey, is_signer, is_writable: true }
}

/// The entry for a read-only account.
pub open spec fn readonly(pubkey: Seq<u8>, is_signer: bool) -> AccountMetaView {
    AccountMetaView { pubkey, is_signer, is_writable: false }
}

/// An account that an instruction reads or writes, and whether it must sign.
#[derive(Clone, Copy, Debug, PartialEq, Eq)]
pub struct AccountMeta {
    pub pubkey: Pubkey,
    pub is_signer: bool,
    pub is_writable: bool,
}

impl View for AccountMeta {
    type V = AccountMetaView;

    open spec fn view(&self) -> AccountMetaView {
        AccountMetaView { pubkey: self.pubkey@, is_signer: self.is_signer, is_writable: self.is_writable }
    }
}

impl AccountMeta {
    /// Metadata for a writable account.
    pub fn new(pubkey: Pubkey, is_signer: bool) -> (r: AccountMeta)
        ensures
            r@ == writable(pubkey@, is_signer),
    {
        AccountMeta { pubkey, is_signer, is_writable: true }
    }

    /// Metadata for a read-only account.
    pub fn new_readonly(pubkey: Pubkey, is_signer: bool) -> (r: AccountMeta)
        ensures
            r@ == readonly(pubkey@, is_signer),
    {
        AccountMeta { pubkey, is_signer, is_writable: false }
    }
}

/// The views of a sequence of account entries.
pub open spec fn metas_view(metas: Seq<AccountMeta>) -> Seq<AccountMetaView> {
    metas.map_values(|m: AccountMeta| m@)
}

/// What an instruction says: the program to run, its accounts in order, and its data.
pub struct InstructionView {
    pub program_id: Seq<u8>,
    pub accounts: Seq<AccountMetaView>,
    pub data: Seq<u8>,
}

/// An instruction for a program: the program's address, the accounts it touches and
/// the instruction data.
#[derive(Clone, Debug, PartialEq, Eq)]
pub struct Instruction {
    pub program_id: Pubkey,
    pub accounts: Vec<AccountMeta>,
    pub data: Vec<u8>,
}

impl View for Instruction {
    type V = InstructionView;

    open spec fn view(&self) -> InstructionView {
        InstructionView {
            program_id: self.program_id@,
            accounts: metas_view(self.accounts@),
            data: self.data@,
        }
    }
}

/// The view of an optional instruction.
pub open spec fn opt_instruction_view(r: Option<Instruction>) -> Option<InstructionView> {
    match r {
        Some(ix) => Some(ix@),
        None => None,
    }
}

/// The program derived address of `seeds` under `program_id` and its bump seed, as
/// `solana_program::pubkey::Pubkey::try_find_program_address` finds them (`None` where
/// no bump seed gives an address off the ed25519 curve, or where the seeds are refused).
pub uninterp spec fn program_address(seeds: Seq<Seq<u8>>, program_id: Seq<u8>) -> Option<
    (Seq<u8>, u8),
>;

/// The views of a list of seeds.
pub open spec fn seeds_view(seeds: Seq<Vec<u8>>) -> Seq<Seq<u8>> {
    seeds.map_values(|s: Vec<u8>| s@)
}

/// True when a seed list is refused outright: 16 or more seeds (with the bump seed
/// that makes more than 16), or a seed longer than 32 bytes.
pub open spec fn seeds_refused(seeds: Seq<Seq<u8>>) -> bool {
    seeds.len() >= 16 || exists|i: int| 0 <= i < seeds.len() && #[trigger] seeds[i].len() > 32
}

/// Calls `solana_program::pubkey::Pubkey::try_find_program_address`.
/// Claims: the result is the named `program_address` of the seeds and program id, and
/// it is `None` when the seeds are refused (the source's `create_program_address`
/// answers `MaxSeedLengthExceeded` there and the search stops).
#[verifier::external_body]
pub(crate) fn try_find_program_address(seeds: &Vec<Vec<u8>>, program_id: &Pubkey) -> (r: Option<
    (Pubkey, u8),
>)
    ensures
        match r {
            Some((key, bump)) => program_address(seeds_view(seeds@), program_id@) == Some(
                (key@, bump),
            ),
            None => program_address(seeds_view(seeds@), program_id@) is None,
        },
        seeds_refused(seeds_view(seeds@)) ==> r is None,
{
    let slices: Vec<&[u8]> = seeds.iter().map(|s| s.as_slice()).collect();
    let id = solana_program::pubkey::Pubkey::new_from_array(program_id.0);
    solana_program::pubkey::Pubkey::try_find_program_address(&slices, &id).map(
        |(key, bump)| (Pubkey(key.to_bytes()), bump),
    )
}

/// The address declared by `solana_program::system_program` ("11111111111111111111111111111111").
pub open spec fn system_program_key() -> Seq<u8> {
    seq![
        0u8, 0u8, 0u8, 0u8, 0u8, 0u8, 0u8, 0u8, 0u8, 0u8, 0u8, 0u8, 0u8, 0u8, 0u8, 0u8,
        0u8, 0u8, 0u8, 0u8, 0u8, 0u8, 0u8, 0u8, 0u8, 0u8, 0u8, 0u8, 0u8, 0u8, 0u8, 0u8,
    ]
}

/// The address declared by `spl_token` ("TokenkegQfeZyiNwAJbNbGKPFXCWuBvf9Ss623VQ5DA").
pub open spec fn spl_token_key() -> Seq<u8> {
    seq![
        6u8, 221u8, 246u8, 225u8, 215u8, 101u8, 161u8, 147u8, 217u8, 203u8, 225u8, 70u8,
        206u8, 235u8, 121u8, 172u8, 28u8, 180u8, 133u8, 237u8, 95u8, 91u8, 55u8, 145u8,
        58u8, 140u8, 245u8, 133u8, 126u8, 255u8, 0u8, 169u8,
    ]
}

/// The address declared by `solana_program::sysvar::rent` ("SysvarRent111111111111111111111111111111111").
pub open spec fn rent_sysvar_key() -> Seq<u8> {
    seq![
        6u8, 167u8, 213u8, 23u8, 25u8, 44u8, 92u8, 81u8, 33u8, 140u8, 201u8, 76u8, 61u8,
        74u8, 241u8, 127u8, 88u8, 218u8, 238u8, 8u8, 155u8, 161u8, 253u8, 68u8, 227u8,
        219u8, 217u8, 138u8, 0u8, 0u8, 0u8, 0u8,
    ]
}

/// The address declared by `solana_program::sysvar::clock` ("SysvarC1ock11111111111111111111111111111111").
pub open spec fn clock_sysvar_key() -> Seq<u8> {
    seq![
        6u8, 167u8, 213u8, 23u8, 24u8, 199u8, 116u8, 201u8, 40u8, 86u8, 99u8, 152u8, 105u8,
        29u8, 94u8, 182u8, 139u8, 94u8, 184u8, 163u8, 155u8, 75u8, 109u8, 92u8, 115u8,
        85u8, 91u8, 33u8, 0u8, 0u8, 0u8, 0u8,
    ]
}

/// The address declared by `solana_program::bpf_loader_upgradeable`
/// ("BPFLoaderUpgradeab1e11111111111111111111111").
pub open spec fn bpf_loader_upgradeable_key() -> Seq<u8> {
    seq![
        2u8, 168u8, 246u8, 145u8, 78u8, 136u8, 161u8, 176u8, 226u8, 16u8, 21u8, 62u8, 247u8,
        99u8, 174u8, 43u8, 0u8, 194u8, 185u8, 61u8, 22u8, 193u8, 36u8, 210u8, 192u8, 83u8,
        122u8, 16u8, 4u8, 128u8, 0u8, 0u8,
    ]
}

/// Calls `solana_program::system_program::id`.
/// Claims: the bytes of the base58 address that the source declares.
#[verifier::external_body]
pub(crate) fn system_program_id() -> (r: Pubkey)
    ensures
        r@ == system_program_key(),
{
    Pubkey(solana_program::system_program::id().to_bytes())
}

/// Calls `spl_token::id`.
/// Claims: the bytes of the base58 address that the source declares.
#[verifier::external_body]
pub(crate) fn spl_token_id() -> (r: Pubkey)
    ensures
        r@ == spl_token_key(),
{
    Pubkey(spl_token::id().to_bytes())
}

/// Calls `solana_program::sysvar::rent::id`.
/// Claims: the bytes of the base58 address that the source declares.
#[verifier::external_body]
pub(crate) fn rent_sysvar_id() -> (r: Pubkey)
    ensures
        r@ == rent_sysvar_key(),
{
    Pubkey(solana_program::sysvar::rent::id().to_bytes())
}

/// Calls `solana_program::sysvar::clock::id`.
/// Claims: the bytes of the base58 address that the source declares.
#[verifier::external_body]
pub(crate) fn clock_sysvar_id() -> (r: Pubkey)
    ensures
        r@ == clock_sysvar_key(),
{
    Pubkey(solana_program::sysvar::clock::id().to_bytes())
}

/// Calls `solana_program::bpf_loader_upgradeable::id`.
/// Claims: the bytes of the base58 address that the source declares.
#[verifier::external_body]
pub(crate) fn bpf_loader_upgradeable_id() -> (r: Pubkey)
    ensures
        r@ == bpf_loader_upgradeable_key(),
{
    Pubkey(solana_program::bpf_loader_upgradeable::id().to_bytes())
}

} // verus!
