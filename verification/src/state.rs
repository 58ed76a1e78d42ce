//! The records that instruction data carries besides plain fields: a governance's
//! configuration and an instruction stored in a proposal, with their byte format.
use vstd::prelude::*;
use vstd::bytes::*;
use crate::codec::{
    enc_bool, enc_u16, enc_u32, enc_u64, enc_bytes, bytes_fit, is_key, parse_bytes, parse_u32,
    parse_key, put_bool, put_bytes, put_key, put_u16, put_u32, put_u64, put_u8,
    read_bool, read_bytes, read_key, read_u16, read_u32, read_u64, read_u8, lemma_u16,
    lemma_u32, lemma_u64, lemma_u16_back, lemma_u32_back, lemma_u64_back, lemma_bytes,
    lemma_bytes_back,
};
use crate::pubkey::{Pubkey, AccountMetaView, InstructionView};

verus! {



/// What a governance configuration says.
pub struct GovernanceConfigView {
    pub realm: Seq<u8>,
    pub governed_account: Seq<u8>,
    pub yes_vote_threshold_percentage: u8,
    pub min_tokens_to_create_proposal: u16,
    pub min_instruction_hold_up_time: u64,
    pub max_voting_time: u64,
}

/// Governance configuration.
#[derive(Clone, Copy, Debug, PartialEq, Eq)]
pub struct GovernanceConfig {
    /// Governance Realm
    pub realm: Pubkey,
    /// Account governed by this Governance: a program, a mint or any other account
    pub governed_account: Pubkey,
    /// Voting threshold of Yes votes, in percent, required to tip the vote
    pub yes_vote_threshold_percentage: u8,
    /// Minimum number of tokens that a governing token owner must hold to create a proposal
    pub min_tokens_to_create_proposal: u16,
    /// Minimum waiting time in slots for an instruction to be executed after the vote
    pub min_instruction_hold_up_time: u64,
    /// Time limit in slots for a proposal to be open for voting
    pub max_voting_time: u64,
}

impl View for GovernanceConfig {
    type V = GovernanceConfigView;

    open spec fn view(&self) -> GovernanceConfigView {
        GovernanceConfigView {
            realm: self.realm@,
            governed_account: self.governed_account@,
            yes_vote_threshold_percentage: self.yes_vote_threshold_percentage,
            min_tokens_to_create_proposal: self.min_tokens_to_create_proposal,
            min_instruction_hold_up_time: self.min_instruction_hold_up_time,
            max_voting_time: self.max_voting_time,
        }
    }
}

/// An account of an instruction stored in a proposal.
#[derive(Clone, Copy, Debug, PartialEq, Eq)]
pub struct AccountMetaData {
    /// An account's address
    pub pubkey: Pubkey,
    /// True if the instruction requires a signature from this account
    pub is_signer: bool,
    /// True if the account is writable
    pub is_writable: bool,
}

impl View for AccountMetaData {
    type V = AccountMetaView;

    open spec fn view(&self) -> AccountMetaView {
        AccountMetaView { pubkey: self.pubkey@, is_signer: self.is_signer, is_writable: self.is_writable }
    }
}

/// The views of a list of stored accounts.
pub open spec fn meta_data_view(ms: Seq<AccountMetaData>) -> Seq<AccountMetaView> {
    ms.map_values(|m: AccountMetaData| m@)
}

/// An instruction stored in a proposal, to be executed once the proposal passes.
#[derive(Clone, Debug, PartialEq, Eq)]
pub struct InstructionData {
    /// Program that executes the instruction
    pub program_id: Pubkey,
    /// Accounts that the instruction touches
    pub accounts: Vec<AccountMetaData>,
    /// Opaque data passed to the instruction processor
    pub data: Vec<u8>,
}

impl View for InstructionData {
    type V = InstructionView;

    open spec fn view(&self) -> InstructionView {
        InstructionView {
            program_id: self.program_id@,
            accounts: meta_data_view(self.accounts@),
            data: self.data@,
        }
    }
}

// ---------------------------------------------------------------- format

/// A configuration whose addresses are 32 bytes long.
pub open spec fn config_wf(c: GovernanceConfigView) -> bool {
    is_key(c.realm) && is_key(c.governed_account)
}

/// Encoding of a configuration: its fields in order.
pub open spec fn enc_config(c: GovernanceConfigView) -> Seq<u8> {
    c.realm + c.governed_account + seq![c.yes_vote_threshold_percentage] + enc_u16(
        c.min_tokens_to_create_proposal,
    ) + enc_u64(c.min_instruction_hold_up_time) + enc_u64(c.max_voting_time)
}

/// A configuration takes 83 bytes.
pub open spec fn parse_config(s: Seq<u8>) -> Option<(GovernanceConfigView, int)> {
    if s.len() >= 83 {
        Some(
            (
                GovernanceConfigView {
                    realm: s.subrange(0, 32),
                    governed_account: s.subrange(32, 64),
                    yes_vote_threshold_percentage: s[64],
                    min_tokens_to_create_proposal: spec_u16_from_le_bytes(s.subrange(65, 67)),
                    min_instruction_hold_up_time: spec_u64_from_le_bytes(s.subrange(67, 75)),
                    max_voting_time: spec_u64_from_le_bytes(s.subrange(75, 83)),
                },
                83,
            ),
        )
    } else {
        None
    }
}

/// An account entry whose address is 32 bytes long.
pub open spec fn meta_wf(m: AccountMetaView) -> bool {
    is_key(m.pubkey)
}

/// Encoding of an account entry: address, signer flag, writable flag.
pub open spec fn enc_meta(m: AccountMetaView) -> Seq<u8> {
    m.pubkey + enc_bool(m.is_signer) + enc_bool(m.is_writable)
}

/// An account entry takes 34 bytes.
pub open spec fn parse_meta(s: Seq<u8>) -> Option<(AccountMetaView, int)> {
    if s.len() >= 34 && s[32] <= 1 && s[33] <= 1 {
        Some(
            (
                AccountMetaView {
                    pubkey: s.subrange(0, 32),
                    is_signer: s[32] == 1,
                    is_writable: s[33] == 1,
                },
                34,
            ),
        )
    } else {
        None
    }
}

/// The account entries one after the other, without their count.
pub open spec fn enc_meta_list(ms: Seq<AccountMetaView>) -> Seq<u8>
    decreases ms.len(),
{
    if ms.len() == 0 {
        Seq::empty()
    } else {
        enc_meta_list(ms.drop_last()) + enc_meta(ms.last())
    }
}

/// Reads `count` account entries one after the other.
pub open spec fn parse_meta_list(s: Seq<u8>, count: nat) -> Option<Seq<AccountMetaView>>
    decreases count,
{
    if count == 0 {
        Some(Seq::empty())
    } else {
        match parse_meta_list(s, (count - 1) as nat) {
            None => None,
            Some(ms) => match parse_meta(s.skip(34 * (count - 1))) {
                None => None,
                Some((m, _)) => Some(ms.push(m)),
            },
        }
    }
}

/// An instruction whose addresses are 32 bytes long and whose lists fit the `u32`
/// length prefix.
pub open spec fn instruction_data_wf(d: InstructionView) -> bool {
    &&& is_key(d.program_id)
    &&& d.accounts.len() <= u32::MAX
    &&& forall|i: int| 0 <= i < d.accounts.len() ==> meta_wf(#[trigger] d.accounts[i])
    &&& bytes_fit(d.data)
}

/// Encoding of a stored instruction: program, count and entries of the accounts,
/// then the data as a byte string.
pub open spec fn enc_instruction_data(d: InstructionView) -> Seq<u8> {
    d.program_id + enc_u32(d.accounts.len() as u32) + enc_meta_list(d.accounts) + enc_bytes(
        d.data,
    )
}

pub open spec fn parse_instruction_data(s: Seq<u8>) -> Option<(InstructionView, int)> {
    match parse_key(s) {
        None => None,
        Some((program_id, _)) => match parse_u32(s.skip(32)) {
            None => None,
            Some((count, _)) => match parse_meta_list(s.skip(36), count as nat) {
                None => None,
                Some(accounts) => match parse_bytes(s.skip(36 + 34 * count)) {
                    None => None,
                    Some((data, n)) => Some(
                        (InstructionView { program_id, accounts, data }, 36 + 34 * count + n),
                    ),
                },
            },
        },
    }
}

// ---------------------------------------------------------------- laws of the format

pub proof fn lemma_config(c: GovernanceConfigView, rest: Seq<u8>)
    requires
        config_wf(c),
    ensures
        enc_config(c).len() == 83,
        parse_config(enc_config(c) + rest) == Some((c, 83int)),
{
    lemma_u16(c.min_tokens_to_create_proposal, Seq::empty());
    lemma_u64(c.min_instruction_hold_up_time, Seq::empty());
    lemma_u64(c.max_voting_time, Seq::empty());
    lemma_auto_spec_u16_to_from_le_bytes();
    lemma_auto_spec_u64_to_from_le_bytes();
    let s = enc_config(c) + rest;
    assert(s.subrange(0, 32) =~= c.realm);
    assert(s.subrange(32, 64) =~= c.governed_account);
    assert(s.subrange(65, 67) =~= enc_u16(c.min_tokens_to_create_proposal));
    assert(s.subrange(67, 75) =~= enc_u64(c.min_instruction_hold_up_time));
    assert(s.subrange(75, 83) =~= enc_u64(c.max_voting_time));
}

pub proof fn lemma_config_back(s: Seq<u8>)
    requires
        parse_config(s) is Some,
    ensures
        config_wf(parse_config(s).unwrap().0),
        s.subrange(0, 83) == enc_config(parse_config(s).unwrap().0),
{
    let c = parse_config(s).unwrap().0;
    lemma_u16_back(s.skip(65));
    lemma_u64_back(s.skip(67));
    lemma_u64_back(s.skip(75));
    assert(s.skip(65).subrange(0, 2) =~= s.subrange(65, 67));
    assert(s.skip(67).subrange(0, 8) =~= s.subrange(67, 75));
    assert(s.skip(75).subrange(0, 8) =~= s.subrange(75, 83));
    assert(s.subrange(0, 83) =~= enc_config(c));
}

pub proof fn lemma_meta(m: AccountMetaView, rest: Seq<u8>)
    requires
        meta_wf(m),
    ensures
        enc_meta(m).len() == 34,
        parse_meta(enc_meta(m) + rest) == Some((m, 34int)),
{
    let s = enc_meta(m) + rest;
    assert(s.subrange(0, 32) =~= m.pubkey);
}

pub proof fn lemma_meta_back(s: Seq<u8>)
    requires
        parse_meta(s) is Some,
    ensures
        meta_wf(parse_meta(s).unwrap().0),
        s.subrange(0, 34) == enc_meta(parse_meta(s).unwrap().0),
{
    let m = parse_meta(s).unwrap().0;
    assert(s.subrange(0, 34) =~= enc_meta(m));
}

pub proof fn lemma_meta_list_len(ms: Seq<AccountMetaView>)
    requires
        forall|i: int| 0 <= i < ms.len() ==> meta_wf(#[trigger] ms[i]),
    ensures
        enc_meta_list(ms).len() == 34 * ms.len(),
    decreases ms.len(),
{
    if ms.len() > 0 {
        lemma_meta_list_len(ms.drop_last());
        lemma_meta(ms.last(), Seq::empty());
    }
}

pub proof fn lemma_meta_list(ms: Seq<AccountMetaView>, rest: Seq<u8>)
    requires
        forall|i: int| 0 <= i < ms.len() ==> meta_wf(#[trigger] ms[i]),
    ensures
        enc_meta_list(ms).len() == 34 * ms.len(),
        parse_meta_list(enc_meta_list(ms) + rest, ms.len()) == Some(ms),
    decreases ms.len(),
{
    lemma_meta_list_len(ms);
    if ms.len() > 0 {
        let init = ms.drop_last();
        let last = ms.last();
        let tail = enc_meta(last) + rest;
        lemma_meta_list(init, tail);
        lemma_meta_list_len(init);
        let s = enc_meta_list(ms) + rest;
        assert(s =~= enc_meta_list(init) + tail);
        assert(s.skip(34 * (ms.len() - 1)) =~= tail);
        lemma_meta(last, rest);
        assert(init.push(last) =~= ms);
    }
}

pub proof fn lemma_meta_list_back(s: Seq<u8>, count: nat)
    requires
        parse_meta_list(s, count) is Some,
    ensures
        ({
            let ms = parse_meta_list(s, count).unwrap();
            &&& ms.len() == count
            &&& forall|i: int| 0 <= i < ms.len() ==> meta_wf(#[trigger] ms[i])
            &&& s.len() >= 34 * count
            &&& s.subrange(0, 34 * count as int) == enc_meta_list(ms)
        }),
    decreases count,
{
    if count > 0 {
        let c1 = (count - 1) as nat;
        lemma_meta_list_back(s, c1);
        let init = parse_meta_list(s, c1).unwrap();
        let ms = parse_meta_list(s, count).unwrap();
        let t = s.skip(34 * c1 as int);
        lemma_meta_back(t);
        let m = parse_meta(t).unwrap().0;
        assert(ms == init.push(m));
        assert(ms.drop_last() =~= init);
        assert(s.subrange(0, 34 * count as int) =~= s.subrange(0, 34 * c1 as int) + t.subrange(0, 34));
        assert forall|i: int| 0 <= i < ms.len() implies meta_wf(#[trigger] ms[i]) by {
            if i < c1 {
                assert(ms[i] == init[i]);
            }
        }
    }
}

/// Where `count` entries parse, each of the first `count` entries parses.
pub proof fn lemma_meta_list_each(s: Seq<u8>, count: nat, i: nat)
    requires
        parse_meta_list(s, count) is Some,
        i < count,
    ensures
        parse_meta(s.skip(34 * i as int)) is Some,
        parse_meta_list(s, i) is Some,
    decreases count,
{
    if i < count - 1 {
        lemma_meta_list_each(s, (count - 1) as nat, i);
    }
}

pub proof fn lemma_instruction_data(d: InstructionView, rest: Seq<u8>)
    requires
        instruction_data_wf(d),
    ensures
        enc_instruction_data(d).len() == 40 + 34 * d.accounts.len() + d.data.len(),
        parse_instruction_data(enc_instruction_data(d) + rest) == Some(
            (d, enc_instruction_data(d).len() as int),
        ),
{
    let count = d.accounts.len() as u32;
    let list = enc_meta_list(d.accounts);
    let data = enc_bytes(d.data);
    let s = enc_instruction_data(d) + rest;
    let r3 = data + rest;
    let r2 = list + r3;
    let r1 = enc_u32(count) + r2;
    lemma_u32(count, r2);
    lemma_meta_list(d.accounts, r3);
    lemma_bytes(d.data, rest);
    assert(s =~= d.program_id + r1);
    assert(s.subrange(0, 32) =~= d.program_id);
    assert(s.skip(32) =~= r1);
    assert(s.skip(36) =~= r2);
    assert(s.skip(36 + 34 * count) =~= r3);
    assert(parse_key(s) == Some((d.program_id, 32int)));
    assert(parse_u32(s.skip(32)) == Some((count, 4int)));
    assert(parse_meta_list(s.skip(36), count as nat) == Some(d.accounts));
    assert(parse_bytes(s.skip(36 + 34 * count)) == Some((d.data, 4 + d.data.len() as int)));
}

pub proof fn lemma_instruction_data_back(s: Seq<u8>)
    requires
        parse_instruction_data(s) is Some,
    ensures
        ({
            let (d, n) = parse_instruction_data(s).unwrap();
            &&& instruction_data_wf(d)
            &&& 0 <= n <= s.len()
            &&& s.subrange(0, n) == enc_instruction_data(d)
        }),
{
    let (d, n) = parse_instruction_data(s).unwrap();
    let count = parse_u32(s.skip(32)).unwrap().0;
    lemma_u32_back(s.skip(32));
    lemma_meta_list_back(s.skip(36), count as nat);
    let t = s.skip(36 + 34 * count);
    lemma_bytes_back(t);
    let m = parse_bytes(t).unwrap().1;
    assert(d.accounts.len() == count);
    assert(s.subrange(0, n) =~= s.subrange(0, 32) + s.skip(32).subrange(0, 4) + s.skip(
        36,
    ).subrange(0, 34 * count) + t.subrange(0, m));
}

// ---------------------------------------------------------------- writing and reading

pub fn put_config(out: &mut Vec<u8>, c: &GovernanceConfig)
    ensures
        final(out)@ == old(out)@ + enc_config(c@),
{
    let ghost start = out@;
    put_key(out, &c.realm);
    put_key(out, &c.governed_account);
    put_u8(out, c.yes_vote_threshold_percentage);
    put_u16(out, c.min_tokens_to_create_proposal);
    put_u64(out, c.min_instruction_hold_up_time);
    put_u64(out, c.max_voting_time);
    assert(out@ =~= start + enc_config(c@));
}

pub fn put_meta(out: &mut Vec<u8>, m: &AccountMetaData)
    ensures
        final(out)@ == old(out)@ + enc_meta(m@),
{
    let ghost start = out@;
    put_key(out, &m.pubkey);
    put_bool(out, m.is_signer);
    put_bool(out, m.is_writable);
    assert(out@ =~= start + enc_meta(m@));
}

pub fn put_instruction_data(out: &mut Vec<u8>, d: &InstructionData)
    requires
        d.accounts@.len() <= u32::MAX,
        bytes_fit(d.data@),
    ensures
        final(out)@ == old(out)@ + enc_instruction_data(d@),
{
    let ghost start = out@;
    put_key(out, &d.program_id);
    let n = d.accounts.len();
    put_u32(out, n as u32);
    let ghost mid = out@;
    for i in 0..n
        invariant
            n == d.accounts@.len(),
            out@ == mid + enc_meta_list(meta_data_view(d.accounts@.take(i as int))),
    {
        put_meta(out, &d.accounts[i]);
        assert(meta_data_view(d.accounts@.take(i + 1)).drop_last() =~= meta_data_view(
            d.accounts@.take(i as int),
        ));
    }
    assert(d.accounts@.take(n as int) =~= d.accounts@);
    put_bytes(out, d.data.as_slice());
    assert(out@ =~= start + enc_instruction_data(d@));
}

pub fn read_config(data: &[u8], pos: usize) -> (r: Option<(GovernanceConfig, usize)>)
    requires
        pos <= data@.len(),
    ensures
        match (r, parse_config(data@.skip(pos as int))) {
            (Some((c, p)), Some((v, n))) => c@ == v && p == pos + n,
            (None, None) => true,
            _ => false,
        },
{
    if data.len() - pos < 83 {
        return None;
    }
    let ghost s = data@.skip(pos as int);
    let (realm, p1) = read_key(data, pos).unwrap();
    let (governed_account, p2) = read_key(data, p1).unwrap();
    let (yes, p3) = read_u8(data, p2).unwrap();
    let (min_tokens, p4) = read_u16(data, p3).unwrap();
    let (hold, p5) = read_u64(data, p4).unwrap();
    let (max_time, p6) = read_u64(data, p5).unwrap();
    assert(data@.skip(pos as int).subrange(0, 32) =~= s.subrange(0, 32));
    assert(data@.skip(p1 as int).subrange(0, 32) =~= s.subrange(32, 64));
    assert(data@.skip(p3 as int).subrange(0, 2) =~= s.subrange(65, 67));
    assert(data@.skip(p4 as int).subrange(0, 8) =~= s.subrange(67, 75));
    assert(data@.skip(p5 as int).subrange(0, 8) =~= s.subrange(75, 83));
    let c = GovernanceConfig {
        realm,
        governed_account,
        yes_vote_threshold_percentage: yes,
        min_tokens_to_create_proposal: min_tokens,
        min_instruction_hold_up_time: hold,
        max_voting_time: max_time,
    };
    Some((c, p6))
}

pub fn read_meta(data: &[u8], pos: usize) -> (r: Option<(AccountMetaData, usize)>)
    requires
        pos <= data@.len(),
    ensures
        match (r, parse_meta(data@.skip(pos as int))) {
            (Some((m, p)), Some((v, n))) => m@ == v && p == pos + n,
            (None, None) => true,
            _ => false,
        },
{
    if data.len() - pos < 34 {
        return None;
    }
    let (pubkey, p1) = read_key(data, pos).unwrap();
    match read_bool(data, p1) {
        None => None,
        Some((is_signer, p2)) => match read_bool(data, p2) {
            None => None,
            Some((is_writable, p3)) => Some((AccountMetaData { pubkey, is_signer, is_writable }, p3)),
        },
    }
}

/// Reads `count` account entries from `pos` on.
fn read_meta_list(data: &[u8], pos: usize, count: u32) -> (r: Option<(Vec<AccountMetaData>, usize)>)
    requires
        pos <= data@.len(),
    ensures
        match (r, parse_meta_list(data@.skip(pos as int), count as nat)) {
            (Some((v, p)), Some(ms)) => meta_data_view(v@) == ms && p == pos + 34 * count
                && p <= data@.len(),
            (None, None) => true,
            _ => false,
        },
{
    let ghost t = data@.skip(pos as int);
    if ((data.len() - pos) as u64) < (count as u64) * 34 {
        proof {
            if parse_meta_list(t, count as nat) is Some {
                lemma_meta_list_back(t, count as nat);
            }
        }
        return None;
    }
    let mut accounts: Vec<AccountMetaData> = Vec::new();
    let mut p = pos;
    let n = count as usize;
    for i in 0..n
        invariant
            n == count,
            t == data@.skip(pos as int),
            pos + 34 * n <= data@.len(),
            p == pos + 34 * i,
            parse_meta_list(t, i as nat) == Some(meta_data_view(accounts@)),
    {
        assert(data@.skip(p as int) =~= t.skip(34 * i));
        match read_meta(data, p) {
            None => {
                proof {
                    if parse_meta_list(t, count as nat) is Some {
                        lemma_meta_list_each(t, count as nat, i as nat);
                    }
                }
                return None;
            },
            Some((m, q)) => {
                let ghost before = accounts@;
                accounts.push(m);
                assert(meta_data_view(accounts@) =~= meta_data_view(before).push(m@));
                p = q;
            },
        }
    }
    Some((accounts, p))
}

pub fn read_instruction_data(data: &[u8], pos: usize) -> (r: Option<(InstructionData, usize)>)
    requires
        pos <= data@.len(),
    ensures
        match (r, parse_instruction_data(data@.skip(pos as int))) {
            (Some((d, p)), Some((v, n))) => d@ == v && p == pos + n,
            (None, None) => true,
            _ => false,
        },
{
    let ghost s = data@.skip(pos as int);
    let (program_id, p1) = match read_key(data, pos) {
        None => return None,
        Some(x) => x,
    };
    assert(data@.skip(p1 as int) =~= s.skip(32));
    let (count, p2) = match read_u32(data, p1) {
        None => return None,
        Some(x) => x,
    };
    assert(data@.skip(p2 as int) =~= s.skip(36));
    let (accounts, p) = match read_meta_list(data, p2, count) {
        None => return None,
        Some(v) => v,
    };
    assert(data@.skip(p as int) =~= s.skip(36 + 34 * count));
    match read_bytes(data, p) {
        None => None,
        Some((bytes, q)) => Some((InstructionData { program_id, accounts, data: bytes }, q)),
    }
}

} // verus!
