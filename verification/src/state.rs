use vstd::prelude::*;

use crate::addr::{addr_eq, derive_pda, pda_of, Address};
use crate::badge::{TokenBadge, TokenBadgeV};
use crate::error::SliplessError;
use crate::meta::{
    build_seed_meta, descriptor_list_size, metas_views, packed_pair_config, serialize_meta_list,
    tlv_list_bytes, MetaEntry, MetaEntryV,
};

verus! {

/// Index of the destination token account among the transfer instruction's
/// own accounts.
pub const DESTINATION_TOKEN_INDEX: u8 = 2;

/// Byte offset of the owner field within a token account's raw data.
pub const OWNER_FIELD_OFFSET: u8 = 32;

/// Byte length of an account address.
pub const ADDRESS_LENGTH: u8 = 32;

/// The namespace tag under which a user's badge lives: "token-badge".
pub open spec fn badge_tag() -> Seq<u8> {
    seq![116u8, 111u8, 107u8, 101u8, 110u8, 45u8, 98u8, 97u8, 100u8, 103u8, 101u8]
}

/// The bytes of "token-badge".
pub fn badge_tag_bytes() -> (r: Vec<u8>)
    ensures
        r@ == badge_tag(),
{
    let v: Vec<u8> = vec![116u8, 111u8, 107u8, 101u8, 110u8, 45u8, 98u8, 97u8, 100u8, 103u8, 101u8];
    proof {
        assert(v@ =~= badge_tag());
    }
    v
}

/// The namespace tag under which a mint's descriptor lives:
/// "extra-account-metas".
pub open spec fn metas_tag() -> Seq<u8> {
    seq![
        101u8, 120u8, 116u8, 114u8, 97u8, 45u8, 97u8, 99u8, 99u8, 111u8, 117u8, 110u8, 116u8,
        45u8, 109u8, 101u8, 116u8, 97u8, 115u8,
    ]
}

/// The bytes of "extra-account-metas".
pub fn metas_tag_bytes() -> (r: Vec<u8>)
    ensures
        r@ == metas_tag(),
{
    let v: Vec<u8> = vec![
        101u8, 120u8, 116u8, 114u8, 97u8, 45u8, 97u8, 99u8, 99u8, 111u8, 117u8, 110u8, 116u8,
        45u8, 109u8, 101u8, 116u8, 97u8, 115u8,
    ];
    proof {
        assert(v@ =~= metas_tag());
    }
    v
}

/// One record in the program's derived-address storage.
#[derive(Clone, Debug, PartialEq, Eq)]
pub enum StoredAccount {
    /// A per-mint descriptor: the declared entry list and its serialized
    /// bytes.
    MetaList { metas: Vec<MetaEntry>, data: Vec<u8> },
    /// A per-user badge.
    Badge { badge: TokenBadge },
}

/// The mathematical value of a `StoredAccount`.
pub enum StoredAccountV {
    MetaList { metas: Seq<MetaEntryV>, data: Seq<u8> },
    Badge { badge: TokenBadgeV },
}

impl View for StoredAccount {
    type V = StoredAccountV;

    open spec fn view(&self) -> StoredAccountV {
        match self {
            StoredAccount::MetaList { metas, data } => StoredAccountV::MetaList {
                metas: metas_views(metas@),
                data: data@,
            },
            StoredAccount::Badge { badge } => StoredAccountV::Badge { badge: badge@ },
        }
    }
}

/// The storage, a list of records keyed by address, as a map.
pub open spec fn store_map(s: Seq<(Address, StoredAccount)>) -> Map<Seq<u8>, StoredAccountV>
    decreases s.len(),
{
    if s.len() == 0 {
        Map::empty()
    } else {
        store_map(s.drop_last()).insert(s.last().0.bytes@, s.last().1@)
    }
}

/// No two records share an address.
pub open spec fn distinct_keys(s: Seq<(Address, StoredAccount)>) -> bool {
    forall|i: int, j: int| 0 <= i < j < s.len() ==> s[i].0.bytes@ != s[j].0.bytes@
}

pub proof fn lemma_store_map_contains(s: Seq<(Address, StoredAccount)>, k: Seq<u8>)
    ensures
        store_map(s).contains_key(k) <==> exists|i: int| 0 <= i < s.len() && s[i].0.bytes@ == k,
    decreases s.len(),
{
    if s.len() > 0 {
        lemma_store_map_contains(s.drop_last(), k);
        if s.last().0.bytes@ == k {
            assert(s[s.len() - 1].0.bytes@ == k);
        } else {
            if store_map(s).contains_key(k) {
                let i = choose|i: int|
                    0 <= i < s.drop_last().len() && s.drop_last()[i].0.bytes@ == k;
                assert(s[i].0.bytes@ == k);
            }
            if exists|i: int| 0 <= i < s.len() && s[i].0.bytes@ == k {
                let i = choose|i: int| 0 <= i < s.len() && s[i].0.bytes@ == k;
                assert(s.drop_last()[i].0.bytes@ == k);
            }
        }
    }
}

pub proof fn lemma_store_map_index(s: Seq<(Address, StoredAccount)>, i: int)
    requires
        distinct_keys(s),
        0 <= i < s.len(),
    ensures
        store_map(s).contains_key(s[i].0.bytes@),
        store_map(s)[s[i].0.bytes@] == s[i].1@,
    decreases s.len(),
{
    if i < s.len() - 1 {
        assert(distinct_keys(s.drop_last())) by {
            assert forall|x: int, y: int|
                0 <= x < y < s.drop_last().len() implies s.drop_last()[x].0.bytes@
                != s.drop_last()[y].0.bytes@ by {
                assert(s[x].0.bytes@ != s[y].0.bytes@);
            }
        }
        lemma_store_map_index(s.drop_last(), i);
        assert(s.drop_last()[i] == s[i]);
        assert(s.last().0.bytes@ != s[i].0.bytes@);
    }
}

pub proof fn lemma_store_map_push(s: Seq<(Address, StoredAccount)>, p: (Address, StoredAccount))
    ensures
        store_map(s.push(p)) == store_map(s).insert(p.0.bytes@, p.1@),
{
    assert(s.push(p).drop_last() =~= s);
    assert(s.push(p).last() == p);
}

/// Accounts of the one-time descriptor initialization: the payer that
/// authorizes the allocation and the mint the descriptor is for.
pub struct InitializeExtraAccountMetaList {
    pub payer: Address,
    pub mint: Address,
}

impl InitializeExtraAccountMetaList {
    pub open spec fn wf(&self) -> bool {
        self.payer.wf() && self.mint.wf()
    }
}

/// Accounts of a badge issuance: the signing authority that pays for the
/// record and the user the badge certifies.
pub struct IssueBadge {
    pub authority: Address,
    pub user: Address,
}

impl IssueBadge {
    pub open spec fn wf(&self) -> bool {
        self.authority.wf() && self.user.wf()
    }
}

/// What the check reads of a token account: the mint it is bound to and its
/// owner.
pub struct TokenAccountInfo {
    pub mint: Address,
    pub owner: Address,
}

impl TokenAccountInfo {
    pub open spec fn wf(&self) -> bool {
        self.mint.wf() && self.owner.wf()
    }
}

/// Accounts of one transfer-check invocation, exactly as the caller resolved
/// them from the descriptor.
pub struct TransferHook {
    pub source_token: TokenAccountInfo,
    pub mint: Address,
    pub destination_token: TokenAccountInfo,
    pub owner_delegate: Address,
}

impl TransferHook {
    pub open spec fn wf(&self) -> bool {
        self.source_token.wf() && self.mint.wf() && self.destination_token.wf()
            && self.owner_delegate.wf()
    }
}

/// The one account-requirement entry every descriptor of this hook declares:
/// the badge slot, derived from the literal badge tag plus the owner field
/// read out of the destination token account; neither signer nor writable.
pub open spec fn descriptor_entry() -> MetaEntryV {
    MetaEntryV {
        discriminator: 1u8,
        address_config: packed_pair_config(
            badge_tag(),
            DESTINATION_TOKEN_INDEX,
            OWNER_FIELD_OFFSET,
            ADDRESS_LENGTH,
        ),
        is_signer: false,
        is_writable: false,
    }
}

/// Bytes allocated for a descriptor of `n` entries: an 8-byte account header
/// reserve ahead of the serialized list's own size.
pub open spec fn descriptor_buf_len(n: nat) -> nat {
    24 + 35 * n
}

/// The record a successful initialization stores.
pub open spec fn descriptor_record() -> StoredAccountV {
    StoredAccountV::MetaList {
        metas: seq![descriptor_entry()],
        data: tlv_list_bytes(seq![descriptor_entry()], descriptor_buf_len(1)),
    }
}

/// The storage after a descriptor initialization for `mint`.
pub open spec fn spec_initialize_state(
    st: Map<Seq<u8>, StoredAccountV>,
    pid: Seq<u8>,
    mint: Seq<u8>,
) -> Map<Seq<u8>, StoredAccountV> {
    let slot = pda_of(metas_tag(), mint, pid);
    if slot is Some && !st.contains_key(slot.unwrap()) {
        st.insert(slot.unwrap(), descriptor_record())
    } else {
        st
    }
}

/// The result of a descriptor initialization for `mint`.
pub open spec fn spec_initialize_result(
    st: Map<Seq<u8>, StoredAccountV>,
    pid: Seq<u8>,
    mint: Seq<u8>,
) -> Result<Seq<u8>, SliplessError> {
    let slot = pda_of(metas_tag(), mint, pid);
    if slot is None {
        Err(SliplessError::DerivationFailure)
    } else if st.contains_key(slot.unwrap()) {
        Err(SliplessError::AlreadyInitialized)
    } else {
        Ok(slot.unwrap())
    }
}

/// The storage after a badge issuance for `user`.
pub open spec fn spec_issue_state(
    st: Map<Seq<u8>, StoredAccountV>,
    pid: Seq<u8>,
    authority: Seq<u8>,
    user: Seq<u8>,
    now: i64,
) -> Map<Seq<u8>, StoredAccountV> {
    let slot = pda_of(badge_tag(), user, pid);
    if slot is Some && !st.contains_key(slot.unwrap()) {
        st.insert(
            slot.unwrap(),
            StoredAccountV::Badge { badge: TokenBadgeV { authority, user, issued_at: now } },
        )
    } else {
        st
    }
}

/// The result of a badge issuance for `user`.
pub open spec fn spec_issue_result(
    st: Map<Seq<u8>, StoredAccountV>,
    pid: Seq<u8>,
    authority: Seq<u8>,
    user: Seq<u8>,
    now: i64,
) -> Result<Seq<u8>, SliplessError> {
    let slot = pda_of(badge_tag(), user, pid);
    if slot is None {
        Err(SliplessError::DerivationFailure)
    } else if st.contains_key(slot.unwrap()) {
        Err(SliplessError::AlreadyInitialized)
    } else {
        Ok(slot.unwrap())
    }
}

/// What the transfer check decides: both token accounts must be bound to the
/// transfer's mint, the badge slot derived from the destination owner must
/// hold a badge, and that badge's user must equal the destination owner.
pub open spec fn spec_transfer_hook(
    st: Map<Seq<u8>, StoredAccountV>,
    pid: Seq<u8>,
    source_mint: Seq<u8>,
    mint: Seq<u8>,
    dest_mint: Seq<u8>,
    dest_owner: Seq<u8>,
) -> Result<(), SliplessError> {
    if source_mint != mint || dest_mint != mint {
        Err(SliplessError::MalformedBinding)
    } else {
        let slot = pda_of(badge_tag(), dest_owner, pid);
        if slot is None {
            Err(SliplessError::DerivationFailure)
        } else if !st.contains_key(slot.unwrap()) {
            Err(SliplessError::MissingAccount)
        } else {
            match st[slot.unwrap()] {
                StoredAccountV::Badge { badge } => {
                    if badge.user == dest_owner {
                        Ok(())
                    } else {
                        Err(SliplessError::InvalidBadgeUser)
                    }
                },
                StoredAccountV::MetaList { .. } => Err(SliplessError::MalformedBinding),
            }
        }
    }
}

/// Initializing a descriptor is not idempotent: whenever a first
/// initialization for a mint succeeds, a second one for the same mint fails
/// with `AlreadyInitialized` and leaves the storage — the first descriptor
/// included — unchanged.
pub proof fn lemma_initialize_twice(st: Map<Seq<u8>, StoredAccountV>, pid: Seq<u8>, mint: Seq<u8>)
    ensures
        spec_initialize_result(st, pid, mint) is Ok ==> {
            let st1 = spec_initialize_state(st, pid, mint);
            &&& spec_initialize_result(st1, pid, mint) == Err::<Seq<u8>, SliplessError>(
                SliplessError::AlreadyInitialized,
            )
            &&& spec_initialize_state(st1, pid, mint) == st1
            &&& st1[spec_initialize_result(st, pid, mint)->Ok_0] == descriptor_record()
        },
{
}

/// Issuing a badge twice for the same user succeeds only once: whenever a
/// first issuance succeeds, a second one fails with `AlreadyInitialized`,
/// leaves the storage unchanged, and the surviving badge keeps the fields the
/// first issuance recorded.
pub proof fn lemma_issue_twice(
    st: Map<Seq<u8>, StoredAccountV>,
    pid: Seq<u8>,
    authority1: Seq<u8>,
    user: Seq<u8>,
    t1: i64,
    authority2: Seq<u8>,
    t2: i64,
)
    ensures
        spec_issue_result(st, pid, authority1, user, t1) is Ok ==> {
            let st1 = spec_issue_state(st, pid, authority1, user, t1);
            &&& spec_issue_result(st1, pid, authority2, user, t2) == Err::<Seq<u8>, SliplessError>(
                SliplessError::AlreadyInitialized,
            )
            &&& spec_issue_state(st1, pid, authority2, user, t2) == st1
            &&& st1[spec_issue_result(st, pid, authority1, user, t1)->Ok_0]
                == (StoredAccountV::Badge {
                badge: TokenBadgeV { authority: authority1, user, issued_at: t1 },
            })
        },
{
}

/// What the check decides, case by case, for a transfer whose accounts are
/// bound to its mint: a badge recorded for the destination owner allows the
/// transfer; an empty badge slot rejects with `MissingAccount`; a badge
/// recording a different user rejects with `InvalidBadgeUser`.
pub proof fn lemma_transfer_hook_cases(
    st: Map<Seq<u8>, StoredAccountV>,
    pid: Seq<u8>,
    mint: Seq<u8>,
    dest_owner: Seq<u8>,
)
    ensures
        pda_of(badge_tag(), dest_owner, pid) is Some ==> {
            let slot = pda_of(badge_tag(), dest_owner, pid).unwrap();
            &&& (st.contains_key(slot) && (st[slot] matches StoredAccountV::Badge { badge }
                && badge.user == dest_owner)) ==> spec_transfer_hook(
                st,
                pid,
                mint,
                mint,
                mint,
                dest_owner,
            ) == Ok::<(), SliplessError>(())
            &&& !st.contains_key(slot) ==> spec_transfer_hook(st, pid, mint, mint, mint, dest_owner)
                == Err::<(), SliplessError>(SliplessError::MissingAccount)
            &&& (st.contains_key(slot) && (st[slot] matches StoredAccountV::Badge { badge }
                && badge.user != dest_owner)) ==> spec_transfer_hook(
                st,
                pid,
                mint,
                mint,
                mint,
                dest_owner,
            ) == Err::<(), SliplessError>(SliplessError::InvalidBadgeUser)
        },
{
}

/// An issued badge authorizes transfers to its user: after a successful
/// issuance for `user`, the check allows any transfer whose token accounts
/// are bound to the transfer's mint and whose destination account is owned by
/// `user` — the issuance path and the checking path derive the same slot.
pub proof fn lemma_issue_then_transfer(
    st: Map<Seq<u8>, StoredAccountV>,
    pid: Seq<u8>,
    authority: Seq<u8>,
    user: Seq<u8>,
    now: i64,
    mint: Seq<u8>,
)
    ensures
        spec_issue_result(st, pid, authority, user, now) is Ok ==> spec_transfer_hook(
            spec_issue_state(st, pid, authority, user, now),
            pid,
            mint,
            mint,
            mint,
            user,
        ) == Ok::<(), SliplessError>(()),
{
}

/// The program's persistent state: its identity and every record stored at a
/// derived address.
pub struct SliplessHook {
    pub program_id: Address,
    pub accounts: Vec<(Address, StoredAccount)>,
}

impl SliplessHook {
    /// The storage as a map from derived address to record.
    pub open spec fn store(&self) -> Map<Seq<u8>, StoredAccountV> {
        store_map(self.accounts@)
    }

    pub open spec fn wf(&self) -> bool {
        &&& self.program_id.wf()
        &&& distinct_keys(self.accounts@)
        &&& forall|i: int| 0 <= i < self.accounts@.len() ==> (#[trigger] self.accounts@[i]).0.wf()
    }

    /// A fresh program state with empty storage.
    pub fn new(program_id: Address) -> (r: SliplessHook)
        requires
            program_id.wf(),
        ensures
            r.wf(),
            r.program_id == program_id,
            r.store() == Map::<Seq<u8>, StoredAccountV>::empty(),
    {
        SliplessHook { program_id, accounts: Vec::new() }
    }

    /// The record stored at `addr`, if any.
    pub fn account_at<'a>(&'a self, addr: &Address) -> (r: Option<&'a StoredAccount>)
        requires
            self.wf(),
        ensures
            match r {
                Some(acc) => self.store().contains_key(addr.bytes@)
                    && acc@ == self.store()[addr.bytes@],
                None => !self.store().contains_key(addr.bytes@),
            },
    {
        let n = self.accounts.len();
        let mut i: usize = 0;
        while i < n
            invariant
                self.wf(),
                n == self.accounts@.len(),
                0 <= i <= n,
                forall|j: int| 0 <= j < i ==> self.accounts@[j].0.bytes@ != addr.bytes@,
            decreases n - i,
        {
            if addr_eq(&self.accounts[i].0, addr) {
                proof {
                    lemma_store_map_index(self.accounts@, i as int);
                }
                return Some(&self.accounts[i].1);
            }
            i += 1;
        }
        proof {
            lemma_store_map_contains(self.accounts@, addr.bytes@);
        }
        None
    }

    /// Store a record at a fresh address.
    fn put(&mut self, addr: Address, acc: StoredAccount)
        requires
            old(self).wf(),
            addr.wf(),
            !old(self).store().contains_key(addr.bytes@),
        ensures
            final(self).wf(),
            final(self).program_id == old(self).program_id,
            final(self).store() == old(self).store().insert(addr.bytes@, acc@),
    {
        proof {
            lemma_store_map_contains(self.accounts@, addr.bytes@);
            lemma_store_map_push(self.accounts@, (addr, acc));
        }
        let ghost pre = self.accounts@;
        self.accounts.push((addr, acc));
        proof {
            assert forall|x: int, y: int|
                0 <= x < y < self.accounts@.len() implies self.accounts@[x].0.bytes@
                != self.accounts@[y].0.bytes@ by {
                if y < self.accounts@.len() - 1 {
                    assert(pre[x].0.bytes@ != pre[y].0.bytes@);
                } else {
                    assert(pre[x].0.bytes@ != addr.bytes@);
                }
            }
        }
    }

    /// One-time setup for a mint: derive the descriptor slot from the metas
    /// tag and the mint, refuse a second initialization of an occupied slot,
    /// and store the single-entry descriptor together with its serialized
    /// bytes. Returns the descriptor's address.
    pub fn initialize_extra_account_meta_list(
        &mut self,
        ctx: &InitializeExtraAccountMetaList,
    ) -> (r: Result<Address, SliplessError>)
        requires
            old(self).wf(),
            ctx.wf(),
        ensures
            final(self).wf(),
            final(self).program_id == old(self).program_id,
            final(self).store() == spec_initialize_state(
                old(self).store(),
                old(self).program_id.bytes@,
                ctx.mint.bytes@,
            ),
            r is Ok <==> spec_initialize_result(
                old(self).store(),
                old(self).program_id.bytes@,
                ctx.mint.bytes@,
            ) is Ok,
            r is Ok ==> r->Ok_0.wf() && r->Ok_0.bytes@ == spec_initialize_result(
                old(self).store(),
                old(self).program_id.bytes@,
                ctx.mint.bytes@,
            )->Ok_0,
            r is Err ==> r->Err_0 == spec_initialize_result(
                old(self).store(),
                old(self).program_id.bytes@,
                ctx.mint.bytes@,
            )->Err_0,
    {
        let tag = metas_tag_bytes();
        let slot = match derive_pda(&tag, &ctx.mint, &self.program_id) {
            Some(s) => s,
            None => {
                return Err(SliplessError::DerivationFailure);
            },
        };
        if self.account_at(&slot).is_some() {
            return Err(SliplessError::AlreadyInitialized);
        }
        let btag = badge_tag_bytes();
        let entry = match build_seed_meta(
            &btag,
            DESTINATION_TOKEN_INDEX,
            OWNER_FIELD_OFFSET,
            ADDRESS_LENGTH,
            false,
            false,
        ) {
            Ok(m) => m,
            Err(e) => {
                proof {
                    assert(false);
                }
                return Err(e);
            },
        };
        let mut metas: Vec<MetaEntry> = Vec::new();
        metas.push(entry);
        let size = descriptor_list_size(1);
        let data = match serialize_meta_list(&metas, 8 + size) {
            Ok(d) => d,
            Err(e) => {
                proof {
                    assert(false);
                }
                return Err(e);
            },
        };
        proof {
            assert(metas_views(metas@) =~= seq![descriptor_entry()]);
        }
        let addr = slot.dup();
        self.put(slot, StoredAccount::MetaList { metas, data });
        Ok(addr)
    }

    /// Record a badge for `ctx.user`, issued by `ctx.authority` at `now`:
    /// derive the badge slot from the badge tag and the user, refuse a second
    /// issuance, and store the badge. Returns the badge's address. Whether
    /// the authority is entitled to issue is deliberately not policed here.
    pub fn issue_badge(&mut self, ctx: &IssueBadge, now: i64) -> (r: Result<
        Address,
        SliplessError,
    >)
        requires
            old(self).wf(),
            ctx.wf(),
        ensures
            final(self).wf(),
            final(self).program_id == old(self).program_id,
            final(self).store() == spec_issue_state(
                old(self).store(),
                old(self).program_id.bytes@,
                ctx.authority.bytes@,
                ctx.user.bytes@,
                now,
            ),
            r is Ok <==> spec_issue_result(
                old(self).store(),
                old(self).program_id.bytes@,
                ctx.authority.bytes@,
                ctx.user.bytes@,
                now,
            ) is Ok,
            r is Ok ==> r->Ok_0.wf() && r->Ok_0.bytes@ == spec_issue_result(
                old(self).store(),
                old(self).program_id.bytes@,
                ctx.authority.bytes@,
                ctx.user.bytes@,
                now,
            )->Ok_0,
            r is Err ==> r->Err_0 == spec_issue_result(
                old(self).store(),
                old(self).program_id.bytes@,
                ctx.authority.bytes@,
                ctx.user.bytes@,
                now,
            )->Err_0,
    {
        let tag = badge_tag_bytes();
        let slot = match derive_pda(&tag, &ctx.user, &self.program_id) {
            Some(s) => s,
            None => {
                return Err(SliplessError::DerivationFailure);
            },
        };
        if self.account_at(&slot).is_some() {
            return Err(SliplessError::AlreadyInitialized);
        }
        let badge = TokenBadge::new(ctx.authority.dup(), ctx.user.dup(), now);
        let addr = slot.dup();
        self.put(slot, StoredAccount::Badge { badge });
        Ok(addr)
    }

    /// The transfer authorization check: allow the transfer exactly when the
    /// badge slot derived from the destination account's owner holds a badge
    /// recording that same owner; any mismatch, missing record or wrong mint
    /// binding rejects the whole transfer. Reads no state beyond that one
    /// slot and mutates nothing; the amount plays no part in the decision.
    pub fn transfer_hook(&self, ctx: &TransferHook, _amount: u64) -> (r: Result<
        (),
        SliplessError,
    >)
        requires
            self.wf(),
            ctx.wf(),
        ensures
            r == spec_transfer_hook(
                self.store(),
                self.program_id.bytes@,
                ctx.source_token.mint.bytes@,
                ctx.mint.bytes@,
                ctx.destination_token.mint.bytes@,
                ctx.destination_token.owner.bytes@,
            ),
    {
        if !addr_eq(&ctx.source_token.mint, &ctx.mint) || !addr_eq(
            &ctx.destination_token.mint,
            &ctx.mint,
        ) {
            return Err(SliplessError::MalformedBinding);
        }
        let tag = badge_tag_bytes();
        let slot = match derive_pda(&tag, &ctx.destination_token.owner, &self.program_id) {
            Some(s) => s,
            None => {
                return Err(SliplessError::DerivationFailure);
            },
        };
        match self.account_at(&slot) {
            None => Err(SliplessError::MissingAccount),
            Some(StoredAccount::Badge { badge }) => {
                if addr_eq(&badge.user, &ctx.destination_token.owner) {
                    Ok(())
                } else {
                    Err(SliplessError::InvalidBadgeUser)
                }
            },
            Some(StoredAccount::MetaList { .. }) => Err(SliplessError::MalformedBinding),
        }
    }
}

} // verus!

