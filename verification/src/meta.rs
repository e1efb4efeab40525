use vstd::prelude::*;

use crate::error::SliplessError;

verus! {

/// One account-requirement entry of a descriptor: how one extra account's
/// address is derived from the accounts of the transfer instruction itself.
/// `address_config` holds the packed seed configurations, zero-padded to 32
/// bytes; discriminator 1 marks a program-derived address of this program.
#[derive(Clone, Debug, PartialEq, Eq)]
pub struct MetaEntry {
    pub discriminator: u8,
    pub address_config: Vec<u8>,
    pub is_signer: bool,
    pub is_writable: bool,
}

/// The mathematical value of a `MetaEntry`.
pub struct MetaEntryV {
    pub discriminator: u8,
    pub address_config: Seq<u8>,
    pub is_signer: bool,
    pub is_writable: bool,
}

impl View for MetaEntry {
    type V = MetaEntryV;

    open spec fn view(&self) -> MetaEntryV {
        MetaEntryV {
            discriminator: self.discriminator,
            address_config: self.address_config@,
            is_signer: self.is_signer,
            is_writable: self.is_writable,
        }
    }
}

impl MetaEntry {
    pub open spec fn wf(&self) -> bool {
        self.address_config@.len() == 32
    }
}

pub open spec fn metas_views(v: Seq<MetaEntry>) -> Seq<MetaEntryV> {
    v.map_values(|m: MetaEntry| m@)
}

/// A sequence of `n` zero bytes.
pub open spec fn zeros(n: nat) -> Seq<u8> {
    Seq::new(n, |i: int| 0u8)
}

/// A `u32` in little-endian byte order.
pub open spec fn u32_le(x: u32) -> Seq<u8> {
    seq![
        (x & 0xff) as u8,
        ((x >> 8) & 0xff) as u8,
        ((x >> 16) & 0xff) as u8,
        ((x >> 24) & 0xff) as u8,
    ]
}

/// The 32-byte seed configuration for the pair (literal tag, account-data
/// extract): the literal packs as its discriminator, its length and its
/// bytes; the account-data seed as its discriminator and the account index,
/// data offset and length; the remainder is zero padding.
pub open spec fn packed_pair_config(tag: Seq<u8>, account_index: u8, data_index: u8, length: u8) -> Seq<u8> {
    let body = seq![1u8, tag.len() as u8] + tag + seq![4u8, account_index, data_index, length];
    body + zeros((32 - body.len()) as nat)
}

/// One entry as it lies in a serialized descriptor: discriminator, seed
/// configuration, then one byte for each flag.
pub open spec fn meta_pack(m: MetaEntryV) -> Seq<u8> {
    seq![m.discriminator] + m.address_config + seq![
        (if m.is_signer { 1u8 } else { 0u8 }),
        (if m.is_writable { 1u8 } else { 0u8 }),
    ]
}

pub open spec fn metas_pack(ms: Seq<MetaEntryV>) -> Seq<u8>
    decreases ms.len(),
{
    if ms.len() == 0 {
        Seq::empty()
    } else {
        metas_pack(ms.drop_last()) + meta_pack(ms.last())
    }
}

/// Everything after the 8-byte type discriminator in a serialized descriptor
/// of `ms` in a zeroed buffer of `buf_len` bytes: the little-endian value
/// length, the little-endian entry count, the packed entries, then the
/// untouched zero padding.
pub open spec fn tlv_tail(ms: Seq<MetaEntryV>, buf_len: nat) -> Seq<u8> {
    u32_le((4 + 35 * ms.len()) as u32) + u32_le(ms.len() as u32) + metas_pack(ms)
        + zeros((buf_len - 16 - 35 * ms.len()) as nat)
}

/// The bytes that serializing the entry list `ms` into a zeroed buffer of
/// `buf_len` bytes produces. Its first 8 bytes are the execute instruction's
/// type discriminator, a fixed hash this library does not restate; the rest
/// is pinned down by `tlv_tail`.
pub uninterp spec fn tlv_list_bytes(ms: Seq<MetaEntryV>, buf_len: nat) -> Seq<u8>;

/// Relies on spl_tlv_account_resolution's ExtraAccountMeta::new_with_seeds:
/// it packs the seed configurations into the 32-byte address config with zero
/// padding, marks the entry as a program-derived address, and fails exactly
/// when the packed pair does not fit in 32 bytes.
#[verifier::external_body]
fn seed_pair_meta(
    tag: &Vec<u8>,
    account_index: u8,
    data_index: u8,
    length: u8,
    is_signer: bool,
    is_writable: bool,
) -> (r: Result<MetaEntry, SliplessError>)
    requires
        tag@.len() <= 32,
    ensures
        r is Ok <==> tag@.len() + 6 <= 32,
        r is Ok ==> r->Ok_0@ == (MetaEntryV {
            discriminator: 1u8,
            address_config: packed_pair_config(tag@, account_index, data_index, length),
            is_signer: is_signer,
            is_writable: is_writable,
        }),
        r is Err ==> r->Err_0 == SliplessError::LayoutMismatch,
{
    let s1 = spl_tlv_account_resolution::seeds::Seed::Literal { bytes: tag.clone() };
    let s2 = spl_tlv_account_resolution::seeds::Seed::AccountData { account_index, data_index, length };
    match spl_tlv_account_resolution::account::ExtraAccountMeta::new_with_seeds(&[s1, s2], is_signer, is_writable) {
        Ok(m) => Ok(MetaEntry {
            discriminator: m.discriminator,
            address_config: m.address_config.to_vec(),
            is_signer: m.is_signer.into(),
            is_writable: m.is_writable.into(),
        }),
        Err(_) => Err(SliplessError::LayoutMismatch),
    }
}

/// Build the account-requirement entry for an address derived from a literal
/// namespace tag plus a byte range read out of one of the transfer's own
/// accounts. Fails with `LayoutMismatch` exactly when the two seed
/// configurations do not fit the 32-byte config (a tag longer than 26 bytes);
/// a single seed can never exceed 32 bytes, hence the bound on the tag.
pub fn build_seed_meta(
    tag: &Vec<u8>,
    account_index: u8,
    data_index: u8,
    length: u8,
    is_signer: bool,
    is_writable: bool,
) -> (r: Result<MetaEntry, SliplessError>)
    requires
        tag@.len() <= 32,
    ensures
        r is Ok <==> tag@.len() + 6 <= 32,
        r is Ok ==> r->Ok_0@ == (MetaEntryV {
            discriminator: 1u8,
            address_config: packed_pair_config(tag@, account_index, data_index, length),
            is_signer: is_signer,
            is_writable: is_writable,
        }),
        r is Ok ==> r->Ok_0.wf(),
        r is Err ==> r->Err_0 == SliplessError::LayoutMismatch,
{
    let r = seed_pair_meta(tag, account_index, data_index, length, is_signer, is_writable);
    proof {
        if tag@.len() + 6 <= 32 {
            assert(r->Ok_0.address_config@.len() == 32);
        }
    }
    r
}

/// Relies on spl_tlv_account_resolution's ExtraAccountMetaList::size_of: the
/// 8-byte type discriminator and 4-byte length of the TLV header, plus a
/// 4-byte length-prefixed slice of 35-byte entries.
#[verifier::external_body]
fn meta_list_size(num_items: usize) -> (r: usize)
    requires
        num_items <= 1000,
    ensures
        r == 16 + 35 * num_items,
{
    spl_tlv_account_resolution::state::ExtraAccountMetaList::size_of(num_items).unwrap()
}

/// The number of bytes a serialized descriptor of `num_items` entries needs.
pub fn descriptor_list_size(num_items: usize) -> (r: usize)
    requires
        num_items <= 1000,
    ensures
        r == 16 + 35 * num_items,
{
    meta_list_size(num_items)
}

/// Relies on spl_tlv_account_resolution's ExtraAccountMetaList::init for the
/// execute instruction: on a zeroed buffer it writes the instruction's 8-byte
/// type discriminator, the little-endian value length, then the
/// length-prefixed entry list, leaves the rest of the buffer zero, and fails
/// exactly when the buffer is too small for the single TLV entry.
#[verifier::external_body]
fn tlv_init(data: &mut Vec<u8>, metas: &Vec<MetaEntry>) -> (r: Result<(), SliplessError>)
    requires
        old(data)@ == zeros(old(data)@.len()),
        metas@.len() <= 1000,
        forall|i: int| 0 <= i < metas@.len() ==> metas@[i].address_config@.len() == 32,
    ensures
        final(data)@.len() == old(data)@.len(),
        r is Ok <==> old(data)@.len() >= 16 + 35 * metas@.len(),
        r is Ok ==> final(data)@ == tlv_list_bytes(metas_views(metas@), old(data)@.len()),
        r is Ok ==> final(data)@.subrange(8, old(data)@.len() as int)
            == tlv_tail(metas_views(metas@), old(data)@.len()),
        r is Err ==> r->Err_0 == SliplessError::LayoutMismatch,
{
    let mut converted: Vec<spl_tlv_account_resolution::account::ExtraAccountMeta> = Vec::new();
    for m in metas.iter() {
        converted.push(spl_tlv_account_resolution::account::ExtraAccountMeta {
            discriminator: m.discriminator,
            address_config: m.address_config.clone().try_into().unwrap(),
            is_signer: m.is_signer.into(),
            is_writable: m.is_writable.into(),
        });
    }
    spl_tlv_account_resolution::state::ExtraAccountMetaList::init::<
        spl_transfer_hook_interface::instruction::ExecuteInstruction,
    >(data.as_mut_slice(), &converted).map_err(|_| SliplessError::LayoutMismatch)
}

/// A vector of `n` zero bytes.
pub fn zero_vec(n: usize) -> (r: Vec<u8>)
    ensures
        r@ == zeros(n as nat),
{
    let mut v: Vec<u8> = Vec::new();
    while v.len() < n
        invariant
            v@ == zeros(v@.len() as nat),
            v@.len() <= n,
        decreases n - v@.len(),
    {
        v.push(0u8);
        proof {
            assert(v@ =~= zeros(v@.len() as nat));
        }
    }
    proof {
        assert(v@ =~= zeros(n as nat));
    }
    v
}

/// Serialize the entry list `metas` into a fresh zeroed buffer of `buf_len`
/// bytes. Fails with `LayoutMismatch` exactly when the buffer is smaller than
/// the serialized list.
pub fn serialize_meta_list(metas: &Vec<MetaEntry>, buf_len: usize) -> (r: Result<Vec<u8>, SliplessError>)
    requires
        metas@.len() <= 1000,
        forall|i: int| 0 <= i < metas@.len() ==> (#[trigger] metas@[i]).wf(),
    ensures
        r is Ok <==> buf_len >= 16 + 35 * metas@.len(),
        r is Ok ==> r->Ok_0@ == tlv_list_bytes(metas_views(metas@), buf_len as nat),
        r is Ok ==> r->Ok_0@.len() == buf_len,
        r is Err ==> r->Err_0 == SliplessError::LayoutMismatch,
{
    let mut data = zero_vec(buf_len);
    match tlv_init(&mut data, metas) {
        Ok(()) => Ok(data),
        Err(e) => Err(e),
    }
}

} // verus!
