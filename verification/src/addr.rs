use vstd::prelude::*;

verus! {

/// A 32-byte account address: the identity of every participant and of every
/// storage slot in the system.
#[derive(Clone, Debug, PartialEq, Eq)]
pub struct Address {
    pub bytes: Vec<u8>,
}

impl Address {
    /// An address is well formed when it holds exactly 32 bytes.
    pub open spec fn wf(&self) -> bool {
        self.bytes@.len() == 32
    }

    pub fn new(bytes: Vec<u8>) -> (r: Address)
        requires
            bytes@.len() == 32,
        ensures
            r.wf(),
            r.bytes@ == bytes@,
    {
        Address { bytes }
    }

    /// A copy of this address with the same bytes.
    pub fn dup(&self) -> (r: Address)
        ensures
            r.bytes@ == self.bytes@,
    {
        let mut out: Vec<u8> = Vec::new();
        let mut i: usize = 0;
        while i < self.bytes.len()
            invariant
                0 <= i <= self.bytes@.len(),
                out@ == self.bytes@.subrange(0, i as int),
            decreases self.bytes@.len() - i,
        {
            out.push(self.bytes[i]);
            proof {
                assert(out@ =~= self.bytes@.subrange(0, i + 1 as int));
            }
            i += 1;
        }
        proof {
            assert(out@ =~= self.bytes@);
        }
        Address { bytes: out }
    }
}

/// Byte-for-byte equality of two addresses.
pub fn addr_eq(a: &Address, b: &Address) -> (r: bool)
    ensures
        r == (a.bytes@ == b.bytes@),
{
    if a.bytes.len() != b.bytes.len() {
        return false;
    }
    let n = a.bytes.len();
    let mut i: usize = 0;
    while i < n
        invariant
            n == a.bytes@.len(),
            n == b.bytes@.len(),
            0 <= i <= n,
            forall|j: int| 0 <= j < i ==> a.bytes@[j] == b.bytes@[j],
        decreases n - i,
    {
        if a.bytes[i] != b.bytes[i] {
            return false;
        }
        i += 1;
    }
    proof {
        assert(a.bytes@ =~= b.bytes@);
    }
    true
}

/// The program-derived address for a namespace tag and a key, bound to a
/// program identity: `Some` address off the curve, or `None` when no bump
/// yields one. A deterministic function of its three arguments alone.
pub uninterp spec fn pda_of(tag: Seq<u8>, key: Seq<u8>, program_id: Seq<u8>) -> Option<Seq<u8>>;

/// Relies on solana_program's Pubkey::try_find_program_address: for the seed
/// list `[tag, key]` it returns the first off-curve address over descending
/// bump seeds, a deterministic function of the seeds and the program id, and
/// `None` when no bump yields one (also when a seed exceeds the maximum seed
/// length). A returned address is always 32 bytes.
#[verifier::external_body]
fn derive_address(tag: &Vec<u8>, key: &Address, program_id: &Address) -> (r: Option<Address>)
    requires
        key.wf(),
        program_id.wf(),
    ensures
        r is Some <==> pda_of(tag@, key.bytes@, program_id.bytes@) is Some,
        r is Some ==> r.unwrap().bytes@ == pda_of(tag@, key.bytes@, program_id.bytes@).unwrap(),
        r is Some ==> r.unwrap().bytes@.len() == 32,
{
    let pid = solana_program::pubkey::Pubkey::new_from_array(
        program_id.bytes.clone().try_into().unwrap(),
    );
    let seeds: [&[u8]; 2] = [tag.as_slice(), key.bytes.as_slice()];
    match solana_program::pubkey::Pubkey::try_find_program_address(&seeds, &pid) {
        Some((key, _bump)) => Some(Address { bytes: key.to_bytes().to_vec() }),
        None => None,
    }
}

/// Derive the storage address for `key` under the namespace `tag`, bound to
/// `program_id`. Distinct tags partition the address space; identical inputs
/// always yield the identical address.
pub fn derive_pda(tag: &Vec<u8>, key: &Address, program_id: &Address) -> (r: Option<Address>)
    requires
        key.wf(),
        program_id.wf(),
    ensures
        r is Some <==> pda_of(tag@, key.bytes@, program_id.bytes@) is Some,
        r is Some ==> r.unwrap().bytes@ == pda_of(tag@, key.bytes@, program_id.bytes@).unwrap(),
        r is Some ==> r.unwrap().wf(),
{
    derive_address(tag, key, program_id)
}

/// Derivation is deterministic: the derived address is a pure function of the
/// tag, the key and the program identity, so the issuance path and the
/// checking path always agree on where a record lives.
pub proof fn lemma_derive_deterministic(
    tag1: Seq<u8>,
    key1: Seq<u8>,
    pid1: Seq<u8>,
    tag2: Seq<u8>,
    key2: Seq<u8>,
    pid2: Seq<u8>,
)
    requires
        tag1 == tag2,
        key1 == key2,
        pid1 == pid2,
    ensures
        pda_of(tag1, key1, pid1) == pda_of(tag2, key2, pid2),
{
}

} // verus!
