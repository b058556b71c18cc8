//! Account addresses and the deterministic derivations that bind a vault to
//! its owner.

use anchor_lang::prelude::Pubkey;
use vstd::prelude::*;

verus! {

/// Number of bytes in an address.
pub const ADDRESS_BYTES: usize = 32;

/// The address of an account: an identity, an asset type or a storage
/// location. Its view is the sequence of its 32 bytes.
#[derive(Clone, Copy, Debug)]
pub struct Address {
    pub bytes: [u8; 32],
}

impl View for Address {
    type V = Seq<u8>;

    open spec fn view(&self) -> Seq<u8> {
        self.bytes@
    }
}

impl Address {
    /// The address made of the given bytes.
    pub fn new(bytes: [u8; 32]) -> (address: Address)
        ensures
            address.bytes == bytes,
            address@ == bytes@,
    {
        Address { bytes }
    }

    /// The address made of `bytes`: there is one where `bytes` has the
    /// length of an address, and none else.
    pub fn from_slice(bytes: &[u8]) -> (address: Option<Address>)
        ensures
            bytes@.len() != ADDRESS_BYTES ==> address.is_none(),
            bytes@.len() == ADDRESS_BYTES ==> address.is_some() && address.unwrap()@ == bytes@,
    {
        if bytes.len() != ADDRESS_BYTES {
            return None;
        }
        Some(Address::read(bytes, 0))
    }

    /// The address made of the 32 bytes of `bytes` from the offset `at` on.
    pub(crate) fn read(bytes: &[u8], at: usize) -> (address: Address)
        requires
            at + 32 <= bytes@.len(),
        ensures
            address@ == bytes@.subrange(at as int, at + 32),
    {
        let mut out: [u8; 32] = [0u8;32];
        let len: usize = bytes.len();
        let mut i: usize = 0;
        while i < 32
            invariant
                i <= 32,
                at + 32 <= len,
                len == bytes@.len(),
                forall|j: int| 0 <= j < i ==> out@[j] == bytes@[at + j],
            decreases 32 - i,
        {
            out[i] = bytes[at + i];
            i += 1;
        }
        Address { bytes: out }
    }

    /// The bytes of the address, in order.
    pub fn to_vec(&self) -> (out: Vec<u8>)
        ensures
            out@ == self@,
    {
        let mut out: Vec<u8> = Vec::new();
        let mut i: usize = 0;
        while i < 32
            invariant
                i <= 32,
                out@ == self@.subrange(0, i as int),
            decreases 32 - i,
        {
            out.push(self.bytes[i]);
            i += 1;
        }
        out
    }
}

impl PartialEq for Address {
    fn eq(&self, other: &Address) -> (same: bool) {
        let mut i: usize = 0;
        while i < 32
            invariant
                i <= 32,
                forall|j: int| 0 <= j < i ==> self@[j] == other@[j],
            decreases 32 - i,
        {
            if self.bytes[i] != other.bytes[i] {
                return false;
            }
            i += 1;
        }
        assert(self@ =~= other@);
        true
    }
}

impl vstd::std_specs::cmp::PartialEqSpecImpl for Address {
    open spec fn obeys_eq_spec() -> bool {
        true
    }

    open spec fn eq_spec(&self, other: &Address) -> bool {
        self@ == other@
    }
}

impl Eq for Address {}

/// The address whose bytes are `bytes`.
pub open spec fn address_with(bytes: Seq<u8>) -> Address {
    choose|a: Address| a@ == bytes
}

/// Two addresses with the same bytes are the same address.
pub proof fn lemma_address_by_view(a: Address, b: Address)
    requires
        a@ == b@,
    ensures
        a == b,
{
    assert(a.bytes =~= b.bytes);
}

/// An address is the address with its bytes.
pub proof fn lemma_address_with(a: Address)
    ensures
        address_with(a@) == a,
{
    lemma_address_by_view(address_with(a@), a);
}

/// The domain-separation tag of every address derived for a vault.
pub const VAULT_TAG: [u8; 5] = [118, 97, 117, 108, 116];

/// The identity of this program, under which vault addresses are derived.
pub const PROGRAM_ID: [u8; 32] = [
    181, 187, 20, 126, 30, 163, 177, 11, 165, 225, 107, 16, 127, 84, 160, 250,
    52, 128, 147, 16, 53, 83, 252, 170, 206, 255, 220, 20, 204, 236, 174, 77,
];

/// The identity of the token program, which owns every asset-holding account.
pub const TOKEN_PROGRAM_ID: [u8; 32] = [
    6, 221, 246, 225, 215, 101, 161, 147, 217, 203, 225, 70, 206, 235, 121, 172,
    28, 180, 133, 237, 95, 91, 55, 145, 58, 140, 245, 133, 126, 255, 0, 169,
];

/// The identity of the associated-token-account program, under which the
/// asset-holding account of a wallet for an asset type is derived.
pub const ASSOCIATED_TOKEN_PROGRAM_ID: [u8; 32] = [
    140, 151, 37, 143, 78, 36, 137, 241, 187, 61, 16, 41, 20, 142, 13, 131,
    11, 90, 19, 153, 218, 255, 16, 132, 4, 142, 123, 216, 219, 233, 248, 89,
];

/// What the runtime's search for a program-derived address yields for the
/// given seeds under the given program: the address, or `None` where the
/// search finds none.
pub uninterp spec fn program_address(seeds: Seq<Seq<u8>>, program_id: Seq<u8>) -> Option<Seq<u8>>;

/// The bytes of an optional address.
pub open spec fn address_bytes(address: Option<Address>) -> Option<Seq<u8>> {
    match address {
        Some(a) => Some(a@),
        None => None,
    }
}

/// The seeds as sequences of bytes.
pub open spec fn seeds_bytes(seeds: Seq<Vec<u8>>) -> Seq<Seq<u8>> {
    Seq::new(seeds.len(), |i: int| seeds[i]@)
}

/// Calls `Pubkey::try_find_program_address` of `anchor_lang`. The contract
/// claims that the address found, or its absence, depends on the bytes of the
/// seeds and of the program identity alone, and gives that outcome the name
/// `program_address`; and that nothing is found for sixteen seeds or more, nor
/// for a seed of more than 32 bytes. It claims nothing on what the address
/// is.
#[verifier::external_body]
fn try_find_program_address(seeds: &Vec<Vec<u8>>, program_id: &Address) -> (found: Option<Address>)
    ensures
        address_bytes(found) == program_address(seeds_bytes(seeds@), program_id@),
        seeds@.len() >= 16 ==> found.is_none(),
        (exists|i: int| 0 <= i < seeds@.len() && (#[trigger] seeds@[i])@.len() > 32)
            ==> found.is_none(),
{
    let slices: Vec<&[u8]> = seeds.iter().map(|seed| seed.as_slice()).collect();
    let program = Pubkey::new_from_array(program_id.bytes);
    match Pubkey::try_find_program_address(&slices, &program) {
        Some((key, _)) => Some(Address { bytes: key.to_bytes() }),
        None => None,
    }
}

/// Calls `get_associated_token_address` of `anchor_spl`. That function
/// searches the program address of the wallet, the token program and the
/// asset type, in this order, under the associated-token-account program, and
/// does not return where the search finds none: the contract leaves those
/// inputs out, and claims that the result is the address found.
#[verifier::external_body]
fn get_associated_token_address(wallet: &Address, mint: &Address) -> (address: Address)
    requires
        spec_associated_token_address(wallet@, mint@).is_some(),
    ensures
        spec_associated_token_address(wallet@, mint@) == Some(address@),
{
    let key = anchor_spl::associated_token::get_associated_token_address(
        &Pubkey::new_from_array(wallet.bytes),
        &Pubkey::new_from_array(mint.bytes),
    );
    Address { bytes: key.to_bytes() }
}

/// The address derived from a tag and components under a program: what the
/// runtime finds for the seeds `tag`, then each component in order.
pub open spec fn derived_address(
    tag: Seq<u8>,
    components: Seq<Seq<u8>>,
    program_id: Seq<u8>,
) -> Option<Seq<u8>> {
    program_address(seq![tag] + components, program_id)
}

/// The address of the vault record of `owner`.
pub open spec fn spec_vault_address(owner: Seq<u8>) -> Option<Seq<u8>> {
    derived_address(VAULT_TAG@, seq![owner], PROGRAM_ID@)
}

/// The address of the asset-holding account that backs the vaults. It
/// depends on the tag alone.
pub open spec fn spec_vault_asset_address() -> Option<Seq<u8>> {
    derived_address(VAULT_TAG@, Seq::empty(), PROGRAM_ID@)
}

/// The address of the asset-holding account of `wallet` for the asset type
/// `mint`: the one derived under the associated-token-account program from
/// the wallet, the token program and the asset type, in this order.
pub open spec fn spec_associated_token_address(wallet: Seq<u8>, mint: Seq<u8>) -> Option<Seq<u8>> {
    program_address(seq![wallet, TOKEN_PROGRAM_ID@, mint], ASSOCIATED_TOKEN_PROGRAM_ID@)
}

/// The bytes of each address, in order.
pub open spec fn addresses_bytes(addresses: Seq<Address>) -> Seq<Seq<u8>> {
    Seq::new(addresses.len(), |i: int| addresses[i]@)
}

fn slice_to_vec(bytes: &[u8]) -> (out: Vec<u8>)
    ensures
        out@ == bytes@,
{
    let mut out: Vec<u8> = Vec::new();
    let mut i: usize = 0;
    while i < bytes.len()
        invariant
            i <= bytes.len(),
            out@ == bytes@.subrange(0, i as int),
        decreases bytes.len() - i,
    {
        out.push(bytes[i]);
        i += 1;
    }
    out
}

/// Derives the address that belongs to `tag` and `components` under
/// `program_id`. The result is `None` where the runtime finds no address for
/// them, as it does for a tag of more than 32 bytes and for fifteen
/// components or more.
pub fn derive(tag: &[u8], components: &Vec<Address>, program_id: &Address) -> (derived: Option<
    Address,
>)
    ensures
        address_bytes(derived) == derived_address(
            tag@,
            addresses_bytes(components@),
            program_id@,
        ),
        tag@.len() > 32 || components@.len() >= 15 ==> derived.is_none(),
{
    let mut seeds: Vec<Vec<u8>> = Vec::new();
    seeds.push(slice_to_vec(tag));
    let mut i: usize = 0;
    while i < components.len()
        invariant
            i <= components.len(),
            seeds@.len() == i + 1,
            seeds@[0]@ == tag@,
            forall|j: int| 0 <= j < i ==> seeds@[j + 1]@ == components@[j]@,
        decreases components.len() - i,
    {
        seeds.push(components[i].to_vec());
        i += 1;
    }
    assert(seeds_bytes(seeds@) =~= seq![tag@] + addresses_bytes(components@));
    try_find_program_address(&seeds, program_id)
}

/// The address of the vault record of `owner`, where one can be derived.
pub fn vault_address(owner: &Address) -> (derived: Option<Address>)
    ensures
        address_bytes(derived) == spec_vault_address(owner@),
{
    let mut components: Vec<Address> = Vec::new();
    components.push(*owner);
    assert(addresses_bytes(components@) =~= seq![owner@]);
    derive(VAULT_TAG.as_slice(), &components, &Address::new(PROGRAM_ID))
}

/// The address of the asset-holding account that backs the vaults, where one
/// can be derived.
pub fn vault_asset_address() -> (derived: Option<Address>)
    ensures
        address_bytes(derived) == spec_vault_asset_address(),
{
    let components: Vec<Address> = Vec::new();
    derive(VAULT_TAG.as_slice(), &components, &Address::new(PROGRAM_ID))
}

/// The address of the asset-holding account of `wallet` for the asset type
/// `mint`, where one can be derived. The search is made once to learn
/// whether there is such an address, and the token library is asked for the
/// address only where there is.
pub fn associated_token_address(wallet: &Address, mint: &Address) -> (derived: Option<Address>)
    ensures
        address_bytes(derived) == spec_associated_token_address(wallet@, mint@),
{
    let mut seeds: Vec<Vec<u8>> = Vec::new();
    seeds.push(wallet.to_vec());
    seeds.push(Address::new(TOKEN_PROGRAM_ID).to_vec());
    seeds.push(mint.to_vec());
    assert(seeds_bytes(seeds@) =~= seq![wallet@, TOKEN_PROGRAM_ID@, mint@]);
    match try_find_program_address(&seeds, &Address::new(ASSOCIATED_TOKEN_PROGRAM_ID)) {
        Some(_) => Some(get_associated_token_address(wallet, mint)),
        None => None,
    }
}

} // verus!
