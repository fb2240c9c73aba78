//! Account addresses and their derivation from ordered seeds.
use vstd::prelude::*;

verus! {

/// A 32-byte account address.
#[derive(Clone, Copy, Debug)]
pub struct Address {
    pub bytes: [u8; 32],
}

impl View for Address {
    type V = Seq<u8>;

    open spec fn view(&self) -> Seq<u8> {
        self.bytes@
    }
}

impl Address {
    pub fn new(bytes: [u8; 32]) -> (r: Address)
        ensures
            r@ == bytes@,
    {
        Address { bytes }
    }

    /// The bytes of the address, in order.
    pub fn to_vec(&self) -> (r: Vec<u8>)
        ensures
            r@ == self@,
    {
        let mut r: Vec<u8> = Vec::new();
        let mut i: usize = 0;
        while i < 32
            invariant
                0 <= i <= 32,
                self@.len() == 32,
                r@ == self@.subrange(0, i as int),
            decreases 32 - i,
        {
            r.push(self.bytes[i]);
            i += 1;
        }
        assert(r@ =~= self@);
        r
    }
}

impl PartialEq for Address {
    fn eq(&self, other: &Address) -> (r: bool) {
        let mut i: usize = 0;
        while i < 32
            invariant
                0 <= i <= 32,
                self@.len() == 32,
                other@.len() == 32,
                self@.subrange(0, i as int) =~= other@.subrange(0, i as int),
            decreases 32 - i,
        {
            if self.bytes[i] != other.bytes[i] {
                assert(self@[i as int] != other@[i as int]);
                return false;
            }
            assert(self@.subrange(0, i + 1) =~= self@.subrange(0, i as int).push(self@[i as int]));
            assert(other@.subrange(0, i + 1) =~= other@.subrange(0, i as int).push(other@[i as int]));
            i += 1;
        }
        assert(self@ =~= self@.subrange(0, 32));
        assert(other@ =~= other@.subrange(0, 32));
        true
    }
}

impl Eq for Address {
}

impl vstd::std_specs::cmp::PartialEqSpecImpl for Address {
    open spec fn obeys_eq_spec() -> bool {
        true
    }

    open spec fn eq_spec(&self, other: &Address) -> bool {
        self@ == other@
    }
}

/// The address, with its bump seed, that the program `program_id` owns for
/// the ordered seeds `seeds`; `None` where no bump seed yields one.
pub uninterp spec fn program_address_of(seeds: Seq<Seq<u8>>, program_id: Seq<u8>) -> Option<(Seq<u8>, u8)>;

pub open spec fn found_view(r: Option<(Address, u8)>) -> Option<(Seq<u8>, u8)> {
    match r {
        Some((a, b)) => Some((a@, b)),
        None => None,
    }
}

pub open spec fn seeds_view(seeds: Seq<Vec<u8>>) -> Seq<Seq<u8>> {
    seeds.map_values(|s: Vec<u8>| s@)
}

/// Relies on `Pubkey::try_find_program_address`: a deterministic function of
/// the seeds and the program id (a hash searched over bump seeds 255 down to
/// 1), which returns `None` instead of panicking.
#[verifier::external_body]
fn try_find_program_address(seeds: &Vec<Vec<u8>>, program_id: &Address) -> (r: Option<(Address, u8)>)
    ensures
        found_view(r) == program_address_of(seeds_view(seeds@), program_id@),
{
    let refs: Vec<&[u8]> = seeds.iter().map(|s| s.as_slice()).collect();
    let program = anchor_lang::prelude::Pubkey::new_from_array(program_id.bytes);
    anchor_lang::prelude::Pubkey::try_find_program_address(&refs, &program).map(
        |(key, bump)| (Address { bytes: key.to_bytes() }, bump),
    )
}

/// The seed that opens the address of a mandate.
pub open spec fn mandate_tag() -> Seq<u8> {
    seq![100u8, 109, 97, 110, 100, 97, 116, 101]
}

/// The seed that opens the address of a payment history record.
pub open spec fn payment_history_tag() -> Seq<u8> {
    seq![112u8, 97, 121, 109, 101, 110, 116, 95, 104, 105, 115, 116, 111, 114, 121]
}

/// The seed that opens the address of a user record.
pub open spec fn user_tag() -> Seq<u8> {
    seq![117u8, 115, 101, 114]
}

/// Four bytes, least significant first.
pub open spec fn le_bytes_u32(n: u32) -> Seq<u8> {
    seq![
        (n % 256) as u8,
        (n / 256 % 256) as u8,
        (n / 65536 % 256) as u8,
        (n / 16777216 % 256) as u8,
    ]
}

pub open spec fn mandate_seeds(payer: Seq<u8>, payee: Seq<u8>) -> Seq<Seq<u8>> {
    seq![mandate_tag(), payer, payee]
}

pub open spec fn payment_history_seeds(mandate: Seq<u8>, payment_number: u32) -> Seq<Seq<u8>> {
    seq![payment_history_tag(), mandate, le_bytes_u32(payment_number)]
}

pub open spec fn holding_account_seeds(wallet: Seq<u8>, token_program: Seq<u8>, mint: Seq<u8>) -> Seq<Seq<u8>> {
    seq![wallet, token_program, mint]
}

pub open spec fn user_seeds(authority: Seq<u8>) -> Seq<Seq<u8>> {
    seq![user_tag(), authority]
}

fn mandate_tag_bytes() -> (r: Vec<u8>)
    ensures
        r@ == mandate_tag(),
{
    let r: Vec<u8> = vec![100u8, 109, 97, 110, 100, 97, 116, 101];
    assert(r@ =~= mandate_tag());
    r
}

fn payment_history_tag_bytes() -> (r: Vec<u8>)
    ensures
        r@ == payment_history_tag(),
{
    let r: Vec<u8> = vec![112u8, 97, 121, 109, 101, 110, 116, 95, 104, 105, 115, 116, 111, 114, 121];
    assert(r@ =~= payment_history_tag());
    r
}

fn user_tag_bytes() -> (r: Vec<u8>)
    ensures
        r@ == user_tag(),
{
    let r: Vec<u8> = vec![117u8, 115, 101, 114];
    assert(r@ =~= user_tag());
    r
}

/// The little-endian encoding of `n`.
pub fn u32_to_le_bytes(n: u32) -> (r: Vec<u8>)
    ensures
        r@ == le_bytes_u32(n),
{
    let r: Vec<u8> = vec![
        (n % 256) as u8,
        (n / 256 % 256) as u8,
        (n / 65536 % 256) as u8,
        (n / 16777216 % 256) as u8,
    ];
    assert(r@ =~= le_bytes_u32(n));
    r
}

fn three_seeds(a: Vec<u8>, b: Vec<u8>, c: Vec<u8>) -> (r: Vec<Vec<u8>>)
    ensures
        seeds_view(r@) == seq![a@, b@, c@],
{
    let r: Vec<Vec<u8>> = vec![a, b, c];
    assert(seeds_view(r@) =~= seq![a@, b@, c@]);
    r
}

/// The address of the mandate from `payer` to `payee`, with its bump seed.
pub fn find_mandate_address(payer: &Address, payee: &Address, program_id: &Address) -> (r: Option<(Address, u8)>)
    ensures
        found_view(r) == program_address_of(mandate_seeds(payer@, payee@), program_id@),
{
    let seeds = three_seeds(mandate_tag_bytes(), payer.to_vec(), payee.to_vec());
    try_find_program_address(&seeds, program_id)
}

/// The address of the record of payment number `payment_number` of the
/// mandate at `mandate`, with its bump seed.
pub fn find_payment_history_address(mandate: &Address, payment_number: u32, program_id: &Address) -> (r: Option<(Address, u8)>)
    ensures
        found_view(r) == program_address_of(payment_history_seeds(mandate@, payment_number), program_id@),
{
    let seeds = three_seeds(payment_history_tag_bytes(), mandate.to_vec(), u32_to_le_bytes(payment_number));
    try_find_program_address(&seeds, program_id)
}

/// The address of the user record of `authority`, with its bump seed.
pub fn find_user_address(authority: &Address, program_id: &Address) -> (r: Option<(Address, u8)>)
    ensures
        found_view(r) == program_address_of(user_seeds(authority@), program_id@),
{
    let seeds: Vec<Vec<u8>> = vec![user_tag_bytes(), authority.to_vec()];
    assert(seeds_view(seeds@) =~= user_seeds(authority@));
    try_find_program_address(&seeds, program_id)
}

/// The associated holding account of `wallet` for the token `mint`: the
/// address that the associated token program owns for the seeds wallet,
/// token program and mint.
pub fn find_associated_token_address(
    wallet: &Address,
    mint: &Address,
    token_program_id: &Address,
    associated_token_program_id: &Address,
) -> (r: Option<(Address, u8)>)
    ensures
        found_view(r) == program_address_of(
            holding_account_seeds(wallet@, token_program_id@, mint@),
            associated_token_program_id@,
        ),
{
    let seeds = three_seeds(wallet.to_vec(), token_program_id.to_vec(), mint.to_vec());
    try_find_program_address(&seeds, associated_token_program_id)
}

} // verus!
