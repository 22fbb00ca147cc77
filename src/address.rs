//! Deterministic sub-account addresses.
//!
//! Every account the client touches besides the trader's wallet is found
//! from a fixed list of seeds under an owning program, never stored or
//! chosen at random.

use vstd::prelude::*;
use vstd::slice::slice_to_vec;
use vstd::string::StringSliceAdditionalSpecFns;

verus! {

/// A 32-byte account address.
#[derive(Clone, Copy, Debug, PartialEq, Eq, Hash)]
pub struct Address {
    pub bytes: [u8; 32],
}

impl View for Address {
    type V = Seq<u8>;

    open spec fn view(&self) -> Seq<u8> {
        self.bytes@
    }
}

/// Whether two addresses are the same.
pub fn same_address(a: &Address, b: &Address) -> (r: bool)
    ensures
        r == (*a == *b),
{
    let mut i: usize = 0;
    while i < 32
        invariant
            i <= 32,
            forall|j: int| 0 <= j < i ==> a.bytes@[j] == b.bytes@[j],
        decreases 32 - i,
    {
        if a.bytes[i] != b.bytes[i] {
            return false;
        }
        i = i + 1;
    }
    assert(a.bytes@ =~= b.bytes@);
    assert(a.bytes =~= b.bytes);
    true
}

/// Most seeds a derivation accepts, the bump seed included.
pub const MAX_SEEDS: usize = 16;

/// Longest seed, in bytes.
pub const MAX_SEED_LEN: usize = 32;

/// Whether a seed list stays within the limits of a derivation: fewer than
/// `MAX_SEEDS` seeds (one slot is kept for the bump seed), none longer than
/// `MAX_SEED_LEN` bytes.
pub open spec fn seeds_within_limits(seeds: Seq<Seq<u8>>) -> bool {
    &&& seeds.len() < MAX_SEEDS
    &&& forall|i: int| 0 <= i < seeds.len() ==> #[trigger] seeds[i].len() <= MAX_SEED_LEN
}

/// The program-derived address and bump seed of a seed list under an owning
/// program, if one exists.
pub uninterp spec fn program_address(seeds: Seq<Seq<u8>>, owner: Address) -> Option<(Address, u8)>;

/// Relies on `Pubkey::try_find_program_address` of solana-program: a function
/// of the seeds and the owner alone, which finds nothing when there are 16
/// seeds or more or a seed is longer than 32 bytes.
#[verifier::external_body]
fn find_program_address(seeds: &Vec<Vec<u8>>, owner: &Address) -> (r: Option<(Address, u8)>)
    ensures
        r == program_address(seeds.deep_view(), *owner),
        !seeds_within_limits(seeds.deep_view()) ==> r.is_none(),
{
    let seeds: Vec<&[u8]> = seeds.iter().map(|s| s.as_slice()).collect();
    let owner = solana_program::pubkey::Pubkey::new_from_array(owner.bytes);
    solana_program::pubkey::Pubkey::try_find_program_address(&seeds, &owner)
        .map(|(a, b)| (Address { bytes: a.to_bytes() }, b))
}

/// Why no address could be derived.
#[derive(Clone, Copy, Debug, PartialEq, Eq)]
pub enum DeriveError {
    /// No bump seed gives a valid address for this seed list and owner: the
    /// seeds do not fit the owning program, which a retry cannot mend.
    NoViableAddress,
}

/// What `derive_address` returns for a seed list under an owner.
pub open spec fn derived(seeds: Seq<Seq<u8>>, owner: Address) -> Result<(Address, u8), DeriveError> {
    match program_address(seeds, owner) {
        Some(found) => Ok(found),
        None => Err(DeriveError::NoViableAddress),
    }
}

/// Derives the address and bump seed of `seeds` under `owner`.
pub fn derive_address(seeds: &Vec<Vec<u8>>, owner: &Address) -> (r: Result<(Address, u8), DeriveError>)
    ensures
        r == derived(seeds.deep_view(), *owner),
        !seeds_within_limits(seeds.deep_view()) ==> r == Err::<(Address, u8), DeriveError>(DeriveError::NoViableAddress),
{
    match find_program_address(seeds, owner) {
        Some(found) => Ok(found),
        None => Err(DeriveError::NoViableAddress),
    }
}

/// Deriving twice from the same seeds under the same owner gives the same
/// address and bump seed.
pub proof fn lemma_derive_deterministic(
    seeds1: Seq<Seq<u8>>,
    owner1: Address,
    r1: Result<(Address, u8), DeriveError>,
    seeds2: Seq<Seq<u8>>,
    owner2: Address,
    r2: Result<(Address, u8), DeriveError>,
)
    requires
        seeds1 == seeds2,
        owner1 == owner2,
        r1 == derived(seeds1, owner1),
        r2 == derived(seeds2, owner2),
    ensures
        r1 == r2,
{
}

// Leading seeds of the exchange program's sub-accounts.
pub const USER_ACCOUNT_PREFIX: &'static str = "user_account";
pub const LIQUIDATION_STATE_PREFIX: &'static str = "liquidation_state";
pub const FEE_ACCOUNT_PREFIX: &'static str = "fee_account";
pub const SERUM_OPEN_ORDERS_PREFIX: &'static str = "serum_open_orders";
pub const MARGIN_STRESS_PREFIX: &'static str = "margin_stress";
pub const SERUM_MARKET_AUTH_PREFIX: &'static str = "serum_market_auth";
pub const MARKET_MINT_AUTH_PREFIX: &'static str = "optifi_market_mint_auth";
pub const CENTRAL_USDC_POOL_AUTH_PREFIX: &'static str = "central_usdc_pool_auth";

/// An account of the exchange program found from seeds.
#[derive(Clone, Copy, Debug, PartialEq, Eq)]
pub enum SubAccount {
    /// A trader's margin account record on an exchange.
    UserAccount { exchange: Address, owner: Address },
    /// The liquidation progress record of a user account.
    Liquidation { exchange: Address, user_account: Address },
    /// The fee record of a user account.
    Fee { exchange: Address, user_account: Address },
    /// A user account's open-orders account on one venue market.
    OpenOrders { exchange: Address, user_account: Address, venue_market: Address },
    /// The margin-stress record of one asset.
    MarginStress { exchange: Address, asset: u8 },
    /// The venue-market and prune authority of an exchange.
    VenueMarketAuthority { exchange: Address },
    /// The mint authority of all instrument tokens of an exchange.
    MarketMintAuthority { exchange: Address },
    /// The authority over the central settlement pool of an exchange.
    CentralPoolAuthority { exchange: Address },
}

/// The seed list of a sub-account.
pub open spec fn sub_account_seeds(account: SubAccount) -> Seq<Seq<u8>> {
    match account {
        SubAccount::UserAccount { exchange, owner } => seq![USER_ACCOUNT_PREFIX.spec_bytes(), exchange@, owner@],
        SubAccount::Liquidation { exchange, user_account } => seq![
            LIQUIDATION_STATE_PREFIX.spec_bytes(),
            exchange@,
            user_account@,
        ],
        SubAccount::Fee { exchange, user_account } => seq![FEE_ACCOUNT_PREFIX.spec_bytes(), exchange@, user_account@],
        SubAccount::OpenOrders { exchange, user_account, venue_market } => seq![
            SERUM_OPEN_ORDERS_PREFIX.spec_bytes(),
            exchange@,
            venue_market@,
            user_account@,
        ],
        SubAccount::MarginStress { exchange, asset } => seq![MARGIN_STRESS_PREFIX.spec_bytes(), exchange@, seq![asset]],
        SubAccount::VenueMarketAuthority { exchange } => seq![SERUM_MARKET_AUTH_PREFIX.spec_bytes(), exchange@],
        SubAccount::MarketMintAuthority { exchange } => seq![MARKET_MINT_AUTH_PREFIX.spec_bytes(), exchange@],
        SubAccount::CentralPoolAuthority { exchange } => seq![CENTRAL_USDC_POOL_AUTH_PREFIX.spec_bytes(), exchange@],
    }
}

fn text_seed(prefix: &str) -> (r: Vec<u8>)
    ensures
        r@ == prefix.spec_bytes(),
{
    slice_to_vec(prefix.as_bytes())
}

fn address_seed(a: &Address) -> (r: Vec<u8>)
    ensures
        r@ == a@,
{
    slice_to_vec(a.bytes.as_slice())
}

proof fn lemma_seed_list_view(seeds: Vec<Vec<u8>>)
    ensures
        seeds.deep_view().len() == seeds@.len(),
        forall|i: int| 0 <= i < seeds@.len() ==> #[trigger] seeds.deep_view()[i] == seeds@[i]@,
{
    assert forall|i: int| 0 <= i < seeds@.len() implies #[trigger] seeds.deep_view()[i] == seeds@[i]@ by {
        assert(seeds@[i].deep_view() =~= seeds@[i]@);
    }
}

/// Builds the seed list of a sub-account.
pub fn seeds_of(account: &SubAccount) -> (r: Vec<Vec<u8>>)
    ensures
        r.deep_view() == sub_account_seeds(*account),
{
    let seeds = match account {
        SubAccount::UserAccount { exchange, owner } => vec![
            text_seed(USER_ACCOUNT_PREFIX),
            address_seed(exchange),
            address_seed(owner),
        ],
        SubAccount::Liquidation { exchange, user_account } => vec![
            text_seed(LIQUIDATION_STATE_PREFIX),
            address_seed(exchange),
            address_seed(user_account),
        ],
        SubAccount::Fee { exchange, user_account } => vec![
            text_seed(FEE_ACCOUNT_PREFIX),
            address_seed(exchange),
            address_seed(user_account),
        ],
        SubAccount::OpenOrders { exchange, user_account, venue_market } => vec![
            text_seed(SERUM_OPEN_ORDERS_PREFIX),
            address_seed(exchange),
            address_seed(venue_market),
            address_seed(user_account),
        ],
        SubAccount::MarginStress { exchange, asset } => {
            let asset_seed = vec![*asset];
            assert(asset_seed@ =~= seq![*asset]);
            vec![text_seed(MARGIN_STRESS_PREFIX), address_seed(exchange), asset_seed]
        },
        SubAccount::VenueMarketAuthority { exchange } => vec![
            text_seed(SERUM_MARKET_AUTH_PREFIX),
            address_seed(exchange),
        ],
        SubAccount::MarketMintAuthority { exchange } => vec![
            text_seed(MARKET_MINT_AUTH_PREFIX),
            address_seed(exchange),
        ],
        SubAccount::CentralPoolAuthority { exchange } => vec![
            text_seed(CENTRAL_USDC_POOL_AUTH_PREFIX),
            address_seed(exchange),
        ],
    };
    proof {
        lemma_seed_list_view(seeds);
    }
    assert(seeds.deep_view() =~= sub_account_seeds(*account));
    seeds
}

/// The address and bump seed of a sub-account under the exchange program.
pub fn derive_sub_account(account: &SubAccount, program: &Address) -> (r: Result<(Address, u8), DeriveError>)
    ensures
        r == derived(sub_account_seeds(*account), *program),
{
    let seeds = seeds_of(account);
    derive_address(&seeds, program)
}

/// Seeds of the associated token account of `wallet` for `mint`.
pub open spec fn associated_token_seeds(wallet: Address, token_program: Address, mint: Address) -> Seq<Seq<u8>> {
    seq![wallet@, token_program@, mint@]
}

/// The associated token account of `wallet` for `mint`, found under the
/// associated-token program.
pub fn associated_token_address(
    wallet: &Address,
    mint: &Address,
    token_program: &Address,
    associated_token_program: &Address,
) -> (r: Result<Address, DeriveError>)
    ensures
        match r {
            Ok(a) => address_of(associated_token_seeds(*wallet, *token_program, *mint), *associated_token_program) == Some(a),
            Err(_) => address_of(associated_token_seeds(*wallet, *token_program, *mint), *associated_token_program).is_none(),
        },
{
    let seeds = vec![address_seed(wallet), address_seed(token_program), address_seed(mint)];
    proof {
        lemma_seed_list_view(seeds);
    }
    assert(seeds.deep_view() =~= associated_token_seeds(*wallet, *token_program, *mint));
    match derive_address(&seeds, associated_token_program) {
        Ok((a, _)) => Ok(a),
        Err(e) => Err(e),
    }
}

/// The address alone of a derivation, if there is one.
pub open spec fn address_of(seeds: Seq<Seq<u8>>, owner: Address) -> Option<Address> {
    match program_address(seeds, owner) {
        Some((a, _)) => Some(a),
        None => None,
    }
}

/// The address of a sub-account under the exchange program.
pub fn sub_account_address(account: &SubAccount, program: &Address) -> (r: Result<Address, DeriveError>)
    ensures
        match r {
            Ok(a) => address_of(sub_account_seeds(*account), *program) == Some(a),
            Err(_) => address_of(sub_account_seeds(*account), *program).is_none(),
        },
{
    match derive_sub_account(account, program) {
        Ok((a, _)) => Ok(a),
        Err(e) => Err(e),
    }
}

} // verus!
