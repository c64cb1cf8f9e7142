use vstd::prelude::*;
use vstd::string::StringExecFns;
use crate::accounts::{account_data, find_account, AccountMap};
use crate::address::Address;
use crate::error::AmmError;
use crate::state::{
    amm_config_holds, is_amm_config_bytes, is_pool_state_bytes, pool_state_holds, AmmConfig,
    PoolState,
};
use crate::transfer_fee::{
    mint_info_of, token_account_of, unpack_mint, unpack_token_account, TokenMintInfo,
};

verus! {

/// The two tokens of a pool with their metadata and token programs.
#[derive(Clone, Copy, Debug)]
pub struct TokenMints {
    pub token0: Address,
    pub token1: Address,
    pub token0_mint: TokenMintInfo,
    pub token1_mint: TokenMintInfo,
    pub token0_program: Address,
    pub token1_program: Address,
}

/// A reading of the ledger clock.
#[derive(Clone, Copy, Debug, PartialEq, Eq)]
pub struct Clock {
    pub epoch: u64,
    pub unix_timestamp: i64,
}

/// One constant-product pool and the latest snapshot of its accounts.
#[derive(Clone, Copy, Debug)]
pub struct SegaAmm {
    pub key: Address,
    pub pool_state: PoolState,
    pub amm_config: Option<AmmConfig>,
    pub vault_0_amount: Option<u64>,
    pub vault_1_amount: Option<u64>,
    pub token_mints_and_token_programs: Option<TokenMints>,
    pub program_id: Address,
}

/// Outcome of reading one mint during an update: `Err` for bytes that are
/// present and malformed, `Ok(None)` for absent bytes.
pub open spec fn mint_read(m: Seq<(Address, Vec<u8>)>, k: Seq<u8>) -> Result<Option<TokenMintInfo>, ()> {
    match account_data(m, k) {
        None => Ok(None),
        Some(b) => match mint_info_of(b) {
            Some(i) => Ok(Some(i)),
            None => Err(()),
        },
    }
}

/// Balance of a vault read from `m`: `None` when its bytes are absent,
/// unreadable or frozen.
pub open spec fn vault_read(m: Seq<(Address, Vec<u8>)>, k: Seq<u8>) -> Option<u64> {
    match account_data(m, k) {
        None => None,
        Some(b) => match token_account_of(b) {
            Some(a) => if a.is_frozen {
                None
            } else {
                Some(a.amount)
            },
            None => None,
        },
    }
}

/// The error an update with `m` ends in for the pool at `key`, or `None` when it succeeds.
pub open spec fn update_error(key: Seq<u8>, m: Seq<(Address, Vec<u8>)>) -> Option<AmmError> {
    match account_data(m, key) {
        None => Some(AmmError::AccountMissing),
        Some(ps) => if !is_pool_state_bytes(ps) {
            Some(AmmError::DecodeError)
        } else if mint_read(m, ps.subrange(168, 200)) is Err || mint_read(
            m,
            ps.subrange(200, 232),
        ) is Err {
            Some(AmmError::DecodeError)
        } else {
            match account_data(m, ps.subrange(8, 40)) {
                None => Some(AmmError::AccountMissing),
                Some(c) => if is_amm_config_bytes(c) {
                    None
                } else {
                    Some(AmmError::DecodeError)
                },
            }
        },
    }
}

/// Whether `new` is the snapshot that a successful update with `m` makes of `old`.
pub open spec fn updated_from(old: SegaAmm, new: SegaAmm, m: Seq<(Address, Vec<u8>)>) -> bool {
    let ps = account_data(m, old.key@).unwrap();
    let p = new.pool_state;
    &&& new.key == old.key
    &&& new.program_id == old.program_id
    &&& pool_state_holds(p, ps)
    &&& new.amm_config is Some
    &&& amm_config_holds(new.amm_config.unwrap(), account_data(m, p.amm_config@).unwrap())
    &&& new.vault_0_amount == vault_read(m, p.token_0_vault@)
    &&& new.vault_1_amount == vault_read(m, p.token_1_vault@)
    &&& match (mint_read(m, p.token_0_mint@), mint_read(m, p.token_1_mint@)) {
        (Ok(Some(i0)), Ok(Some(i1))) => new.token_mints_and_token_programs == Some(
            TokenMints {
                token0: p.token_0_mint,
                token1: p.token_1_mint,
                token0_mint: i0,
                token1_mint: i1,
                token0_program: p.token_0_program,
                token1_program: p.token_1_program,
            },
        ),
        _ => new.token_mints_and_token_programs is None,
    }
}

/// Reads one mint of an update.
fn read_mint(m: &AccountMap, k: &Address) -> (r: Result<Option<TokenMintInfo>, ()>)
    ensures
        r == mint_read(m@, k@),
{
    match find_account(m, k) {
        None => Ok(None),
        Some(i) => match unpack_mint(m[i].1.as_slice()) {
            Some(info) => Ok(Some(info)),
            None => Err(()),
        },
    }
}

/// Reads the balance of one vault of an update.
fn read_vault(m: &AccountMap, k: &Address) -> (r: Option<u64>)
    ensures
        r == vault_read(m@, k@),
{
    match find_account(m, k) {
        None => None,
        Some(i) => match unpack_token_account(m[i].1.as_slice()) {
            Some(a) => if a.is_frozen {
                None
            } else {
                Some(a.amount)
            },
            None => None,
        },
    }
}

impl SegaAmm {
    /// A pool at `key`, owned by `program_id`, from the bytes of its account.
    /// Nothing but the pool account is known until the first update.
    pub fn from_keyed_account(key: Address, data: &[u8], program_id: Address) -> (r: Result<SegaAmm, AmmError>)
        ensures
            r.is_ok() <==> is_pool_state_bytes(data@),
            r.is_err() ==> r == Err::<SegaAmm, AmmError>(AmmError::DecodeError),
            r.is_ok() ==> ({
                let a = r.unwrap();
                &&& a.key == key
                &&& a.program_id == program_id
                &&& pool_state_holds(a.pool_state, data@)
                &&& a.amm_config is None
                &&& a.vault_0_amount is None
                &&& a.vault_1_amount is None
                &&& a.token_mints_and_token_programs is None
            }),
    {
        let pool_state = PoolState::try_deserialize(data)?;
        Ok(
            SegaAmm {
                key,
                pool_state,
                amm_config: None,
                vault_0_amount: None,
                vault_1_amount: None,
                token_mints_and_token_programs: None,
                program_id,
            },
        )
    }

    /// Replaces the snapshot with the accounts of `m`. The pool and its
    /// configuration must be present and well formed; a mint must be well
    /// formed where present; a vault that is absent, unreadable or frozen
    /// leaves its balance unknown. On failure the snapshot is left as it was.
    pub fn update(&mut self, m: &AccountMap) -> (r: Result<(), AmmError>)
        ensures
            r.is_ok() <==> update_error(old(self).key@, m@) is None,
            r.is_ok() ==> updated_from(*old(self), *final(self), m@),
            r.is_err() ==> r == Err::<(), AmmError>(update_error(old(self).key@, m@).unwrap()),
            r.is_err() ==> *final(self) == *old(self),
    {
        let pi = match find_account(m, &self.key) {
            Some(i) => i,
            None => return Err(AmmError::AccountMissing),
        };
        let pool_state = PoolState::try_deserialize(m[pi].1.as_slice())?;
        let ghost ps = m@[pi as int].1@;
        assert(pool_state.token_0_mint@ == ps.subrange(168, 200));
        let mint0 = match read_mint(m, &pool_state.token_0_mint) {
            Ok(x) => x,
            Err(()) => return Err(AmmError::DecodeError),
        };
        let mint1 = match read_mint(m, &pool_state.token_1_mint) {
            Ok(x) => x,
            Err(()) => return Err(AmmError::DecodeError),
        };
        let ci = match find_account(m, &pool_state.amm_config) {
            Some(i) => i,
            None => return Err(AmmError::AccountMissing),
        };
        let amm_config = AmmConfig::try_deserialize(m[ci].1.as_slice())?;
        let token_mints = match (mint0, mint1) {
            (Some(i0), Some(i1)) => Some(
                TokenMints {
                    token0: pool_state.token_0_mint,
                    token1: pool_state.token_1_mint,
                    token0_mint: i0,
                    token1_mint: i1,
                    token0_program: pool_state.token_0_program,
                    token1_program: pool_state.token_1_program,
                },
            ),
            _ => None,
        };
        let vault_0_amount = read_vault(m, &pool_state.token_0_vault);
        let vault_1_amount = read_vault(m, &pool_state.token_1_vault);
        self.pool_state = pool_state;
        self.amm_config = Some(amm_config);
        self.token_mints_and_token_programs = token_mints;
        self.vault_0_amount = vault_0_amount;
        self.vault_1_amount = vault_1_amount;
        Ok(())
    }
}


/// The program that owns the pools this library prices.
pub fn sega_program_id() -> (r: Address)
    ensures
        r@ == sega_program_id_bytes(),
{
    let r = Address(
        [
            6, 146, 32, 185, 101, 29, 154, 40, 65, 5, 62, 60, 188, 93, 138, 178, 220, 199, 138, 26,
            81, 161, 71, 204, 155, 107, 35, 60, 217, 160, 86, 120,
        ],
    );
    assert(r@ =~= sega_program_id_bytes());
    r
}

/// Bytes of the program that owns the pools this library prices.
pub open spec fn sega_program_id_bytes() -> Seq<u8> {
    seq![
        6u8, 146u8, 32u8, 185u8, 101u8, 29u8, 154u8, 40u8, 65u8, 5u8, 62u8, 60u8, 188u8, 93u8,
        138u8, 178u8, 220u8, 199u8, 138u8, 26u8, 81u8, 161u8, 71u8, 204u8, 155u8, 107u8, 35u8,
        60u8, 217u8, 160u8, 86u8, 120u8,
    ]
}

/// Builds the pool at `key` from its account bytes, where `owner` is a
/// program whose pools this library prices.
pub fn amm_factory(key: Address, data: &[u8], owner: Address) -> (r: Result<SegaAmm, AmmError>)
    ensures
        owner@ != sega_program_id_bytes() ==> r == Err::<SegaAmm, AmmError>(AmmError::UnsupportedPool),
        owner@ == sega_program_id_bytes() ==> (r.is_ok() <==> is_pool_state_bytes(data@)),
        owner@ == sega_program_id_bytes() && r.is_err() ==> r == Err::<SegaAmm, AmmError>(AmmError::DecodeError),
        r.is_ok() ==> ({
            let a = r.unwrap();
            &&& a.key == key
            &&& a.program_id == owner
            &&& pool_state_holds(a.pool_state, data@)
            &&& a.amm_config is None
            &&& a.token_mints_and_token_programs is None
        }),
{
    if owner.same_as(&sega_program_id()) {
        SegaAmm::from_keyed_account(key, data, owner)
    } else {
        Err(AmmError::UnsupportedPool)
    }
}

impl SegaAmm {
    /// Display name of the pool kind.
    pub fn label(&self) -> (r: String)
        ensures
            r@ == "SEGA"@,
    {
        String::from_str("SEGA")
    }

    /// The program that owns the pool.
    pub fn program_id(&self) -> (r: Address)
        ensures
            r == self.program_id,
    {
        self.program_id
    }

    /// The pool's own address.
    pub fn key(&self) -> (r: Address)
        ensures
            r == self.key,
    {
        self.key
    }

    /// The two tokens the pool trades.
    pub fn get_reserve_mints(&self) -> (r: Vec<Address>)
        ensures
            r@ == seq![self.pool_state.token_0_mint, self.pool_state.token_1_mint],
    {
        let mut v: Vec<Address> = Vec::new();
        v.push(self.pool_state.token_0_mint);
        v.push(self.pool_state.token_1_mint);
        assert(v@ =~= seq![self.pool_state.token_0_mint, self.pool_state.token_1_mint]);
        v
    }

    /// The accounts whose bytes the next update needs: the pool, its two
    /// vaults, its configuration and its two mints.
    pub fn get_accounts_to_update(&self) -> (r: Vec<Address>)
        ensures
            r@ == seq![
                self.key,
                self.pool_state.token_0_vault,
                self.pool_state.token_1_vault,
                self.pool_state.amm_config,
                self.pool_state.token_0_mint,
                self.pool_state.token_1_mint,
            ],
    {
        let mut v: Vec<Address> = Vec::new();
        v.push(self.key);
        v.push(self.pool_state.token_0_vault);
        v.push(self.pool_state.token_1_vault);
        v.push(self.pool_state.amm_config);
        v.push(self.pool_state.token_0_mint);
        v.push(self.pool_state.token_1_mint);
        assert(v@ =~= seq![
            self.key,
            self.pool_state.token_0_vault,
            self.pool_state.token_1_vault,
            self.pool_state.amm_config,
            self.pool_state.token_0_mint,
            self.pool_state.token_1_mint,
        ]);
        v
    }

    /// Number of accounts a swap instruction takes.
    pub fn get_accounts_len(&self) -> (r: usize)
        ensures
            r == 14,
    {
        14
    }
}

} // verus!
