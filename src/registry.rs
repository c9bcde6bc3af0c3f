use crate::address::{
    derive_mint_authority, derive_token_data, mint_authority_address, token_data_address, Address,
};
use crate::token::{bytes_of, ErrorCode, TokenData, MAX_NAME_LEN, MAX_SYMBOL_LEN};
use vstd::prelude::*;
use vstd::string::StringSliceAdditionalSpecFns;

verus! {

/// A metadata record at its derived address.
#[derive(Debug)]
pub struct MetadataEntry {
    pub address: Address,
    pub bump: u8,
    pub data: TokenData,
}

/// An asset class descriptor of the ledger.
#[derive(Clone, Copy, Debug)]
pub struct AssetClass {
    pub address: Address,
    pub decimals: u8,
    pub mint_authority: Address,
    pub supply: u64,
}

/// One owner's balance of one asset class.
#[derive(Clone, Copy, Debug)]
pub struct Holding {
    pub address: Address,
    pub asset_class: Address,
    pub owner: Address,
    pub balance: u64,
}

/// The records that a launch names: its signer and the two ledger records it creates.
#[derive(Clone, Copy, Debug)]
pub struct LaunchToken {
    pub creator: Address,
    pub mint: Address,
    pub creator_token_account: Address,
}

/// The signer of `enable_trading` and the metadata record it acts on.
#[derive(Clone, Copy, Debug)]
pub struct EnableTrading {
    pub creator: Address,
    pub token_data: Address,
}

/// The signer of `distribute_revenue` and the metadata record it acts on.
#[derive(Clone, Copy, Debug)]
pub struct DistributeRevenue {
    pub authority: Address,
    pub token_data: Address,
}

/// The writes of one launch, staged: all of them are committed, or none.
#[derive(Debug)]
pub struct LaunchPlan {
    pub record: MetadataEntry,
    pub asset_class: AssetClass,
    pub holding: Holding,
}

/// The records of one program: metadata records, and the ledger's asset
/// classes and holdings that launches created.
#[derive(Debug)]
pub struct Registry {
    pub program_id: Address,
    pub records: Vec<MetadataEntry>,
    pub asset_classes: Vec<AssetClass>,
    pub holdings: Vec<Holding>,
}

/// The address part of a derivation's result.
pub open spec fn derived_address(d: Option<(Seq<u8>, u8)>) -> Seq<u8> {
    match d {
        Some((a, _)) => a,
        None => Seq::empty(),
    }
}

/// The bump part of a derivation's result.
pub open spec fn derived_bump(d: Option<(Seq<u8>, u8)>) -> u8 {
    match d {
        Some((_, b)) => b,
        None => 0,
    }
}

pub open spec fn has_record(records: Seq<MetadataEntry>, a: Seq<u8>) -> bool {
    exists|i: int| 0 <= i < records.len() && #[trigger] records[i].address@ == a
}

pub open spec fn has_asset_class(classes: Seq<AssetClass>, a: Seq<u8>) -> bool {
    exists|i: int| 0 <= i < classes.len() && #[trigger] classes[i].address@ == a
}

pub open spec fn has_holding(holdings: Seq<Holding>, a: Seq<u8>) -> bool {
    exists|i: int| 0 <= i < holdings.len() && #[trigger] holdings[i].address@ == a
}

/// The metadata record of a launch with these arguments, at `address` with `bump`.
pub open spec fn launched_record(
    e: MetadataEntry,
    address: Seq<u8>,
    bump: u8,
    creator: Address,
    name: String,
    symbol: String,
    supply: u64,
    decimals: u8,
    created_at: i64,
) -> bool {
    &&& e.address@ == address
    &&& e.bump == bump
    &&& e.data == TokenData {
        creator,
        name,
        symbol,
        supply,
        decimals,
        created_at,
        trading_enabled: false,
        total_revenue_distributed: 0,
    }
}

impl Registry {
    /// Metadata record addresses are unique.
    pub open spec fn well_formed(&self) -> bool {
        forall|i: int, j: int|
            0 <= i < j < self.records@.len() ==> #[trigger] self.records@[i].address@
                != #[trigger] self.records@[j].address@
    }

    /// Some record of this registry lives at `a`.
    pub open spec fn in_use(&self, a: Seq<u8>) -> bool {
        has_record(self.records@, a) || has_asset_class(self.asset_classes@, a) || has_holding(
            self.holdings@,
            a,
        )
    }

    /// Why a launch with these arguments is refused before the ledger is
    /// asked to mint, if it is.
    pub open spec fn launch_error(
        &self,
        accounts: LaunchToken,
        name: Seq<u8>,
        symbol: Seq<u8>,
        supply: u64,
    ) -> Option<ErrorCode> {
        let record = token_data_address(self.program_id@, accounts.creator@, name);
        let authority = mint_authority_address(self.program_id@);
        if supply == 0 {
            Some(ErrorCode::InvalidSupply)
        } else if name.len() > MAX_NAME_LEN || symbol.len() > MAX_SYMBOL_LEN {
            Some(ErrorCode::FieldTooLong)
        } else if record is None || authority is None {
            Some(ErrorCode::AddressDerivationExhausted)
        } else if has_record(self.records@, derived_address(record)) {
            Some(ErrorCode::DuplicateIssuance)
        } else if self.in_use(accounts.mint@) || self.in_use(accounts.creator_token_account@)
            || accounts.mint@ == accounts.creator_token_account@ || accounts.mint@ == derived_address(record)
            || accounts.creator_token_account@ == derived_address(record) {
            Some(ErrorCode::ExternalLedgerRejected)
        } else {
            None
        }
    }

    /// `plan` holds exactly the writes of a launch with these arguments.
    pub open spec fn plans_launch(
        &self,
        plan: LaunchPlan,
        accounts: LaunchToken,
        name: String,
        symbol: String,
        supply: u64,
        decimals: u8,
        created_at: i64,
    ) -> bool {
        let record = token_data_address(self.program_id@, accounts.creator@, bytes_of(name));
        let authority = mint_authority_address(self.program_id@);
        &&& launched_record(
            plan.record,
            derived_address(record),
            derived_bump(record),
            accounts.creator,
            name,
            symbol,
            supply,
            decimals,
            created_at,
        )
        &&& plan.asset_class.address == accounts.mint
        &&& plan.asset_class.decimals == decimals
        &&& plan.asset_class.mint_authority@ == derived_address(authority)
        &&& plan.asset_class.supply == supply
        &&& plan.holding.address == accounts.creator_token_account
        &&& plan.holding.asset_class == accounts.mint
        &&& plan.holding.owner == accounts.creator
        &&& plan.holding.balance == supply
    }

    /// `after` is `self` with the writes of `plan` committed.
    pub open spec fn commits(&self, after: Registry, plan: LaunchPlan) -> bool {
        &&& after.program_id == self.program_id
        &&& after.records@ == self.records@.push(plan.record)
        &&& after.asset_classes@ == self.asset_classes@.push(plan.asset_class)
        &&& after.holdings@ == self.holdings@.push(plan.holding)
    }

    pub fn new(program_id: Address) -> (r: Registry)
        ensures
            r.program_id == program_id,
            r.records@.len() == 0,
            r.asset_classes@.len() == 0,
            r.holdings@.len() == 0,
            r.well_formed(),
    {
        Registry {
            program_id,
            records: Vec::new(),
            asset_classes: Vec::new(),
            holdings: Vec::new(),
        }
    }

    /// Index of the metadata record at `a`.
    pub fn find_record(&self, a: &Address) -> (r: Option<usize>)
        ensures
            match r {
                Some(i) => i < self.records@.len() && self.records@[i as int].address@ == a@,
                None => !has_record(self.records@, a@),
            },
    {
        let mut i: usize = 0;
        while i < self.records.len()
            invariant
                0 <= i <= self.records@.len(),
                forall|j: int| 0 <= j < i ==> self.records@[j].address@ != a@,
            decreases self.records@.len() - i,
        {
            if self.records[i].address == *a {
                return Some(i);
            }
            i = i + 1;
        }
        None
    }

    /// Whether some record of this registry lives at `a`.
    pub fn is_in_use(&self, a: &Address) -> (r: bool)
        ensures
            r == self.in_use(a@),
    {
        if self.find_record(a).is_some() {
            return true;
        }
        let mut i: usize = 0;
        while i < self.asset_classes.len()
            invariant
                0 <= i <= self.asset_classes@.len(),
                forall|j: int| 0 <= j < i ==> self.asset_classes@[j].address@ != a@,
            decreases self.asset_classes@.len() - i,
        {
            if self.asset_classes[i].address == *a {
                assert(self.asset_classes@[i as int].address@ == a@);
                return true;
            }
            i = i + 1;
        }
        let mut k: usize = 0;
        while k < self.holdings.len()
            invariant
                0 <= k <= self.holdings@.len(),
                forall|j: int| 0 <= j < k ==> self.holdings@[j].address@ != a@,
                !has_record(self.records@, a@),
                !has_asset_class(self.asset_classes@, a@),
            decreases self.holdings@.len() - k,
        {
            if self.holdings[k].address == *a {
                assert(self.holdings@[k as int].address@ == a@);
                return true;
            }
            k = k + 1;
        }
        false
    }

    /// Checks a launch and stages its writes, changing nothing.
    pub fn prepare_launch(
        &self,
        accounts: &LaunchToken,
        name: String,
        symbol: String,
        supply: u64,
        decimals: u8,
        created_at: i64,
    ) -> (r: Result<LaunchPlan, ErrorCode>)
        ensures
            match r {
                Ok(plan) => self.launch_error(*accounts, bytes_of(name), bytes_of(symbol), supply)
                    is None && self.plans_launch(
                    plan,
                    *accounts,
                    name,
                    symbol,
                    supply,
                    decimals,
                    created_at,
                ),
                Err(e) => self.launch_error(*accounts, bytes_of(name), bytes_of(symbol), supply)
                    == Some(e),
            },
    {
        if supply == 0 {
            return Err(ErrorCode::InvalidSupply);
        }
        let name_str: &str = name.as_str();
        let symbol_str: &str = symbol.as_str();
        assert(name_str.spec_bytes() == bytes_of(name));
        assert(symbol_str.spec_bytes() == bytes_of(symbol));
        if name_str.as_bytes().len() > MAX_NAME_LEN || symbol_str.as_bytes().len() > MAX_SYMBOL_LEN {
            return Err(ErrorCode::FieldTooLong);
        }
        let record = derive_token_data(&self.program_id, &accounts.creator, name_str);
        let authority = derive_mint_authority(&self.program_id);
        let (address, bump) = match record {
            Some(x) => x,
            None => {
                return Err(ErrorCode::AddressDerivationExhausted);
            },
        };
        let (mint_authority, _) = match authority {
            Some(x) => x,
            None => {
                return Err(ErrorCode::AddressDerivationExhausted);
            },
        };
        if self.find_record(&address).is_some() {
            return Err(ErrorCode::DuplicateIssuance);
        }
        if self.is_in_use(&accounts.mint) || self.is_in_use(&accounts.creator_token_account)
            || accounts.mint == accounts.creator_token_account || accounts.mint == address
            || accounts.creator_token_account == address {
            return Err(ErrorCode::ExternalLedgerRejected);
        }
        let data = TokenData {
            creator: accounts.creator,
            name,
            symbol,
            supply,
            decimals,
            created_at,
            trading_enabled: false,
            total_revenue_distributed: 0,
        };
        Ok(
            LaunchPlan {
                record: MetadataEntry { address, bump, data },
                asset_class: AssetClass {
                    address: accounts.mint,
                    decimals,
                    mint_authority,
                    supply,
                },
                holding: Holding {
                    address: accounts.creator_token_account,
                    asset_class: accounts.mint,
                    owner: accounts.creator,
                    balance: supply,
                },
            },
        )
    }

    /// Commits a staged launch when the ledger accepted the mint, and
    /// discards it whole otherwise.
    pub fn commit_launch(&mut self, plan: LaunchPlan, mint_accepted: bool) -> (r: Result<
        Address,
        ErrorCode,
    >)
        ensures
            mint_accepted ==> r == Ok::<Address, ErrorCode>(plan.record.address) && old(
                self,
            ).commits(*final(self), plan),
            !mint_accepted ==> r == Err::<Address, ErrorCode>(ErrorCode::ExternalLedgerRejected)
                && *final(self) == *old(self),
    {
        if !mint_accepted {
            return Err(ErrorCode::ExternalLedgerRejected);
        }
        let address = plan.record.address;
        self.records.push(plan.record);
        self.asset_classes.push(plan.asset_class);
        self.holdings.push(plan.holding);
        Ok(address)
    }
}

} // verus!
