use crate::address::{token_data_address, Address};
use crate::registry::{
    derived_address, has_record, DistributeRevenue, EnableTrading, LaunchPlan, LaunchToken,
    MetadataEntry, Registry,
};
use crate::token::{bytes_of, ErrorCode, TokenData};
use vstd::prelude::*;

verus! {

/// The writes that `after` holds beyond a registry it grew from by one launch.
pub open spec fn last_launch(after: Registry) -> LaunchPlan {
    LaunchPlan {
        record: after.records@.last(),
        asset_class: after.asset_classes@.last(),
        holding: after.holdings@.last(),
    }
}

/// `after` is `before` with one launch of these arguments committed.
pub open spec fn launched(
    before: Registry,
    after: Registry,
    accounts: LaunchToken,
    name: String,
    symbol: String,
    supply: u64,
    decimals: u8,
    created_at: i64,
) -> bool {
    &&& before.plans_launch(
        last_launch(after),
        accounts,
        name,
        symbol,
        supply,
        decimals,
        created_at,
    )
    &&& before.commits(after, last_launch(after))
}

/// `e` with its metadata replaced by `data`.
pub open spec fn with_data(e: MetadataEntry, data: TokenData) -> MetadataEntry {
    MetadataEntry { data, ..e }
}

/// `after` differs from `before` at most in the metadata record at `a`, and
/// there the record becomes `step(old record)`; the result is `outcome(old record)`.
pub open spec fn record_step(
    before: Registry,
    after: Registry,
    a: Seq<u8>,
    r: Result<(), ErrorCode>,
    outcome: spec_fn(TokenData) -> Result<(), ErrorCode>,
    step: spec_fn(TokenData) -> TokenData,
) -> bool {
    &&& after.program_id == before.program_id
    &&& after.asset_classes@ == before.asset_classes@
    &&& after.holdings@ == before.holdings@
    &&& !has_record(before.records@, a) ==> r == Err::<(), ErrorCode>(
        ErrorCode::AccountNotInitialized,
    ) && after.records@ == before.records@
    &&& forall|i: int|
        0 <= i < before.records@.len() && #[trigger] before.records@[i].address@ == a ==> r
            == outcome(before.records@[i].data) && after.records@ == before.records@.update(
            i,
            with_data(before.records@[i], step(before.records@[i].data)),
        )
}

/// Issues a token: checks the launch, stages its three records, and commits
/// them together when the ledger accepted the mint of `supply` units into the
/// creator's holding; otherwise the registry is left as it was.
pub fn launch_token(
    registry: &mut Registry,
    accounts: &LaunchToken,
    name: String,
    symbol: String,
    supply: u64,
    decimals: u8,
    created_at: i64,
    mint_accepted: bool,
) -> (r: Result<Address, ErrorCode>)
    requires
        old(registry).well_formed(),
    ensures
        final(registry).well_formed(),
        match old(registry).launch_error(*accounts, bytes_of(name), bytes_of(symbol), supply) {
            Some(e) => r == Err::<Address, ErrorCode>(e) && *final(registry) == *old(registry),
            None => if mint_accepted {
                &&& r is Ok
                &&& r->Ok_0@ == derived_address(
                    token_data_address(old(registry).program_id@, accounts.creator@, bytes_of(name)),
                )
                &&& launched(
                    *old(registry),
                    *final(registry),
                    *accounts,
                    name,
                    symbol,
                    supply,
                    decimals,
                    created_at,
                )
            } else {
                r == Err::<Address, ErrorCode>(ErrorCode::ExternalLedgerRejected) && *final(registry)
                    == *old(registry)
            },
        },
{
    let plan = match registry.prepare_launch(accounts, name, symbol, supply, decimals, created_at) {
        Ok(p) => p,
        Err(e) => {
            return Err(e);
        },
    };
    let ghost before = *registry;
    let ghost staged = plan;
    let r = registry.commit_launch(plan, mint_accepted);
    if mint_accepted {
        assert(last_launch(*registry) == staged);
        assert forall|i: int, j: int| 0 <= i < j < registry.records@.len() implies #[trigger] registry.records@[i].address@
            != #[trigger] registry.records@[j].address@ by {
            if j == before.records@.len() {
                assert(before.records@[i].address@ == registry.records@[i].address@);
            } else {
                assert(before.records@[i] == registry.records@[i]);
                assert(before.records@[j] == registry.records@[j]);
            }
        }
    }
    r
}

/// Sets `trading_enabled` on the metadata record at `accounts.token_data`,
/// for its creator only and only once.
pub fn enable_trading(registry: &mut Registry, accounts: &EnableTrading) -> (r: Result<(), ErrorCode>)
    requires
        old(registry).well_formed(),
    ensures
        final(registry).well_formed(),
        record_step(
            *old(registry),
            *final(registry),
            accounts.token_data@,
            r,
            |d: TokenData| d.enable_result(accounts.creator@),
            |d: TokenData| d.after_enable(accounts.creator@),
        ),
{
    let i = match registry.find_record(&accounts.token_data) {
        Some(i) => i,
        None => {
            return Err(ErrorCode::AccountNotInitialized);
        },
    };
    let ghost before = *registry;
    let mut entry = registry.records.remove(i);
    let r = entry.data.enable_trading(&accounts.creator);
    registry.records.insert(i, entry);
    assert(registry.records@ =~= before.records@.update(
        i as int,
        with_data(before.records@[i as int], before.records@[i as int].data.after_enable(accounts.creator@)),
    ));
    r
}

/// Adds `amount` to the running total of revenue distributed for the token
/// at `accounts.token_data`, for its creator only. How the revenue is paid
/// out to holders is not decided here.
pub fn distribute_revenue(registry: &mut Registry, accounts: &DistributeRevenue, amount: u64) -> (r: Result<(), ErrorCode>)
    requires
        old(registry).well_formed(),
    ensures
        final(registry).well_formed(),
        record_step(
            *old(registry),
            *final(registry),
            accounts.token_data@,
            r,
            |d: TokenData| d.revenue_result(accounts.authority@, amount),
            |d: TokenData| d.after_revenue(accounts.authority@, amount),
        ),
{
    let i = match registry.find_record(&accounts.token_data) {
        Some(i) => i,
        None => {
            return Err(ErrorCode::AccountNotInitialized);
        },
    };
    let ghost before = *registry;
    let mut entry = registry.records.remove(i);
    let r = entry.data.record_revenue(&accounts.authority, amount);
    registry.records.insert(i, entry);
    assert(registry.records@ =~= before.records@.update(
        i as int,
        with_data(
            before.records@[i as int],
            before.records@[i as int].data.after_revenue(accounts.authority@, amount),
        ),
    ));
    r
}

} // verus!
