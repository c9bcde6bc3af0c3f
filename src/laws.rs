use crate::address::{token_data_address, token_data_seeds, token_data_tag, Address};
use crate::registry::{derived_address, has_record, LaunchToken, Registry};
use crate::token::{bytes_of, ErrorCode, TokenData, MAX_SYMBOL_LEN};
use crate::tokenforge::launched;
use vstd::prelude::*;
use vstd::utf8::encode_utf8_decode_utf8;

verus! {

/// The bytes that derivation hashes, before the bump, for a metadata record:
/// the seeds of `token_data_seeds` one after another.
pub open spec fn token_data_preimage(creator: Seq<u8>, name: Seq<u8>) -> Seq<u8> {
    token_data_tag() + creator + name
}

/// Derivation is deterministic: the same program, creator and name give the
/// same metadata record address and bump.
pub proof fn lemma_derivation_deterministic(
    program: Address,
    creator1: Address,
    name1: String,
    creator2: Address,
    name2: String,
)
    requires
        creator1@ == creator2@,
        name1@ == name2@,
    ensures
        token_data_address(program@, creator1@, bytes_of(name1)) == token_data_address(
            program@,
            creator2@,
            bytes_of(name2),
        ),
{
}

/// Distinct creators, or distinct names, give distinct seeds, and distinct
/// bytes for derivation to hash. That distinct hash inputs give distinct
/// addresses is the hash's collision resistance, which is assumed, not proved.
pub proof fn lemma_distinct_inputs_distinct_seeds(
    creator1: Address,
    name1: String,
    creator2: Address,
    name2: String,
)
    requires
        creator1@ != creator2@ || name1@ != name2@,
    ensures
        token_data_seeds(creator1@, bytes_of(name1)) != token_data_seeds(creator2@, bytes_of(name2)),
        token_data_preimage(creator1@, bytes_of(name1)) != token_data_preimage(
            creator2@,
            bytes_of(name2),
        ),
{
    encode_utf8_decode_utf8(name1@);
    encode_utf8_decode_utf8(name2@);
    let n1 = bytes_of(name1);
    let n2 = bytes_of(name2);
    assert(creator1@.len() == 32 && creator2@.len() == 32);
    if creator1@ != creator2@ {
        assert(token_data_seeds(creator1@, n1)[1] == creator1@);
        assert(token_data_seeds(creator2@, n2)[1] == creator2@);
        let pre_a = token_data_preimage(creator1@, n1);
        let pre_b = token_data_preimage(creator2@, n2);
        if pre_a == pre_b {
            assert(creator1@ =~= pre_a.subrange(10, 42));
            assert(creator2@ =~= pre_b.subrange(10, 42));
        }
    } else {
        assert(n1 != n2);
        assert(token_data_seeds(creator1@, n1)[2] == n1);
        assert(token_data_seeds(creator2@, n2)[2] == n2);
        let pre_a = token_data_preimage(creator1@, n1);
        let pre_b = token_data_preimage(creator2@, n2);
        if pre_a == pre_b {
            assert(n1 =~= pre_a.subrange(42, pre_a.len() as int));
            assert(n2 =~= pre_b.subrange(42, pre_b.len() as int));
        }
    }
}

/// Once a launch of `name` by a creator is committed, a second launch of the
/// same name by the same creator is refused as a duplicate, whatever its other
/// arguments, as long as they would pass the earlier checks.
pub proof fn lemma_second_launch_is_duplicate(
    before: Registry,
    after: Registry,
    accounts1: LaunchToken,
    name: String,
    symbol1: String,
    supply1: u64,
    decimals1: u8,
    created_at1: i64,
    accounts2: LaunchToken,
    symbol2: String,
    supply2: u64,
)
    requires
        before.launch_error(accounts1, bytes_of(name), bytes_of(symbol1), supply1) is None,
        launched(before, after, accounts1, name, symbol1, supply1, decimals1, created_at1),
        accounts2.creator@ == accounts1.creator@,
        supply2 > 0,
        bytes_of(symbol2).len() <= MAX_SYMBOL_LEN,
    ensures
        after.launch_error(accounts2, bytes_of(name), bytes_of(symbol2), supply2) == Some(
            ErrorCode::DuplicateIssuance,
        ),
{
    let a = derived_address(token_data_address(before.program_id@, accounts1.creator@, bytes_of(name)));
    let last = after.records@.len() - 1;
    assert(after.records@[last].address@ == a);
    assert(has_record(after.records@, a));
}

/// Trading, once enabled by the creator, stays enabled, and a second request
/// by the creator is refused.
pub proof fn lemma_enable_twice(data: TokenData, caller: Seq<u8>)
    requires
        caller == data.creator@,
        !data.trading_enabled,
    ensures
        data.enable_result(caller) is Ok,
        data.after_enable(caller).trading_enabled,
        data.after_enable(caller).enable_result(caller) == Err::<(), ErrorCode>(
            ErrorCode::TradingAlreadyEnabled,
        ),
        data.after_enable(caller).after_enable(caller) == data.after_enable(caller),
{
}

/// Over any run of revenue distributions against one record, successful or
/// not, the distributed total never decreases.
pub proof fn lemma_revenue_never_decreases(
    states: Seq<TokenData>,
    authorities: Seq<Seq<u8>>,
    amounts: Seq<u64>,
    i: int,
    j: int,
)
    requires
        states.len() == amounts.len() + 1,
        authorities.len() == amounts.len(),
        forall|k: int|
            0 <= k < amounts.len() ==> states[k + 1] == #[trigger] states[k].after_revenue(
                authorities[k],
                amounts[k],
            ),
        0 <= i <= j < states.len(),
    ensures
        states[i].total_revenue_distributed <= states[j].total_revenue_distributed,
    decreases j - i,
{
    if i < j {
        lemma_revenue_never_decreases(states, authorities, amounts, i, j - 1);
        assert(states[j] == states[j - 1].after_revenue(authorities[j - 1], amounts[j - 1]));
    }
}

} // verus!
