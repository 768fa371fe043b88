use vstd::prelude::*;

use crate::error::ContractError;
use crate::msg::{Coin, ExecuteAck, ExecuteMsg, InstantiateMsg, QueryAnswer, QueryMsg, TransferDirective};
use crate::state::{Config, ConfigResponse, Ledger};
use crate::util::check_owner;

verus! {

/// The contract identity tag written at initialization and checked by
/// `migrate`.
pub open spec fn spec_contract_name() -> Seq<char> {
    "SEITIZEN_MARKETPLACE"@
}

/// The designated currency denomination: the single denomination recognized
/// for stake deposits and withdrawals. Fixed, not configurable.
pub open spec fn spec_denom() -> Seq<char> {
    "usei"@
}

pub fn contract_name() -> (r: &'static str)
    ensures
        r@ == spec_contract_name(),
{
    "SEITIZEN_MARKETPLACE"
}

pub fn denom() -> (r: &'static str)
    ensures
        r@ == spec_denom(),
{
    "usei"
}

/// The amount attached in denomination `denom` among `funds`: the first coin
/// whose denomination matches, or `None` if no coin matches.
pub open spec fn find_denom(funds: Seq<Coin>, denom: Seq<char>) -> Option<u128>
    decreases funds.len(),
{
    if funds.len() == 0 {
        None
    } else if funds[0].denom@ == denom {
        Some(funds[0].amount)
    } else {
        find_denom(funds.skip(1), denom)
    }
}

/// Linear scan over the attached funds for the first coin in denomination
/// `d`.
fn find_coin(funds: &Vec<Coin>, d: &String) -> (r: Option<u128>)
    ensures
        r == find_denom(funds@, d@),
{
    let n: usize = funds.len();
    let mut idx: usize = 0;
    while idx < n
        invariant
            n == funds@.len(),
            idx <= n,
            forall|j: int| 0 <= j < idx ==> (#[trigger] funds@[j]).denom@ != d@,
        decreases n - idx,
    {
        if funds[idx].denom == *d {
            proof {
                lemma_find_denom_found(funds@, d@, idx as int);
            }
            return Some(funds[idx].amount);
        }
        idx += 1;
    }
    proof {
        lemma_find_denom_none(funds@, d@);
    }
    None
}

/// A denomination that matches no attached coin finds no amount.
proof fn lemma_find_denom_none(funds: Seq<Coin>, d: Seq<char>)
    requires
        forall|i: int| 0 <= i < funds.len() ==> (#[trigger] funds[i]).denom@ != d,
    ensures
        find_denom(funds, d) is None,
    decreases funds.len(),
{
    if funds.len() > 0 {
        assert(funds[0].denom@ != d);
        assert forall|i: int| 0 <= i < funds.skip(1).len() implies (#[trigger] funds.skip(
            1,
        )[i]).denom@ != d by {
            assert(funds.skip(1)[i] == funds[i + 1]);
        }
        lemma_find_denom_none(funds.skip(1), d);
    }
}

/// If coin `i` is the first whose denomination matches `d`, the found amount
/// is that coin's amount.
proof fn lemma_find_denom_found(funds: Seq<Coin>, d: Seq<char>, i: int)
    requires
        0 <= i < funds.len(),
        funds[i].denom@ == d,
        forall|j: int| 0 <= j < i ==> (#[trigger] funds[j]).denom@ != d,
    ensures
        find_denom(funds, d) == Some(funds[i].amount),
    decreases i,
{
    if i > 0 {
        assert(funds[0].denom@ != d);
        assert forall|j: int| 0 <= j < i - 1 implies (#[trigger] funds.skip(1)[j]).denom@
            != d by {
            assert(funds.skip(1)[j] == funds[j + 1]);
        }
        assert(funds.skip(1)[i - 1] == funds[i]);
        lemma_find_denom_found(funds.skip(1), d, i - 1);
    }
}

/// Creates the singleton configuration with the caller as both owner and
/// deployer, records the contract identity tag, and starts with no stake
/// records. The surrounding environment guarantees this runs exactly once.
pub fn instantiate(msg: InstantiateMsg, sender: String) -> (l: Ledger)
    ensures
        l.wf(),
        l.spec_fee() == msg.fee,
        l.spec_owner() == sender@,
        l.spec_deployer() == sender@,
        l.spec_name() == spec_contract_name(),
        forall|a: Seq<char>| l.stake_of(a) is None,
{
    let l = Ledger {
        config: Config { fee: msg.fee, owner: sender.clone(), deployer: sender },
        contract_name: contract_name().to_owned(),
        stakes: Vec::new(),
    };
    proof {
        assert forall|a: Seq<char>| l.stake_of(a) is None by {
            crate::state::lemma_lookup_none(l.stakes@, a);
        }
    }
    l
}

/// Dispatches a mutating operation to its handler.
pub fn execute(ledger: &mut Ledger, sender: String, funds: &Vec<Coin>, msg: ExecuteMsg) -> (r:
    Result<ExecuteAck, ContractError>)
    ensures
        match msg {
            ExecuteMsg::UpdateOwner { owner } => update_owner_post(
                *old(ledger),
                *final(ledger),
                sender@,
                owner@,
                r,
            ),
            ExecuteMsg::UpdateFee { fee } => update_fee_post(
                *old(ledger),
                *final(ledger),
                sender@,
                fee,
                r,
            ),
            ExecuteMsg::Stake {  } => stake_post(*old(ledger), *final(ledger), sender@, funds@, r),
            ExecuteMsg::WithdrawSei { amount } => *final(ledger) == *old(ledger) && withdraw_post(
                *old(ledger),
                sender@,
                amount,
                r,
            ),
        },
{
    match msg {
        ExecuteMsg::UpdateOwner { owner } => execute_update_owner(ledger, sender, owner),
        ExecuteMsg::UpdateFee { fee } => execute_update_fee(ledger, sender, fee),
        ExecuteMsg::Stake {  } => execute_stake(ledger, sender, funds),
        ExecuteMsg::WithdrawSei { amount } => execute_withdraw(ledger, sender, amount),
    }
}

/// What `execute_update_owner` guarantees, relating the pre- and post-state.
pub open spec fn update_owner_post(
    pre: Ledger,
    post: Ledger,
    sender: Seq<char>,
    new_owner: Seq<char>,
    r: Result<ExecuteAck, ContractError>,
) -> bool {
    &&& pre.wf() ==> post.wf()
    &&& !pre.is_owner(sender) ==> r == Err::<ExecuteAck, ContractError>(
        ContractError::Unauthorized,
    ) && post == pre
    &&& pre.is_owner(sender) ==> {
        &&& r matches Ok(ExecuteAck::OwnerUpdated { owner: ack }) && ack@ == new_owner
        &&& post.spec_owner() == new_owner
        &&& post.spec_fee() == pre.spec_fee()
        &&& post.spec_deployer() == pre.spec_deployer()
        &&& post.spec_name() == pre.spec_name()
        &&& post.stakes@ == pre.stakes@
    }
}

/// Replaces the configuration's owner, if the caller is the current owner.
pub fn execute_update_owner(ledger: &mut Ledger, sender: String, owner: String) -> (r: Result<
    ExecuteAck,
    ContractError,
>)
    ensures
        update_owner_post(*old(ledger), *final(ledger), sender@, owner@, r),
{
    match check_owner(ledger, &sender) {
        Err(e) => Err(e),
        Ok(_) => {
            ledger.config.owner = owner.clone();
            Ok(ExecuteAck::OwnerUpdated { owner })
        },
    }
}

/// What `execute_update_fee` guarantees, relating the pre- and post-state.
pub open spec fn update_fee_post(
    pre: Ledger,
    post: Ledger,
    sender: Seq<char>,
    new_fee: u128,
    r: Result<ExecuteAck, ContractError>,
) -> bool {
    &&& pre.wf() ==> post.wf()
    &&& !pre.is_owner(sender) ==> r == Err::<ExecuteAck, ContractError>(
        ContractError::Unauthorized,
    ) && post == pre
    &&& pre.is_owner(sender) ==> {
        &&& r == Ok::<ExecuteAck, ContractError>(ExecuteAck::FeeUpdated { fee: new_fee })
        &&& post.spec_fee() == new_fee
        &&& post.spec_owner() == pre.spec_owner()
        &&& post.spec_deployer() == pre.spec_deployer()
        &&& post.spec_name() == pre.spec_name()
        &&& post.stakes@ == pre.stakes@
    }
}

/// Replaces the configuration's fee, if the caller is the current owner. Any
/// non-negative fee is accepted, including zero.
pub fn execute_update_fee(ledger: &mut Ledger, sender: String, fee: u128) -> (r: Result<
    ExecuteAck,
    ContractError,
>)
    ensures
        update_fee_post(*old(ledger), *final(ledger), sender@, fee, r),
{
    match check_owner(ledger, &sender) {
        Err(e) => Err(e),
        Ok(_) => {
            ledger.config.fee = fee;
            Ok(ExecuteAck::FeeUpdated { fee })
        },
    }
}

/// What `execute_stake` guarantees, relating the pre- and post-state.
pub open spec fn stake_post(
    pre: Ledger,
    post: Ledger,
    sender: Seq<char>,
    funds: Seq<Coin>,
    r: Result<ExecuteAck, ContractError>,
) -> bool {
    &&& pre.wf() ==> post.wf()
    &&& post.spec_fee() == pre.spec_fee()
    &&& post.spec_owner() == pre.spec_owner()
    &&& post.spec_deployer() == pre.spec_deployer()
    &&& post.spec_name() == pre.spec_name()
    &&& match find_denom(funds, spec_denom()) {
        Option::None => r == Err::<ExecuteAck, ContractError>(ContractError::NoMatchingDeposit)
            && post == pre,
        Option::Some(amount) => if amount < pre.spec_fee() {
            r == Err::<ExecuteAck, ContractError>(ContractError::Insufficient) && post == pre
        } else {
            &&& r matches Ok(ExecuteAck::Staked { user }) && user@ == sender
            &&& post.stake_of(sender) == Some(amount)
            &&& forall|w: Seq<char>| w != sender ==> post.stake_of(w) == pre.stake_of(w)
        },
    }
}

/// Records a deposit for the caller. The first attached coin in the
/// designated denomination is looked up; its amount must reach the current
/// fee. On success the caller's stake record is overwritten — not added to —
/// with that amount.
pub fn execute_stake(ledger: &mut Ledger, sender: String, funds: &Vec<Coin>) -> (r: Result<
    ExecuteAck,
    ContractError,
>)
    ensures
        stake_post(*old(ledger), *final(ledger), sender@, funds@, r),
{
    let d: String = denom().to_owned();
    match find_coin(funds, &d) {
        None => Err(ContractError::NoMatchingDeposit),
        Some(amount) => {
            if amount < ledger.config.fee {
                Err(ContractError::Insufficient)
            } else {
                let user = sender.clone();
                ledger.save_stake(sender, amount);
                Ok(ExecuteAck::Staked { user })
            }
        },
    }
}

/// What `execute_withdraw` guarantees. The ledger itself is never changed: a
/// withdrawal only issues a transfer directive for the environment.
pub open spec fn withdraw_post(
    pre: Ledger,
    sender: Seq<char>,
    amount: u128,
    r: Result<ExecuteAck, ContractError>,
) -> bool {
    &&& !pre.is_owner(sender) ==> r == Err::<ExecuteAck, ContractError>(
        ContractError::Unauthorized,
    )
    &&& pre.is_owner(sender) ==> {
        &&& r matches Ok(ExecuteAck::Withdrawn { transfer })
        &&& transfer.to_address@ == sender
        &&& transfer.denom@ == spec_denom()
        &&& transfer.amount == amount
    }
}

/// Issues a directive to transfer `amount` of the designated currency to the
/// caller, if the caller is the current owner. No stake record is read or
/// decremented: this is a direct owner drawdown, and any balance check is
/// the external transfer effect's.
pub fn execute_withdraw(ledger: &mut Ledger, sender: String, amount: u128) -> (r: Result<
    ExecuteAck,
    ContractError,
>)
    ensures
        *final(ledger) == *old(ledger),
        withdraw_post(*old(ledger), sender@, amount, r),
{
    match check_owner(ledger, &sender) {
        Err(e) => Err(e),
        Ok(_) => Ok(
            ExecuteAck::Withdrawn {
                transfer: TransferDirective {
                    to_address: sender,
                    denom: denom().to_owned(),
                    amount,
                },
            },
        ),
    }
}

/// Dispatches a read-only query to its handler.
pub fn query(ledger: &Ledger, msg: QueryMsg) -> (r: Result<QueryAnswer, ContractError>)
    ensures
        match msg {
            QueryMsg::GetConfig {  } => {
                &&& r matches Ok(QueryAnswer::Config(c))
                &&& c.fee == ledger.spec_fee()
                &&& c.owner@ == ledger.spec_owner()
            },
            QueryMsg::GetStaking { address } => match ledger.stake_of(address@) {
                Option::Some(amount) => r == Ok::<QueryAnswer, ContractError>(
                    QueryAnswer::Staking(amount),
                ),
                Option::None => r == Err::<QueryAnswer, ContractError>(ContractError::NotFound),
            },
        },
{
    match msg {
        QueryMsg::GetConfig {  } => {
            let c = query_config(ledger);
            Ok(QueryAnswer::Config(c))
        },
        QueryMsg::GetStaking { address } => match query_staking_info(ledger, &address) {
            Ok(amount) => Ok(QueryAnswer::Staking(amount)),
            Err(e) => Err(e),
        },
    }
}

/// Returns the current fee and owner; the deployer is intentionally not
/// exposed.
pub fn query_config(ledger: &Ledger) -> (r: ConfigResponse)
    ensures
        r.fee == ledger.spec_fee(),
        r.owner@ == ledger.spec_owner(),
{
    ConfigResponse { fee: ledger.config.fee, owner: ledger.config.owner.clone() }
}

/// Returns the recorded stake of `address`, or `NotFound` if the account has
/// never successfully staked.
pub fn query_staking_info(ledger: &Ledger, address: &String) -> (r: Result<u128, ContractError>)
    ensures
        match ledger.stake_of(address@) {
            Option::Some(amount) => r == Ok::<u128, ContractError>(amount),
            Option::None => r == Err::<u128, ContractError>(ContractError::NotFound),
        },
{
    let n: usize = ledger.stakes.len();
    let mut idx: usize = 0;
    while idx < n
        invariant
            n == ledger.stakes@.len(),
            idx <= n,
            forall|j: int| 0 <= j < idx ==> (#[trigger] ledger.stakes@[j]).account@ != address@,
        decreases n - idx,
    {
        if ledger.stakes[idx].account == *address {
            proof {
                crate::state::lemma_lookup_found(ledger.stakes@, address@, idx as int);
            }
            return Ok(ledger.stakes[idx].amount);
        }
        idx += 1;
    }
    proof {
        crate::state::lemma_lookup_none(ledger.stakes@, address@);
    }
    Err(ContractError::NotFound)
}

/// Succeeds exactly when the persisted contract identity tag matches
/// `expected_name`; otherwise fails, reporting the persisted tag. No state
/// is read beyond the tag and none is changed: this version carries no data
/// migration logic.
pub fn migrate(ledger: &Ledger, expected_name: &String) -> (r: Result<(), ContractError>)
    ensures
        ledger.spec_name() == expected_name@ ==> r == Ok::<(), ContractError>(()),
        ledger.spec_name() != expected_name@ ==> (r matches Err(
            ContractError::CannotMigrate { previous_contract },
        ) && previous_contract@ == ledger.spec_name()),
{
    if ledger.contract_name == *expected_name {
        Ok(())
    } else {
        Err(ContractError::CannotMigrate { previous_contract: ledger.contract_name.clone() })
    }
}

/// After an owner update, the authorization guard accepts exactly the new
/// owner; in particular a previous owner distinct from the new one is no
/// longer authorized.
pub proof fn lemma_owner_handover(pre: Ledger, post: Ledger, new_owner: Seq<char>)
    requires
        post.spec_owner() == new_owner,
    ensures
        forall|who: Seq<char>| post.is_owner(who) <==> who == new_owner,
        pre.spec_owner() != new_owner ==> !post.is_owner(pre.spec_owner()),
{
}

} // verus!
