//! Deposits to the relayer, and what happens to the part above its caps.
use vstd::prelude::*;
use crate::errors::RelayerError;
use crate::plan::{PromisePlan, ReceiptAction, ReceiptActionV, ReceiptV, receipt};
use crate::state::{Context, Relayer};

verus! {

/// A plan that sends `amount` to `receiver`.
pub open spec fn transfer_plan(receiver: Seq<char>, amount: u128) -> Seq<ReceiptV> {
    seq![ReceiptV { receiver_id: receiver, actions: seq![ReceiptActionV::Transfer { amount }] }]
}

/// The plan that sends `amount` to `receiver`.
fn transfer_to(receiver: String, amount: u128) -> (r: PromisePlan)
    ensures
        r@ == transfer_plan(receiver@, amount),
{
    let mut actions: Vec<ReceiptAction> = Vec::new();
    actions.push(ReceiptAction::Transfer { amount });
    assert(actions@.map_values(|a: ReceiptAction| a@) =~= seq![ReceiptActionV::Transfer { amount }]);
    let mut plan = PromisePlan::new();
    plan.enqueue(receipt(receiver, actions));
    assert(plan@ =~= transfer_plan(receiver@, amount));
    plan
}

/// Takes a deposit: the attached deposit is added to the gas pool. The
/// balance counted is the account balance plus the attached deposit; whatever
/// of it lies above the maximum balance is sent on to the offload recipient.
pub fn deposit(relayer: &mut Relayer, ctx: &Context) -> (r: Result<PromisePlan, RelayerError>)
    requires
        ctx.account_balance + ctx.attached_deposit <= u128::MAX,
        old(relayer).gas_pool + ctx.attached_deposit <= u128::MAX,
    ensures
        *final(relayer) == (Relayer {
            gas_pool: (old(relayer).gas_pool + ctx.attached_deposit) as u128,
            ..*old(relayer)
        }),
        ({
            let balance = ctx.account_balance + ctx.attached_deposit;
            r matches Ok(p) && p@ == if balance > old(relayer).max_balance {
                transfer_plan(
                    old(relayer).offload_recipient@,
                    (balance - old(relayer).max_balance) as u128,
                )
            } else {
                Seq::empty()
            }
        }),
{
    relayer.gas_pool = relayer.gas_pool + ctx.attached_deposit;
    let balance = ctx.account_balance + ctx.attached_deposit;
    if balance > relayer.max_balance {
        let excess = balance - relayer.max_balance;
        return Ok(transfer_to(relayer.offload_recipient.clone(), excess));
    }
    Ok(PromisePlan::new())
}

/// Adds the attached deposit to the gas pool, refused while the relayer is
/// paused. The pool is capped at its maximum; the excess is sent on to the
/// offload recipient.
pub fn deposit_gas_pool(relayer: &mut Relayer, ctx: &Context) -> (r: Result<
    PromisePlan,
    RelayerError,
>)
    requires
        !old(relayer).paused ==> old(relayer).gas_pool + ctx.attached_deposit <= u128::MAX,
    ensures
        old(relayer).paused ==> r == Err::<PromisePlan, RelayerError>(RelayerError::ContractPaused)
            && *final(relayer) == *old(relayer),
        !old(relayer).paused ==> {
            let pool = old(relayer).gas_pool + ctx.attached_deposit;
            let cap = old(relayer).max_gas_pool;
            &&& r matches Ok(p) && p@ == if pool > cap {
                transfer_plan(old(relayer).offload_recipient@, (pool - cap) as u128)
            } else {
                Seq::empty()
            }
            &&& final(relayer).gas_pool == if pool > cap {
                cap
            } else {
                pool as u128
            }
            &&& *final(relayer) == (Relayer { gas_pool: final(relayer).gas_pool, ..*old(relayer) })
        },
{
    if relayer.paused {
        return Err(RelayerError::ContractPaused);
    }
    relayer.gas_pool = relayer.gas_pool + ctx.attached_deposit;
    if relayer.gas_pool > relayer.max_gas_pool {
        let excess = relayer.gas_pool - relayer.max_gas_pool;
        relayer.gas_pool = relayer.max_gas_pool;
        return Ok(transfer_to(relayer.offload_recipient.clone(), excess));
    }
    Ok(PromisePlan::new())
}

} // verus!
