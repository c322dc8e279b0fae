//! The registry of staking contracts: a table, one row for each service.

use crate::amount::Wei;
use vstd::prelude::*;

verus! {

/// One registered staking contract.
#[derive(Debug)]
pub struct ServiceContract {
    pub service_id: String,
    pub service_name: String,
    /// The contract's address, as text.
    pub contract_address: String,
    /// The symbol of the token that is staked.
    pub stake_token: String,
    /// The protocol's floor for a stake.
    pub min_stake_wei: Wei,
}

/// The row that index `i` holds the first service called `id`.
pub open spec fn is_first_match(registry: Seq<ServiceContract>, id: Seq<char>, i: int) -> bool {
    &&& 0 <= i < registry.len()
    &&& registry[i].service_id@ == id
    &&& forall|j: int| 0 <= j < i ==> (#[trigger] registry[j]).service_id@ != id
}

/// Whether some row is called `id`.
pub open spec fn has_service(registry: Seq<ServiceContract>, id: Seq<char>) -> bool {
    exists|i: int| 0 <= i < registry.len() && (#[trigger] registry[i]).service_id@ == id
}

/// The built-in registry: the compute provider's staking contract.
pub fn default_registry() -> (r: Vec<ServiceContract>)
    ensures
        r@.len() == 1,
        r@[0].service_id@ == "compute"@,
        r@[0].service_name@ == "Compute Provider"@,
        r@[0].contract_address@ == "0x0000000000000000000000000000000000000001"@,
        r@[0].stake_token@ == "ETH"@,
        r@[0].min_stake_wei@ == 100_000_000_000_000_000nat,
{
    let mut r: Vec<ServiceContract> = Vec::new();
    r.push(
        ServiceContract {
            service_id: "compute".to_owned(),
            service_name: "Compute Provider".to_owned(),
            contract_address: "0x0000000000000000000000000000000000000001".to_owned(),
            stake_token: "ETH".to_owned(),
            min_stake_wei: Wei::from_u64(100_000_000_000_000_000),
        },
    );
    r
}

/// Finds the first row called `id`.
pub fn find_service(registry: &Vec<ServiceContract>, id: &String) -> (r: Option<usize>)
    ensures
        r is Some <==> has_service(registry@, id@),
        r matches Some(i) ==> is_first_match(registry@, id@, i as int),
{
    let mut i: usize = 0;
    while i < registry.len()
        invariant
            i <= registry.len(),
            forall|j: int| 0 <= j < i ==> (#[trigger] registry@[j]).service_id@ != id@,
        decreases registry.len() - i,
    {
        if registry[i].service_id == *id {
            return Some(i);
        }
        i += 1;
    }
    None
}

}
