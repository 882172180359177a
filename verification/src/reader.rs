use vstd::prelude::*;
use crate::harness::AptosBB;

verus! {

/// The dual-scheme existence decision: a resource exists when either
/// key-derivation scheme produced a key whose lookup found a value. `None`
/// stands for a scheme whose key could not be derived at all.
pub open spec fn spec_resource_exists(
    primary_found: Option<bool>,
    fallback_found: Option<bool>,
) -> bool {
    primary_found == Some(true) || fallback_found == Some(true)
}

/// The balance an optional fungible-store lookup resolves to: a missing store
/// reads as 0, indistinguishable from a present store holding 0.
pub open spec fn spec_resolved_balance(fungible_store_balance: Option<u64>) -> u64 {
    match fungible_store_balance {
        Some(b) => b,
        None => 0u64,
    }
}

impl AptosBB {
    /// Decides existence from the two key-derivation schemes' lookup results:
    /// the resource-store key and the access-path-derived key. The two-branch
    /// check is a deliberate compatibility shim against representation drift;
    /// either scheme finding a value reports the resource as present.
    pub fn exists_resource(&self, primary_found: Option<bool>, fallback_found: Option<bool>) -> (r:
        bool)
        ensures
            r == spec_resource_exists(primary_found, fallback_found),
    {
        match primary_found {
            Some(true) => true,
            _ => match fallback_found {
                Some(true) => true,
                _ => false,
            },
        }
    }

    /// Resolves a balance from the primary fungible-asset store lookup. An
    /// absent store is reported as a balance of 0: the harness does not
    /// distinguish an account without a store from one whose store is empty.
    pub fn read_aptos_balance(&self, fungible_store_balance: Option<u64>) -> (r: u64)
        ensures
            r == spec_resolved_balance(fungible_store_balance),
    {
        match fungible_store_balance {
            Some(b) => b,
            None => 0,
        }
    }

    /// The resolved balance as an optional value: present exactly when it is
    /// positive, so an absent store and a zero balance both read as `None`.
    pub fn get_apt_balance(&self, fungible_store_balance: Option<u64>) -> (r: Option<u64>)
        ensures
            spec_resolved_balance(fungible_store_balance) > 0 ==> r == Some(
                spec_resolved_balance(fungible_store_balance),
            ),
            spec_resolved_balance(fungible_store_balance) == 0 ==> r == None::<u64>,
    {
        let balance = self.read_aptos_balance(fungible_store_balance);
        if balance > 0 {
            Some(balance)
        } else {
            None
        }
    }

    /// Whether the account holds any positive balance under the
    /// fungible-store scheme.
    pub fn has_apt_balance(&self, fungible_store_balance: Option<u64>) -> (r: bool)
        ensures
            r == (spec_resolved_balance(fungible_store_balance) > 0),
    {
        self.read_aptos_balance(fungible_store_balance) > 0
    }
}

/// Law: the readers decide from the handed-in lookup results alone, so with
/// no writes between two calls — equal lookup results — repeated existence
/// checks and balance reads return the same value.
pub proof fn lemma_reads_idempotent(
    primary_found: Option<bool>,
    fallback_found: Option<bool>,
    store_balance: Option<u64>,
    exists1: bool,
    exists2: bool,
    balance1: u64,
    balance2: u64,
)
    requires
        exists1 == spec_resource_exists(primary_found, fallback_found),
        exists2 == spec_resource_exists(primary_found, fallback_found),
        balance1 == spec_resolved_balance(store_balance),
        balance2 == spec_resolved_balance(store_balance),
    ensures
        exists1 == exists2,
        balance1 == balance2,
{
}

} // verus!
