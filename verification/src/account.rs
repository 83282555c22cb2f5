//! Balance arithmetic on accounts and the final projection of the store.

use vstd::prelude::*;

use crate::decimal::{Amount, trunc4, TRUNC_UNIT, lemma_trunc4_magnitude};
use crate::models::Account;
use crate::store::{AccountsMap, accounts_of, accounts_get};

verus! {

/// Truncate an amount to four fractional digits, toward zero.
pub fn truncate_to_4(amount: Amount) -> (r: Amount)
    ensures
        r@ == trunc4(amount@),
{
    let u = amount.units;
    if u >= 0 {
        Amount { units: u - u % TRUNC_UNIT }
    } else if u == i128::MIN {
        // -i128::MIN does not fit; its truncation is computed once here
        proof {
            assert((-(i128::MIN as int)) % (TRUNC_UNIT as int) == 5728);
        }
        Amount { units: i128::MIN + 5728 }
    } else {
        let n = -u;
        Amount { units: -(n - n % TRUNC_UNIT) }
    }
}

/// The account after adding the three deltas and truncating every balance
/// back onto the `10^-4` grid. Client id and lock flag are untouched.
pub open spec fn mutated(a: Account, da: int, dh: int, dt: int) -> Account {
    Account {
        available: Amount { units: trunc4(a.available@ + da) as i128 },
        held: Amount { units: trunc4(a.held@ + dh) as i128 },
        total: Amount { units: trunc4(a.total@ + dt) as i128 },
        ..a
    }
}

/// The three pre-truncation sums stay representable.
pub open spec fn mutation_fits(a: Account, da: int, dh: int, dt: int) -> bool {
    &&& i128::MIN <= a.available@ + da <= i128::MAX
    &&& i128::MIN <= a.held@ + dh <= i128::MAX
    &&& i128::MIN <= a.total@ + dt <= i128::MAX
}

/// Add a delta to each balance field, truncating each result to four
/// fractional digits. Nothing besides the three balance fields changes.
pub fn mutate_account_balance(
    account: &mut Account,
    available_delta: Amount,
    held_delta: Amount,
    total_delta: Amount,
)
    requires
        mutation_fits(*old(account), available_delta@, held_delta@, total_delta@),
    ensures
        *final(account) == mutated(*old(account), available_delta@, held_delta@, total_delta@),
{
    proof {
        lemma_trunc4_magnitude(old(account).available@ + available_delta@);
        lemma_trunc4_magnitude(old(account).held@ + held_delta@);
        lemma_trunc4_magnitude(old(account).total@ + total_delta@);
    }
    account.available = truncate_to_4(Amount { units: account.available.units + available_delta.units });
    account.held = truncate_to_4(Amount { units: account.held.units + held_delta.units });
    account.total = truncate_to_4(Amount { units: account.total.units + total_delta.units });
}

/// Every account sits under its own client id.
pub open spec fn wf_accounts(m: Map<u16, Account>) -> bool {
    forall|c: u16| #[trigger] m.contains_key(c) ==> m[c].client == c
}

/// Client ids strictly increase along the sequence.
pub open spec fn sorted_by_client(s: Seq<Account>) -> bool {
    forall|i: int, j: int| 0 <= i < j < s.len() ==> s[i].client < s[j].client
}

/// Every listed account is exactly the stored one.
pub open spec fn listed_from(s: Seq<Account>, m: Map<u16, Account>) -> bool {
    forall|i: int|
        0 <= i < s.len() ==> m.contains_key(#[trigger] s[i].client) && s[i] == m[s[i].client]
}

/// Every stored account is listed.
pub open spec fn lists_all(s: Seq<Account>, m: Map<u16, Account>) -> bool {
    forall|c: u16|
        #[trigger] m.contains_key(c) ==> exists|i: int| 0 <= i < s.len() && #[trigger] s[i].client == c
}

/// The final snapshot of every account, ordered by ascending client id.
/// Walks the whole (small) client-id space, which yields the order for free.
pub fn output_accounts(accounts: &AccountsMap) -> (r: Vec<Account>)
    requires
        wf_accounts(accounts_of(*accounts)),
    ensures
        sorted_by_client(r@),
        listed_from(r@, accounts_of(*accounts)),
        lists_all(r@, accounts_of(*accounts)),
{
    let mut r: Vec<Account> = Vec::new();
    let mut c: u32 = 0;
    while c < 65536
        invariant
            c <= 65536,
            wf_accounts(accounts_of(*accounts)),
            forall|i: int| 0 <= i < r@.len() ==> #[trigger] r@[i].client < c,
            sorted_by_client(r@),
            listed_from(r@, accounts_of(*accounts)),
            forall|k: u16|
                k < c && #[trigger] accounts_of(*accounts).contains_key(k) ==> exists|i: int|
                    0 <= i < r@.len() && #[trigger] r@[i].client == k,
        decreases 65536 - c,
    {
        let key = c as u16;
        match accounts_get(accounts, key) {
            Some(a) => {
                let ghost r0 = r@;
                r.push(a);
                proof {
                    assert(a.client == key);
                    assert forall|k: u16|
                        k < c + 1 && #[trigger] accounts_of(*accounts).contains_key(k)
                            implies exists|i: int| 0 <= i < r@.len() && #[trigger] r@[i].client == k by {
                        if k == key {
                            assert(r@[r0.len() as int].client == k);
                        } else {
                            let i = choose|i: int| 0 <= i < r0.len() && #[trigger] r0[i].client == k;
                            assert(r@[i].client == k);
                        }
                    }
                }
            },
            None => {},
        }
        c = c + 1;
    }
    r
}

} // verus!
