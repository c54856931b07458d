//! The mathematical model of the registry: views of the executable data,
//! the ordering used for member listings, and the split arithmetic.

use vstd::prelude::*;

use cosmwasm_std::testing::MockStorage;

use crate::msg::{Coin, ContractError, Transfer};
use crate::state::{active_of, config_of, donators_of, removed_of, version_of};

verus! {

/// The view of a coin vector: a sequence of (denomination, amount) pairs.
pub open spec fn coins_view(v: Seq<Coin>) -> Seq<(Seq<char>, u128)> {
    v.map_values(|c: Coin| c@)
}

/// The view of a vector of identities.
pub open spec fn names_view(v: Seq<String>) -> Seq<Seq<char>> {
    v.map_values(|s: String| s@)
}

/// Strict lexicographic order on identities by character code. For UTF-8
/// encoded strings this coincides with byte order of the encodings, the
/// order in which the storage iterates its keys.
pub open spec fn lex_lt(a: Seq<char>, b: Seq<char>) -> bool
    decreases a.len(),
{
    if b.len() == 0 {
        false
    } else if a.len() == 0 {
        true
    } else if a[0] != b[0] {
        a[0] < b[0]
    } else {
        lex_lt(a.skip(1), b.skip(1))
    }
}

/// A listing of identities in strictly ascending lexicographic order.
pub open spec fn strictly_ascending(v: Seq<Seq<char>>) -> bool {
    forall|i: int, j: int| 0 <= i < j < v.len() ==> lex_lt(v[i], v[j])
}

/// `lex_lt` is irreflexive, so a strictly ascending listing never repeats
/// an identity.
pub proof fn lemma_lex_lt_irreflexive(a: Seq<char>)
    ensures
        !lex_lt(a, a),
    decreases a.len(),
{
    if a.len() > 0 {
        lemma_lex_lt_irreflexive(a.skip(1));
    }
}

/// A strictly ascending listing has no duplicates.
pub proof fn lemma_strictly_ascending_no_duplicates(v: Seq<Seq<char>>)
    requires
        strictly_ascending(v),
    ensures
        v.no_duplicates(),
{
    assert forall|i: int, j: int| 0 <= i < v.len() && 0 <= j < v.len() && i != j implies v[i]
        != v[j] by {
        if i < j {
            lemma_lex_lt_irreflexive(v[i]);
        } else {
            lemma_lex_lt_irreflexive(v[j]);
        }
    }
}

/// Whether `k` occurs among the first `n` entries of `keys`.
pub open spec fn in_prefix(keys: Seq<Seq<char>>, n: int, k: Seq<char>) -> bool {
    exists|j: int| 0 <= j < n && keys[j] == k
}

/// The equal share of one bundle when split into `n` parts: every
/// denomination keeps its place and its amount is divided by `n`, rounded
/// down. The remainder of each division is distributed to nobody.
pub open spec fn split_share(bundle: Seq<(Seq<char>, u128)>, n: nat) -> Seq<(Seq<char>, u128)>
    recommends
        n >= 1,
{
    bundle.map_values(|p: (Seq<char>, u128)| (p.0, (p.1 as int / n as int) as u128))
}

/// The whole registry, as mathematics: what the five storage regions hold.
pub struct RegistryView {
    pub config: Option<(Seq<char>, bool)>,
    pub version: Option<(Seq<char>, Seq<char>)>,
    pub active: Map<Seq<char>, Seq<(Seq<char>, u128)>>,
    pub removed: Map<Seq<char>, Seq<(Seq<char>, u128)>>,
    pub donators: Map<Seq<char>, Seq<(Seq<char>, u128)>>,
}

/// The registry a store holds.
pub open spec fn view_of(s: MockStorage) -> RegistryView {
    RegistryView {
        config: config_of(s),
        version: version_of(s),
        active: active_of(s),
        removed: removed_of(s),
        donators: donators_of(s),
    }
}

/// Whether `actor` may enroll `target`: self-enrollment when the policy
/// allows it, or the owner acting on any target.
pub open spec fn can_enroll(
    owner: Seq<char>,
    only_owner: bool,
    actor: Seq<char>,
    target: Seq<char>,
) -> bool {
    (actor == target && !only_owner) || actor == owner
}

/// Whether `actor` may remove `target`: oneself, or the owner anyone.
pub open spec fn can_remove(owner: Seq<char>, actor: Seq<char>, target: Seq<char>) -> bool {
    actor == target || actor == owner
}

/// Instantiation: records the owner and the policy, and stamps the
/// contract name and version; everything else is left alone.
pub open spec fn spec_instantiate(
    v: RegistryView,
    sender: Seq<char>,
    only_owner: bool,
    name: Seq<char>,
    version: Seq<char>,
) -> RegistryView {
    RegistryView { config: Some((sender, only_owner)), version: Some((name, version)), ..v }
}

/// Enrollment. Requires an instantiated registry and authorization; the
/// target must not already be active. The new entry is seeded with the
/// history the target had when it was last removed, if any; the removed
/// record itself stays for audit.
pub open spec fn spec_register(v: RegistryView, actor: Seq<char>, target: Seq<char>) -> Result<
    RegistryView,
    ContractError,
> {
    match v.config {
        None => Err(ContractError::StateNotFound),
        Some(c) => if !can_enroll(c.0, c.1, actor, target) {
            Err(ContractError::Unauthorized)
        } else if v.active.dom().contains(target) {
            Err(ContractError::AlreadyABeneficiary)
        } else {
            let seed = if v.removed.dom().contains(target) {
                v.removed[target]
            } else {
                Seq::empty()
            };
            Ok(RegistryView { active: v.active.insert(target, seed), ..v })
        },
    }
}

/// Removal. Requires an instantiated registry and authorization; the
/// target must be active. Its entry moves to the removed record,
/// overwriting any earlier removed record for the same identity.
pub open spec fn spec_remove(v: RegistryView, actor: Seq<char>, target: Seq<char>) -> Result<
    RegistryView,
    ContractError,
> {
    match v.config {
        None => Err(ContractError::StateNotFound),
        Some(c) => if !can_remove(c.0, actor, target) {
            Err(ContractError::Unauthorized)
        } else if !v.active.dom().contains(target) {
            Err(ContractError::NotABeneficiary)
        } else {
            Ok(
                RegistryView {
                    active: v.active.remove(target),
                    removed: v.removed.insert(target, v.active[target]),
                    ..v
                },
            )
        },
    }
}

/// Whether no beneficiary is enrolled.
pub open spec fn no_beneficiaries(v: RegistryView) -> bool {
    v.active.dom() =~= Set::empty()
}

/// A deposit. With no beneficiary enrolled it is rejected and nothing
/// changes. Otherwise the bundle is appended to the donator's history and
/// every active beneficiary's history is extended by the equal integer
/// share of the bundle; the removed set and the configuration stay as
/// they are.
pub open spec fn spec_deposit(
    v: RegistryView,
    donator: Seq<char>,
    funds: Seq<(Seq<char>, u128)>,
) -> Result<RegistryView, ContractError> {
    if no_beneficiaries(v) {
        Err(ContractError::NoBeneficiaries)
    } else {
        let n = v.active.dom().len();
        let prior = if v.donators.dom().contains(donator) {
            v.donators[donator]
        } else {
            Seq::empty()
        };
        Ok(
            RegistryView {
                donators: v.donators.insert(donator, prior + funds),
                active: Map::new(
                    |k: Seq<char>| v.active.dom().contains(k),
                    |k: Seq<char>| v.active[k] + split_share(funds, n),
                ),
                ..v
            },
        )
    }
}

/// What a successful distribution hands back: one transfer per active
/// beneficiary of the pre-state, in ascending identity order, each
/// carrying the equal integer share of the deposited bundle.
pub open spec fn transfers_ok(
    pre_active: Map<Seq<char>, Seq<(Seq<char>, u128)>>,
    funds: Seq<(Seq<char>, u128)>,
    ts: Seq<Transfer>,
) -> bool {
    let n = pre_active.dom().len();
    &&& ts.len() == n
    &&& strictly_ascending(ts.map_values(|t: Transfer| t.to_address@))
    &&& forall|i: int| 0 <= i < ts.len() ==> pre_active.dom().contains(#[trigger] ts[i].to_address@)
    &&& forall|k: Seq<char>|
        #[trigger] pre_active.dom().contains(k) ==> exists|i: int|
            0 <= i < ts.len() && ts[i].to_address@ == k
    &&& forall|i: int|
        0 <= i < ts.len() ==> coins_view(#[trigger] ts[i].amount@) == split_share(funds, n)
}

/// How the state after `register_beneficiary` and its result relate to
/// the state before.
pub open spec fn register_post(
    pre: RegistryView,
    post: RegistryView,
    actor: Seq<char>,
    target: Seq<char>,
    r: Result<(), ContractError>,
) -> bool {
    match spec_register(pre, actor, target) {
        Ok(v2) => r is Ok && post == v2,
        Err(e) => r == Err::<(), ContractError>(e) && post == pre,
    }
}

/// How the state after `remove_beneficiary` and its result relate to the
/// state before.
pub open spec fn remove_post(
    pre: RegistryView,
    post: RegistryView,
    actor: Seq<char>,
    target: Seq<char>,
    r: Result<(), ContractError>,
) -> bool {
    match spec_remove(pre, actor, target) {
        Ok(v2) => r is Ok && post == v2,
        Err(e) => r == Err::<(), ContractError>(e) && post == pre,
    }
}

/// How the state after `add_to_pot`, its result and the emitted transfer
/// instructions relate to the state before.
pub open spec fn deposit_post(
    pre: RegistryView,
    post: RegistryView,
    donator: Seq<char>,
    funds: Seq<(Seq<char>, u128)>,
    r: Result<Vec<Transfer>, ContractError>,
) -> bool {
    match spec_deposit(pre, donator, funds) {
        Ok(v2) => r matches Ok(ts) && post == v2 && transfers_ok(pre.active, funds, ts@),
        Err(e) => r == Err::<Vec<Transfer>, ContractError>(e) && post == pre,
    }
}

} // verus!
