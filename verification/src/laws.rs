//! The registry's guarantees, stated and proved over the mathematical
//! model: conservation of the split, exclusivity of membership, history
//! continuity across removal and re-enrollment, and the authorization
//! rules. Each holds for every state the model admits, not just for the
//! states a particular run reaches.

use vstd::prelude::*;

use vstd::arithmetic::div_mod::{
    lemma_div_nonincreasing, lemma_div_pos_is_pos, lemma_fundamental_div_mod, lemma_mod_bound,
};

use crate::model::{
    no_beneficiaries, spec_deposit, spec_register, spec_remove, split_share, RegistryView,
};
use crate::msg::ContractError;

verus! {

/// No free lunch: splitting a bundle into `n >= 1` equal shares never
/// creates value. For every denomination, `n` times the per-recipient
/// share plus the dropped remainder `amount % n` is exactly the original
/// amount — so the shares together never exceed it, and the deficit
/// `amount % n` is handed to nobody.
pub proof fn lemma_no_free_lunch(bundle: Seq<(Seq<char>, u128)>, n: nat)
    requires
        n >= 1,
    ensures
        split_share(bundle, n).len() == bundle.len(),
        forall|i: int|
            0 <= i < bundle.len() ==> #[trigger] split_share(bundle, n)[i].0 == bundle[i].0,
        forall|i: int|
            0 <= i < bundle.len() ==> (n as int) * (#[trigger] split_share(bundle, n)[i].1 as int)
                + (bundle[i].1 as int) % (n as int) == bundle[i].1 as int,
        forall|i: int|
            0 <= i < bundle.len() ==> (n as int) * (#[trigger] split_share(bundle, n)[i].1 as int)
                <= bundle[i].1 as int,
{
    assert forall|i: int|
        0 <= i < bundle.len() implies ((n as int) * (#[trigger] split_share(bundle, n)[i].1 as int)
        + (bundle[i].1 as int) % (n as int) == bundle[i].1 as int && (n as int) * (split_share(
        bundle,
        n,
    )[i].1 as int) <= bundle[i].1 as int) by {
        let a = bundle[i].1 as int;
        let d = n as int;
        lemma_div_nonincreasing(a, d);
        lemma_div_pos_is_pos(a, d);
        assert(split_share(bundle, n)[i].1 as int == a / d);
        lemma_fundamental_div_mod(a, d);
        lemma_mod_bound(a, d);
    }
}

/// Membership exclusivity: after the owner enrolls `x` and then `actor`
/// — the owner or `x` itself — removes `x`, `x` is absent from the
/// active set and present in the removed set, with exactly the history
/// it had at removal time.
pub proof fn lemma_membership_exclusivity(
    v: RegistryView,
    actor: Seq<char>,
    x: Seq<char>,
    owner: Seq<char>,
    only_owner: bool,
)
    requires
        v.config == Some((owner, only_owner)),
        !v.active.dom().contains(x),
        actor == owner || actor == x,
    ensures
        spec_register(v, owner, x) is Ok,
        spec_remove(spec_register(v, owner, x)->Ok_0, actor, x) is Ok,
        ({
            let v1 = spec_register(v, owner, x)->Ok_0;
            let v2 = spec_remove(v1, actor, x)->Ok_0;
            &&& !v2.active.dom().contains(x)
            &&& v2.removed.dom().contains(x)
            &&& v2.removed[x] == v1.active[x]
        }),
{
}

/// History continuity: starting from a registry that has never seen `x`,
/// enroll `x`, deposit a bundle, remove `x`, enroll `x` again and
/// deposit a second bundle. `x`'s active history is then exactly its
/// share of the first deposit followed by its share of the second —
/// nothing lost across the removal, nothing duplicated by the
/// re-enrollment.
pub proof fn lemma_history_continuity(
    v: RegistryView,
    x: Seq<char>,
    owner: Seq<char>,
    only_owner: bool,
    donor1: Seq<char>,
    f1: Seq<(Seq<char>, u128)>,
    donor2: Seq<char>,
    f2: Seq<(Seq<char>, u128)>,
)
    requires
        v.config == Some((owner, only_owner)),
        !v.active.dom().contains(x),
        !v.removed.dom().contains(x),
    ensures
        ({
            let v1 = spec_register(v, owner, x)->Ok_0;
            let v2 = spec_deposit(v1, donor1, f1)->Ok_0;
            let v3 = spec_remove(v2, owner, x)->Ok_0;
            let v4 = spec_register(v3, owner, x)->Ok_0;
            let v5 = spec_deposit(v4, donor2, f2)->Ok_0;
            &&& spec_register(v, owner, x) is Ok
            &&& spec_deposit(v1, donor1, f1) is Ok
            &&& spec_remove(v2, owner, x) is Ok
            &&& spec_register(v3, owner, x) is Ok
            &&& spec_deposit(v4, donor2, f2) is Ok
            &&& v5.active[x] == split_share(f1, v1.active.dom().len()) + split_share(
                f2,
                v4.active.dom().len(),
            )
        }),
{
    let v1 = spec_register(v, owner, x)->Ok_0;
    assert(v1.active.dom().contains(x));
    assert(!no_beneficiaries(v1));
    let v2 = spec_deposit(v1, donor1, f1)->Ok_0;
    let s1 = split_share(f1, v1.active.dom().len());
    assert(v2.active.dom().contains(x));
    assert(v2.active[x] == Seq::<(Seq<char>, u128)>::empty() + s1);
    let v3 = spec_remove(v2, owner, x)->Ok_0;
    assert(v3.removed[x] == v2.active[x]);
    assert(!v3.active.dom().contains(x));
    let v4 = spec_register(v3, owner, x)->Ok_0;
    assert(v4.active[x] == v2.active[x]);
    assert(v4.active.dom().contains(x));
    assert(!no_beneficiaries(v4));
    let v5 = spec_deposit(v4, donor2, f2)->Ok_0;
    let s2 = split_share(f2, v4.active.dom().len());
    assert(v5.active[x] == (Seq::<(Seq<char>, u128)>::empty() + s1) + s2);
    assert((Seq::<(Seq<char>, u128)>::empty() + s1) + s2 =~= s1 + s2);
}

/// Authorization, denied: an actor that is neither the owner nor the
/// target can never enroll or remove the target, whatever the policy and
/// whatever the membership — both actions fail with `Unauthorized`.
pub proof fn lemma_authorization_denied(
    v: RegistryView,
    actor: Seq<char>,
    target: Seq<char>,
    owner: Seq<char>,
    only_owner: bool,
)
    requires
        v.config == Some((owner, only_owner)),
        actor != owner,
        actor != target,
    ensures
        spec_register(v, actor, target) == Err::<RegistryView, ContractError>(
            ContractError::Unauthorized,
        ),
        spec_remove(v, actor, target) == Err::<RegistryView, ContractError>(
            ContractError::Unauthorized,
        ),
{
}

/// Authorization, granted: an identity acting on itself succeeds when
/// the policy permits — enrolling itself where self-enrollment is
/// allowed and it is not already enrolled, and removing itself whenever
/// it is enrolled.
pub proof fn lemma_self_service(
    v: RegistryView,
    actor: Seq<char>,
    owner: Seq<char>,
    only_owner: bool,
)
    requires
        v.config == Some((owner, only_owner)),
    ensures
        !only_owner && !v.active.dom().contains(actor) ==> spec_register(v, actor, actor) is Ok,
        v.active.dom().contains(actor) ==> spec_remove(v, actor, actor) is Ok,
{
}

} // verus!
