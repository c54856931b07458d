//! The registry's operations: enrollment, removal, deposits with their
//! equal-split distribution, and the read-only queries.

use vstd::prelude::*;

use cosmwasm_std::testing::MockStorage;

use crate::model::{
    coins_view, deposit_post, in_prefix, lemma_strictly_ascending_no_duplicates, names_view,
    no_beneficiaries, register_post, remove_post, spec_deposit, spec_instantiate, spec_register,
    spec_remove, split_share, strictly_ascending, transfers_ok, view_of,
};
use crate::msg::{
    BeneficiaryListResponse, BeneficiaryResponse, Coin, ContractError, DonatorListResponse,
    ExecuteMsg, InstantiateMsg, MigrateMsg, PotDonatorResponse, QueryAnswer, QueryMsg, Transfer,
};
use crate::state::{
    active_of, ben_keys, ben_load, ben_remove, ben_save, config_of, don_keys, don_load, don_save,
    donators_of, removed_of, rem_load, rem_keys, rem_save, semver_lt, semver_precedes, state_load,
    state_save, version_load, version_of, version_save, well_formed, State,
};

verus! {

/// One equal share of `coins` when split into `parts` parts: the same
/// denominations, each amount divided by `parts`, rounded down.
fn share_of(coins: &Vec<Coin>, parts: usize) -> (v: Vec<Coin>)
    requires
        parts >= 1,
    ensures
        coins_view(v@) == split_share(coins_view(coins@), parts as nat),
{
    let mut part: Vec<Coin> = Vec::new();
    let mut j: usize = 0;
    while j < coins.len()
        invariant
            parts >= 1,
            j <= coins@.len(),
            part@.len() == j,
            forall|k: int|
                0 <= k < j ==> #[trigger] part@[k]@ == (
                    coins@[k]@.0,
                    (coins@[k]@.1 as int / parts as int) as u128,
                ),
        decreases coins@.len() - j,
    {
        let amount = coins[j].amount / (parts as u128);
        part.push(Coin { denom: coins[j].denom.clone(), amount });
        j += 1;
    }
    proof {
        assert(coins_view(part@) =~= split_share(coins_view(coins@), parts as nat));
    }
    part
}

/// The equal partition of a bundle into `parts` shares: `parts` identical
/// bundles, each denomination's amount divided by `parts` with the
/// remainder dropped. A zero-way split never happens in a deposit, since
/// deposits reject an empty beneficiary set first; it is surfaced as an
/// internal error rather than a panic.
pub fn split_coins_into_parts(coins: &Vec<Coin>, parts: usize) -> (r: Result<
    Vec<Vec<Coin>>,
    ContractError,
>)
    ensures
        parts == 0 ==> r == Err::<Vec<Vec<Coin>>, ContractError>(ContractError::InternalInvariant),
        parts >= 1 ==> (r matches Ok(v) && v@.len() == parts && (forall|i: int|
            0 <= i < parts ==> coins_view(#[trigger] v@[i]@) == split_share(
                coins_view(coins@),
                parts as nat,
            ))),
{
    if parts == 0 {
        return Err(ContractError::InternalInvariant);
    }
    let mut split_coins: Vec<Vec<Coin>> = Vec::new();
    let mut i: usize = 0;
    while i < parts
        invariant
            parts >= 1,
            i <= parts,
            split_coins@.len() == i,
            forall|j: int|
                0 <= j < i ==> coins_view(#[trigger] split_coins@[j]@) == split_share(
                    coins_view(coins@),
                    parts as nat,
                ),
        decreases parts - i,
    {
        let repartition = share_of(coins, parts);
        split_coins.push(repartition);
        i += 1;
    }
    Ok(split_coins)
}

/// Appends a copy of every coin of `src` to `dst`.
fn append_coins(dst: &mut Vec<Coin>, src: &Vec<Coin>)
    ensures
        coins_view(final(dst)@) == coins_view(old(dst)@) + coins_view(src@),
{
    let mut j: usize = 0;
    while j < src.len()
        invariant
            j <= src@.len(),
            coins_view(dst@) =~= coins_view(old(dst)@) + coins_view(src@.take(j as int)),
        decreases src@.len() - j,
    {
        let c = src[j].duplicate();
        let ghost prev = dst@;
        dst.push(c);
        proof {
            assert(coins_view(prev.push(c)) =~= coins_view(prev).push(c@));
            assert(coins_view(src@.take(j + 1)) =~= coins_view(src@.take(j as int)).push(
                src@[j as int]@,
            ));
            assert(coins_view(dst@) =~= coins_view(old(dst)@) + coins_view(src@.take(j + 1)));
        }
        j += 1;
    }
    proof {
        assert(src@.take(src@.len() as int) =~= src@);
        assert(coins_view(dst@) =~= coins_view(old(dst)@) + coins_view(src@));
    }
}

/// Creates the registry: the sender becomes the owner, the message fixes
/// the self-enrollment policy, and the contract name and version are
/// stamped for later migrations.
pub fn instantiate(s: &mut MockStorage, sender: String, msg: InstantiateMsg) -> (r: Result<
    (),
    ContractError,
>)
    requires
        well_formed(*old(s)),
    ensures
        well_formed(*final(s)),
        r is Ok,
        view_of(*final(s)) == spec_instantiate(
            view_of(*old(s)),
            sender@,
            msg.only_owner_can_register_beneficiary,
            "crates.io:cosmos-fanout"@,
            "0.1.0"@,
        ),
{
    version_save(s, "crates.io:cosmos-fanout", "0.1.0");
    state_save(s, &sender, msg.only_owner_can_register_beneficiary);
    Ok(())
}

/// Updates the stamped version to this contract's own, but only when the
/// stored one precedes it in semver order. Fails when nothing was
/// stamped, or when the stored version string is not valid semver.
pub fn migrate(s: &mut MockStorage, _msg: MigrateMsg) -> (r: Result<(), ContractError>)
    requires
        well_formed(*old(s)),
    ensures
        well_formed(*final(s)),
        config_of(*final(s)) == config_of(*old(s)),
        active_of(*final(s)) == active_of(*old(s)),
        removed_of(*final(s)) == removed_of(*old(s)),
        donators_of(*final(s)) == donators_of(*old(s)),
        match version_of(*old(s)) {
            None => r == Err::<(), ContractError>(ContractError::VersionNotFound) && version_of(
                *final(s),
            ) == version_of(*old(s)),
            Some(v) => match r {
                Ok(_) => version_of(*final(s)) == (if semver_precedes(v.1, "0.1.0"@) {
                    Some(("crates.io:cosmos-fanout"@, "0.1.0"@))
                } else {
                    version_of(*old(s))
                }),
                Err(e) => e == ContractError::InvalidVersion && version_of(*final(s))
                    == version_of(*old(s)),
            },
        },
{
    let stored = match version_load(s) {
        Some(p) => p,
        None => {
            return Err(ContractError::VersionNotFound);
        },
    };
    match semver_lt(stored.1.as_str(), "0.1.0") {
        None => Err(ContractError::InvalidVersion),
        Some(true) => {
            version_save(s, "crates.io:cosmos-fanout", "0.1.0");
            Ok(())
        },
        Some(false) => Ok(()),
    }
}

/// Enrolls `beneficiary`, acting as `sender`: the owner may enroll
/// anyone, and an identity may enroll itself where the policy allows.
/// The new entry starts from the history the identity had when it was
/// last removed, so that no receipt is lost across removal cycles.
pub fn register_beneficiary(s: &mut MockStorage, sender: String, beneficiary: String) -> (r: Result<
    (),
    ContractError,
>)
    requires
        well_formed(*old(s)),
    ensures
        well_formed(*final(s)),
        register_post(view_of(*old(s)), view_of(*final(s)), sender@, beneficiary@, r),
{
    let st = match state_load(s) {
        Some(st) => st,
        None => {
            return Err(ContractError::StateNotFound);
        },
    };
    let self_service = sender == beneficiary && !st.only_owner_can_register_beneficiary;
    if !(self_service || sender == st.owner) {
        return Err(ContractError::Unauthorized);
    }
    if ben_load(s, &beneficiary).is_some() {
        return Err(ContractError::AlreadyABeneficiary);
    }
    // Restore earlier receipts, keeping track of every donation the
    // beneficiary ever received; the removed record stays for audit.
    let old_donations: Vec<Coin> = match rem_load(s, &beneficiary) {
        Some(v) => v,
        None => Vec::new(),
    };
    proof {
        assert(coins_view(Seq::<Coin>::empty()) =~= Seq::<(Seq<char>, u128)>::empty());
    }
    ben_save(s, &beneficiary, &old_donations);
    Ok(())
}

/// Removes `beneficiary`, acting as `sender`: an identity may remove
/// itself, and the owner may remove anyone. The entry's history is
/// copied into the removed record (overwriting an earlier one), then the
/// active entry is deleted.
pub fn remove_beneficiary(s: &mut MockStorage, sender: String, beneficiary: String) -> (r: Result<
    (),
    ContractError,
>)
    requires
        well_formed(*old(s)),
    ensures
        well_formed(*final(s)),
        remove_post(view_of(*old(s)), view_of(*final(s)), sender@, beneficiary@, r),
{
    let st = match state_load(s) {
        Some(st) => st,
        None => {
            return Err(ContractError::StateNotFound);
        },
    };
    if !(sender == beneficiary || sender == st.owner) {
        return Err(ContractError::Unauthorized);
    }
    match ben_load(s, &beneficiary) {
        None => Err(ContractError::NotABeneficiary),
        Some(history) => {
            rem_save(s, &beneficiary, &history);
            ben_remove(s, &beneficiary);
            Ok(())
        },
    }
}

/// An owner-only action that changes nothing; it merely checks that the
/// sender is the owner of an instantiated registry.
pub fn admin_action(s: &mut MockStorage, sender: String) -> (r: Result<(), ContractError>)
    requires
        well_formed(*old(s)),
    ensures
        well_formed(*final(s)),
        view_of(*final(s)) == view_of(*old(s)),
        match config_of(*old(s)) {
            None => r == Err::<(), ContractError>(ContractError::StateNotFound),
            Some(c) => (if sender@ == c.0 {
                r is Ok
            } else {
                r == Err::<(), ContractError>(ContractError::Unauthorized)
            }),
        },
{
    match state_load(s) {
        None => Err(ContractError::StateNotFound),
        Some(st) => {
            if sender == st.owner {
                Ok(())
            } else {
                Err(ContractError::Unauthorized)
            }
        },
    }
}

/// A copy of a coin vector.
fn copy_coins(src: &Vec<Coin>) -> (r: Vec<Coin>)
    ensures
        coins_view(r@) == coins_view(src@),
{
    let mut copied: Vec<Coin> = Vec::new();
    append_coins(&mut copied, src);
    proof {
        assert(coins_view(Seq::<Coin>::empty()) + coins_view(src@) =~= coins_view(src@));
    }
    copied
}

/// A deposit: the bundle is recorded against the donator, split into as
/// many equal shares as there are active beneficiaries, and every
/// beneficiary's history is extended by its share; one transfer
/// instruction per beneficiary is handed back for the host to carry out,
/// in ascending identity order. With no beneficiary enrolled the deposit
/// is rejected before anything is written.
pub fn add_to_pot(s: &mut MockStorage, sender: String, funds: Vec<Coin>) -> (r: Result<
    Vec<Transfer>,
    ContractError,
>)
    requires
        well_formed(*old(s)),
    ensures
        well_formed(*final(s)),
        deposit_post(view_of(*old(s)), view_of(*final(s)), sender@, coins_view(funds@), r),
{
    let ghost pre = view_of(*old(s));
    let members = ben_keys(s);
    let ghost keys_v = names_view(members@);
    let amount_of_beneficiaries = members.len();
    if amount_of_beneficiaries < 1 {
        proof {
            assert(keys_v.to_set() =~= Set::<Seq<char>>::empty());
            assert(no_beneficiaries(pre));
        }
        return Err(ContractError::NoBeneficiaries);
    }
    proof {
        vstd::seq_lib::seq_to_set_is_finite::<Seq<char>>(keys_v);
        lemma_strictly_ascending_no_duplicates(keys_v);
        keys_v.unique_seq_to_set();
        assert(pre.active.dom().len() == amount_of_beneficiaries);
        assert(keys_v.contains(keys_v[0]));
        assert(!no_beneficiaries(pre));
    }

    // The deposit is recorded against the donator before distribution.
    let mut record: Vec<Coin> = match don_load(s, &sender) {
        Some(v) => v,
        None => Vec::new(),
    };
    proof {
        assert(coins_view(Seq::<Coin>::empty()) =~= Seq::<(Seq<char>, u128)>::empty());
    }
    append_coins(&mut record, &funds);
    don_save(s, &sender, &record);
    let ghost donators_after = donators_of(*s);

    let funds_for_each = match split_coins_into_parts(&funds, amount_of_beneficiaries) {
        Ok(v) => v,
        Err(e) => {
            return Err(e);
        },
    };
    let ghost share_v = split_share(coins_view(funds@), amount_of_beneficiaries as nat);

    // Distribute: one share and one transfer instruction per beneficiary,
    // in the ascending order of the member listing.
    let mut transfers: Vec<Transfer> = Vec::new();
    let mut i: usize = 0;
    while i < amount_of_beneficiaries
        invariant
            well_formed(*s),
            i <= amount_of_beneficiaries,
            amount_of_beneficiaries >= 1,
            amount_of_beneficiaries == members@.len(),
            keys_v == names_view(members@),
            keys_v.no_duplicates(),
            strictly_ascending(keys_v),
            keys_v.to_set() == pre.active.dom(),
            pre.active.dom().len() == amount_of_beneficiaries,
            funds_for_each@.len() == amount_of_beneficiaries,
            forall|j: int|
                0 <= j < amount_of_beneficiaries ==> coins_view(#[trigger] funds_for_each@[j]@)
                    == share_v,
            share_v == split_share(coins_view(funds@), amount_of_beneficiaries as nat),
            config_of(*s) == pre.config,
            version_of(*s) == pre.version,
            removed_of(*s) == pre.removed,
            donators_of(*s) == donators_after,
            active_of(*s).dom() == pre.active.dom(),
            forall|k: Seq<char>| #[trigger]
                pre.active.dom().contains(k) ==> active_of(*s)[k] == (if in_prefix(
                    keys_v,
                    i as int,
                    k,
                ) {
                    pre.active[k] + share_v
                } else {
                    pre.active[k]
                }),
            transfers@.len() == i,
            forall|j: int|
                0 <= j < i ==> (#[trigger] transfers@[j].to_address@ == keys_v[j] && coins_view(
                    transfers@[j].amount@,
                ) == share_v),
        decreases amount_of_beneficiaries - i,
    {
        let member = &members[i];
        proof {
            assert(keys_v.contains(keys_v[i as int]));
            assert(pre.active.dom().contains(member@));
            assert(!in_prefix(keys_v, i as int, keys_v[i as int])) by {
                assert forall|j: int| 0 <= j < i implies keys_v[j] != keys_v[i as int] by {
                    assert(keys_v.no_duplicates());
                }
            }
        }
        let mut history = match ben_load(s, member) {
            Some(v) => v,
            None => {
                return Err(ContractError::InternalInvariant);
            },
        };
        append_coins(&mut history, &funds_for_each[i]);
        ben_save(s, member, &history);
        transfers.push(
            Transfer { to_address: member.clone(), amount: copy_coins(&funds_for_each[i]) },
        );
        proof {
            assert(active_of(*s).dom() =~= pre.active.dom());
            assert forall|k: Seq<char>| #[trigger] pre.active.dom().contains(k) implies active_of(
                *s,
            )[k] == (if in_prefix(keys_v, i + 1, k) {
                pre.active[k] + share_v
            } else {
                pre.active[k]
            }) by {
                if k == keys_v[i as int] {
                    assert(in_prefix(keys_v, i + 1, k));
                } else {
                    assert(in_prefix(keys_v, i + 1, k) == in_prefix(keys_v, i as int, k));
                }
            }
        }
        i += 1;
    }

    proof {
        let n = pre.active.dom().len();
        let spec_active = Map::new(
            |k: Seq<char>| pre.active.dom().contains(k),
            |k: Seq<char>| pre.active[k] + split_share(coins_view(funds@), n),
        );
        assert forall|k: Seq<char>| #[trigger]
            pre.active.dom().contains(k) implies in_prefix(
            keys_v,
            amount_of_beneficiaries as int,
            k,
        ) by {
            assert(keys_v.to_set().contains(k));
            assert(keys_v.contains(k));
        }
        assert(active_of(*s) =~= spec_active);
        let tsv = transfers@;
        assert(tsv.map_values(|t: Transfer| t.to_address@) =~= keys_v);
        assert(strictly_ascending(tsv.map_values(|t: Transfer| t.to_address@)));
        assert forall|ii: int| 0 <= ii < tsv.len() implies pre.active.dom().contains(
            #[trigger] tsv[ii].to_address@,
        ) by {
            assert(tsv[ii].to_address@ == keys_v[ii]);
            assert(keys_v.contains(keys_v[ii]));
        }
        assert forall|k: Seq<char>| #[trigger]
            pre.active.dom().contains(k) implies exists|j: int|
            0 <= j < tsv.len() && tsv[j].to_address@ == k by {
            assert(keys_v.contains(k));
            let j = choose|j: int| 0 <= j < keys_v.len() && keys_v[j] == k;
            assert(tsv[j].to_address@ == k);
        }
        assert forall|ii: int| 0 <= ii < tsv.len() implies coins_view(#[trigger] tsv[ii].amount@)
            == split_share(coins_view(funds@), pre.active.dom().len()) by {
            assert(tsv[ii].to_address@ == keys_v[ii] && coins_view(tsv[ii].amount@) == share_v);
        }
        assert(transfers_ok(pre.active, coins_view(funds@), transfers@));
    }
    Ok(transfers)
}

/// Routes an action to its handler: enrollment and removal, by the
/// sender itself or by the owner on its behalf, and deposits.
pub fn execute(s: &mut MockStorage, sender: String, funds: Vec<Coin>, msg: ExecuteMsg) -> (r:
    Result<Vec<Transfer>, ContractError>)
    requires
        well_formed(*old(s)),
    ensures
        well_formed(*final(s)),
        match msg {
            ExecuteMsg::RegisterBeneficiaryAsOwner { beneficiary } => (match spec_register(
                view_of(*old(s)),
                sender@,
                beneficiary@,
            ) {
                Ok(v2) => r matches Ok(ts) && ts@.len() == 0 && view_of(*final(s)) == v2,
                Err(e) => r == Err::<Vec<Transfer>, ContractError>(e) && view_of(*final(s))
                    == view_of(*old(s)),
            }),
            ExecuteMsg::RegisterBeneficiary {  } => (match spec_register(
                view_of(*old(s)),
                sender@,
                sender@,
            ) {
                Ok(v2) => r matches Ok(ts) && ts@.len() == 0 && view_of(*final(s)) == v2,
                Err(e) => r == Err::<Vec<Transfer>, ContractError>(e) && view_of(*final(s))
                    == view_of(*old(s)),
            }),
            ExecuteMsg::RemoveBeneficiary {  } => (match spec_remove(
                view_of(*old(s)),
                sender@,
                sender@,
            ) {
                Ok(v2) => r matches Ok(ts) && ts@.len() == 0 && view_of(*final(s)) == v2,
                Err(e) => r == Err::<Vec<Transfer>, ContractError>(e) && view_of(*final(s))
                    == view_of(*old(s)),
            }),
            ExecuteMsg::RemoveBeneficiaryAsOwner { beneficiary } => (match spec_remove(
                view_of(*old(s)),
                sender@,
                beneficiary@,
            ) {
                Ok(v2) => r matches Ok(ts) && ts@.len() == 0 && view_of(*final(s)) == v2,
                Err(e) => r == Err::<Vec<Transfer>, ContractError>(e) && view_of(*final(s))
                    == view_of(*old(s)),
            }),
            ExecuteMsg::AddToPot {  } => deposit_post(
                view_of(*old(s)),
                view_of(*final(s)),
                sender@,
                coins_view(funds@),
                r,
            ),
        },
{
    match msg {
        ExecuteMsg::RegisterBeneficiaryAsOwner { beneficiary } => {
            match register_beneficiary(s, sender, beneficiary) {
                Ok(_) => Ok(Vec::new()),
                Err(e) => Err(e),
            }
        },
        ExecuteMsg::RegisterBeneficiary {  } => {
            let target = sender.clone();
            match register_beneficiary(s, sender, target) {
                Ok(_) => Ok(Vec::new()),
                Err(e) => Err(e),
            }
        },
        ExecuteMsg::RemoveBeneficiary {  } => {
            let target = sender.clone();
            match remove_beneficiary(s, sender, target) {
                Ok(_) => Ok(Vec::new()),
                Err(e) => Err(e),
            }
        },
        ExecuteMsg::RemoveBeneficiaryAsOwner { beneficiary } => {
            match remove_beneficiary(s, sender, beneficiary) {
                Ok(_) => Ok(Vec::new()),
                Err(e) => Err(e),
            }
        },
        ExecuteMsg::AddToPot {  } => add_to_pot(s, sender, funds),
    }
}

/// Routes a query to its handler and wraps the plain answer.
pub fn query(s: &MockStorage, msg: QueryMsg) -> (r: Result<QueryAnswer, ContractError>)
    requires
        well_formed(*s),
    ensures
        match msg {
            QueryMsg::GetState {  } => (match config_of(*s) {
                Some(c) => r matches Ok(a) && a matches QueryAnswer::State(st) && st.owner@ == c.0
                    && st.only_owner_can_register_beneficiary == c.1,
                None => r == Err::<QueryAnswer, ContractError>(ContractError::StateNotFound),
            }),
            QueryMsg::GetDonator { donator } => (if donators_of(*s).dom().contains(donator@) {
                r matches Ok(a) && a matches QueryAnswer::Donator(resp) && resp.donator@
                    == donator@ && coins_view(resp.donations@) == donators_of(*s)[donator@]
            } else {
                r == Err::<QueryAnswer, ContractError>(ContractError::NotADonator)
            }),
            QueryMsg::GetBeneficiary { beneficiary } => (if active_of(*s).dom().contains(
                beneficiary@,
            ) {
                r matches Ok(a) && a matches QueryAnswer::Beneficiary(resp) && resp.beneficiary@
                    == beneficiary@ && coins_view(resp.received_donations@) == active_of(
                    *s,
                )[beneficiary@]
            } else {
                r == Err::<QueryAnswer, ContractError>(ContractError::NotABeneficiary)
            }),
            QueryMsg::GetRemovedBeneficiary { beneficiary } => (if removed_of(*s).dom().contains(
                beneficiary@,
            ) {
                r matches Ok(a) && a matches QueryAnswer::Beneficiary(resp) && resp.beneficiary@
                    == beneficiary@ && coins_view(resp.received_donations@) == removed_of(
                    *s,
                )[beneficiary@]
            } else {
                r == Err::<QueryAnswer, ContractError>(ContractError::NotABeneficiary)
            }),
            QueryMsg::GetAllDonators {  } => r matches Ok(a) && a matches QueryAnswer::Donators(
                resp,
            ) && names_view(resp.donators@).to_set() == donators_of(*s).dom()
                && strictly_ascending(names_view(resp.donators@)),
            QueryMsg::GetAllBeneficiaries {  } => r matches Ok(a) && a
                matches QueryAnswer::Beneficiaries(resp) && names_view(
                resp.beneficiaries@,
            ).to_set() == active_of(*s).dom() && strictly_ascending(
                names_view(resp.beneficiaries@),
            ),
            QueryMsg::GetAllRemovedBeneficiaries {  } => r matches Ok(a) && a
                matches QueryAnswer::Beneficiaries(resp) && names_view(
                resp.beneficiaries@,
            ).to_set() == removed_of(*s).dom() && strictly_ascending(
                names_view(resp.beneficiaries@),
            ),
        },
{
    match msg {
        QueryMsg::GetState {  } => {
            match query_state(s) {
                Ok(st) => Ok(QueryAnswer::State(st)),
                Err(e) => Err(e),
            }
        },
        QueryMsg::GetDonator { donator } => {
            match query_donator(s, donator) {
                Ok(resp) => Ok(QueryAnswer::Donator(resp)),
                Err(e) => Err(e),
            }
        },
        QueryMsg::GetBeneficiary { beneficiary } => {
            match query_beneficiary(s, beneficiary, false) {
                Ok(resp) => Ok(QueryAnswer::Beneficiary(resp)),
                Err(e) => Err(e),
            }
        },
        QueryMsg::GetRemovedBeneficiary { beneficiary } => {
            match query_beneficiary(s, beneficiary, true) {
                Ok(resp) => Ok(QueryAnswer::Beneficiary(resp)),
                Err(e) => Err(e),
            }
        },
        QueryMsg::GetAllDonators {  } => {
            match query_all_donators(s) {
                Ok(resp) => Ok(QueryAnswer::Donators(resp)),
                Err(e) => Err(e),
            }
        },
        QueryMsg::GetAllBeneficiaries {  } => {
            match query_all_beneficiaries(s, false) {
                Ok(resp) => Ok(QueryAnswer::Beneficiaries(resp)),
                Err(e) => Err(e),
            }
        },
        QueryMsg::GetAllRemovedBeneficiaries {  } => {
            match query_all_beneficiaries(s, true) {
                Ok(resp) => Ok(QueryAnswer::Beneficiaries(resp)),
                Err(e) => Err(e),
            }
        },
    }
}

/// The stamped contract name and version, if any.
pub fn query_version(s: &MockStorage) -> (r: Option<(String, String)>)
    requires
        well_formed(*s),
    ensures
        match version_of(*s) {
            Some(v) => (r matches Some(p) && p.0@ == v.0 && p.1@ == v.1),
            None => r is None,
        },
{
    version_load(s)
}

/// The registry configuration, failing when nothing was instantiated.
pub fn query_state(s: &MockStorage) -> (r: Result<State, ContractError>)
    requires
        well_formed(*s),
    ensures
        match config_of(*s) {
            Some(c) => (r matches Ok(st) && st.owner@ == c.0
                && st.only_owner_can_register_beneficiary == c.1),
            None => r == Err::<State, ContractError>(ContractError::StateNotFound),
        },
{
    match state_load(s) {
        Some(st) => Ok(st),
        None => Err(ContractError::StateNotFound),
    }
}

/// A donator's full deposit history; identities that never donated are
/// reported as such rather than given an empty history.
pub fn query_donator(s: &MockStorage, donator: String) -> (r: Result<
    PotDonatorResponse,
    ContractError,
>)
    requires
        well_formed(*s),
    ensures
        donators_of(*s).dom().contains(donator@) ==> (r matches Ok(resp) && resp.donator@
            == donator@ && coins_view(resp.donations@) == donators_of(*s)[donator@]),
        !donators_of(*s).dom().contains(donator@) ==> r == Err::<
            PotDonatorResponse,
            ContractError,
        >(ContractError::NotADonator),
{
    match don_load(s, &donator) {
        Some(donations) => Ok(PotDonatorResponse { donator, donations }),
        None => Err(ContractError::NotADonator),
    }
}

/// A beneficiary's receipt history: from the active set, or, with
/// `from_removed`, the history it had when it was removed.
pub fn query_beneficiary(s: &MockStorage, beneficiary: String, from_removed: bool) -> (r: Result<
    BeneficiaryResponse,
    ContractError,
>)
    requires
        well_formed(*s),
    ensures
        ({
            let m = if from_removed {
                removed_of(*s)
            } else {
                active_of(*s)
            };
            &&& m.dom().contains(beneficiary@) ==> (r matches Ok(resp) && resp.beneficiary@
                == beneficiary@ && coins_view(resp.received_donations@) == m[beneficiary@])
            &&& !m.dom().contains(beneficiary@) ==> r == Err::<
                BeneficiaryResponse,
                ContractError,
            >(ContractError::NotABeneficiary)
        }),
{
    let loaded = if from_removed {
        rem_load(s, &beneficiary)
    } else {
        ben_load(s, &beneficiary)
    };
    match loaded {
        Some(received_donations) => Ok(BeneficiaryResponse { beneficiary, received_donations }),
        None => Err(ContractError::NotABeneficiary),
    }
}

/// Every identity that ever donated, in ascending order.
pub fn query_all_donators(s: &MockStorage) -> (r: Result<DonatorListResponse, ContractError>)
    requires
        well_formed(*s),
    ensures
        r matches Ok(resp) && names_view(resp.donators@).to_set() == donators_of(*s).dom()
            && strictly_ascending(names_view(resp.donators@)),
{
    Ok(DonatorListResponse { donators: don_keys(s) })
}

/// Every active beneficiary — or, with `from_removed`, every removed
/// one — in ascending order.
pub fn query_all_beneficiaries(s: &MockStorage, from_removed: bool) -> (r: Result<
    BeneficiaryListResponse,
    ContractError,
>)
    requires
        well_formed(*s),
    ensures
        ({
            let m = if from_removed {
                removed_of(*s)
            } else {
                active_of(*s)
            };
            r matches Ok(resp) && names_view(resp.beneficiaries@).to_set() == m.dom()
                && strictly_ascending(names_view(resp.beneficiaries@))
        }),
{
    let beneficiaries = if from_removed {
        rem_keys(s)
    } else {
        ben_keys(s)
    };
    Ok(BeneficiaryListResponse { beneficiaries })
}

} // verus!
