//! The persisted registry state and the trusted boundary to the key-value
//! store that holds it.
//!
//! The store is a `cosmwasm_std::testing::MockStorage`; four disjoint,
//! length-prefix namespaced regions of it are used through
//! `cw_storage_plus` (and `cw2` for the version record):
//!
//! - item `"state"`: the owner identity and the self-enrollment policy;
//! - map `"beneficiaries"`: each active beneficiary's receipt history;
//! - map `"removed_beneficiaries"`: the receipt history each removed
//!   beneficiary had at the moment of its removal;
//! - map `"donators"`: each donator's deposit history;
//! - item `"contract_info"` (written by `cw2`): the stored contract
//!   name and version.
//!
//! To Verus the store is opaque; the uninterpreted functions below name
//! what each region holds, and every access goes through a trusted
//! wrapper whose contract states, over those names, what the wrapped
//! `cw_storage_plus` call does according to its source: a write to one
//! region never touches another, since distinct namespaces are encoded
//! into disjoint key sets.

use vstd::prelude::*;

use cosmwasm_std::testing::MockStorage;

use crate::model::{coins_view, names_view, strictly_ascending};
use crate::msg::Coin;

verus! {

#[verifier::external_type_specification]
#[verifier::external_body]
pub struct ExMockStorage(MockStorage);

/// The registry configuration, created once at instantiation: the process
/// owner and whether identities may enroll themselves.
#[derive(Clone, Debug, PartialEq)]
pub struct State {
    pub owner: String,
    pub only_owner_can_register_beneficiary: bool,
}

/// The contents of a region that holds no entry.
pub open spec fn empty_region() -> Map<Seq<char>, Seq<(Seq<char>, u128)>> {
    Map::empty()
}

/// Whether the store only holds what the wrappers below wrote: every
/// entry of the four regions deserializes back to a value of the type
/// that was stored there. A fresh store is well-formed and every wrapper
/// preserves well-formedness; on a well-formed store no read can fail.
pub uninterp spec fn well_formed(s: MockStorage) -> bool;

/// What the item `"state"` holds: the owner identity and the
/// only-owner-can-register policy flag, if instantiated.
pub uninterp spec fn config_of(s: MockStorage) -> Option<(Seq<char>, bool)>;

/// What the `cw2` item `"contract_info"` holds: the stored contract name
/// and version, if set.
pub uninterp spec fn version_of(s: MockStorage) -> Option<(Seq<char>, Seq<char>)>;

/// What the map `"beneficiaries"` holds: each active beneficiary's
/// receipt history.
pub uninterp spec fn active_of(s: MockStorage) -> Map<Seq<char>, Seq<(Seq<char>, u128)>>;

/// What the map `"removed_beneficiaries"` holds: the receipt history each
/// removed beneficiary had when it was removed.
pub uninterp spec fn removed_of(s: MockStorage) -> Map<Seq<char>, Seq<(Seq<char>, u128)>>;

/// What the map `"donators"` holds: each donator's deposit history.
pub uninterp spec fn donators_of(s: MockStorage) -> Map<Seq<char>, Seq<(Seq<char>, u128)>>;

/// Relies on `MockStorage::default`: a fresh store holds no entry, so
/// every region is empty.
#[verifier::external_body]
fn storage_fresh() -> (s: MockStorage)
    ensures
        well_formed(s),
        config_of(s) is None,
        version_of(s) is None,
        active_of(s) == empty_region(),
        removed_of(s) == empty_region(),
        donators_of(s) == empty_region(),
{
    MockStorage::default()
}

/// An empty store, the state before instantiation.
pub fn new_storage() -> (s: MockStorage)
    ensures
        well_formed(s),
        config_of(s) is None,
        version_of(s) is None,
        active_of(s) == empty_region(),
        removed_of(s) == empty_region(),
        donators_of(s) == empty_region(),
{
    storage_fresh()
}

/// Relies on `cw_storage_plus::Item::save` under the name `"state"`: it
/// serializes exactly this value into that key and touches no other key.
/// Serialization of an address string and a bool cannot fail.
#[verifier::external_body]
pub(crate) fn state_save(s: &mut MockStorage, owner: &String, only_owner: bool)
    requires
        well_formed(*old(s)),
    ensures
        well_formed(*final(s)),
        config_of(*final(s)) == Some((owner@, only_owner)),
        version_of(*final(s)) == version_of(*old(s)),
        active_of(*final(s)) == active_of(*old(s)),
        removed_of(*final(s)) == removed_of(*old(s)),
        donators_of(*final(s)) == donators_of(*old(s)),
{
    cw_storage_plus::Item::<(cosmwasm_std::Addr, bool)>::new("state")
        .save(s, &(cosmwasm_std::Addr::unchecked(owner.as_str()), only_owner))
        .unwrap();
}

/// Relies on `cw_storage_plus::Item::may_load` under the name `"state"`:
/// it returns the stored value, or `None` when nothing was stored.
#[verifier::external_body]
pub(crate) fn state_load(s: &MockStorage) -> (r: Option<State>)
    requires
        well_formed(*s),
    ensures
        match config_of(*s) {
            Some(c) => (r matches Some(st) && st.owner@ == c.0
                && st.only_owner_can_register_beneficiary == c.1),
            None => r is None,
        },
{
    match cw_storage_plus::Item::<(cosmwasm_std::Addr, bool)>::new("state").may_load(s).unwrap() {
        Some((a, b)) => Some(
            State { owner: a.into_string(), only_owner_can_register_beneficiary: b },
        ),
        None => None,
    }
}

/// Relies on `cw2::CONTRACT.may_load` (the item `"contract_info"`): it
/// returns the stored contract name and version, or `None`.
#[verifier::external_body]
pub(crate) fn version_load(s: &MockStorage) -> (r: Option<(String, String)>)
    requires
        well_formed(*s),
    ensures
        match version_of(*s) {
            Some(v) => (r matches Some(p) && p.0@ == v.0 && p.1@ == v.1),
            None => r is None,
        },
{
    match cw2::CONTRACT.may_load(s).unwrap() {
        Some(cv) => Some((cv.contract, cv.version)),
        None => None,
    }
}

/// Relies on `cw2::set_contract_version`: it stores exactly this name and
/// version under the item `"contract_info"` and touches no other key.
/// Serialization of two strings cannot fail.
#[verifier::external_body]
pub(crate) fn version_save(s: &mut MockStorage, name: &str, version: &str)
    requires
        well_formed(*old(s)),
    ensures
        well_formed(*final(s)),
        version_of(*final(s)) == Some((name@, version@)),
        config_of(*final(s)) == config_of(*old(s)),
        active_of(*final(s)) == active_of(*old(s)),
        removed_of(*final(s)) == removed_of(*old(s)),
        donators_of(*final(s)) == donators_of(*old(s)),
{
    cw2::set_contract_version(s, name, version).unwrap();
}

/// Relies on `semver::Version::parse` and the `Ord` of `semver::Version`:
/// whether `a` precedes `b` in Semantic Versioning order, `None` when
/// either string is not a valid version. The order depends on the two
/// strings alone.
#[verifier::external_body]
pub(crate) fn semver_lt(a: &str, b: &str) -> (r: Option<bool>)
    ensures
        r matches Some(x) ==> x == semver_precedes(a@, b@),
{
    let va: semver::Version = match a.parse() {
        Ok(v) => v,
        Err(_) => return None,
    };
    let vb: semver::Version = match b.parse() {
        Ok(v) => v,
        Err(_) => return None,
    };
    Some(va < vb)
}

/// What `semver::Version::parse` followed by the `<` of `semver::Version`
/// decides for two version strings that both parse.
pub uninterp spec fn semver_precedes(a: Seq<char>, b: Seq<char>) -> bool;

/// Relies on `cw_storage_plus::Map::may_load` on map `"beneficiaries"`:
/// it returns the value stored under this key, or `None` when the key is
/// absent.
#[verifier::external_body]
pub(crate) fn ben_load(s: &MockStorage, key: &String) -> (r: Option<Vec<Coin>>)
    requires
        well_formed(*s),
    ensures
        match r {
            Some(v) => active_of(*s).dom().contains(key@) && coins_view(v@) == active_of(
                *s,
            )[key@],
            None => !active_of(*s).dom().contains(key@),
        },
{
    cw_storage_plus::Map::<cosmwasm_std::Addr, Vec<cosmwasm_std::Coin>>::new("beneficiaries")
        .may_load(s, cosmwasm_std::Addr::unchecked(key.as_str()))
        .unwrap()
        .map(|v| v.into_iter().map(|c| Coin {
            denom: c.denom,
            amount: cosmwasm_std::Uint128::try_from(c.amount).unwrap().u128(),
        }).collect())
}

/// Relies on `cw_storage_plus::Map::save` on map `"beneficiaries"`: it
/// stores exactly this value under this key and touches no other key.
/// Serialization of a coin vector cannot fail.
#[verifier::external_body]
pub(crate) fn ben_save(s: &mut MockStorage, key: &String, value: &Vec<Coin>)
    requires
        well_formed(*old(s)),
    ensures
        well_formed(*final(s)),
        active_of(*final(s)) == active_of(*old(s)).insert(key@, coins_view(value@)),
        config_of(*final(s)) == config_of(*old(s)),
        version_of(*final(s)) == version_of(*old(s)),
        removed_of(*final(s)) == removed_of(*old(s)),
        donators_of(*final(s)) == donators_of(*old(s)),
{
    cw_storage_plus::Map::<cosmwasm_std::Addr, Vec<cosmwasm_std::Coin>>::new("beneficiaries")
        .save(s, cosmwasm_std::Addr::unchecked(key.as_str()), &value.iter().map(|c| cosmwasm_std::Coin {
            denom: c.denom.clone(),
            amount: cosmwasm_std::Uint256::from(c.amount),
        }).collect::<Vec<cosmwasm_std::Coin>>())
        .unwrap();
}

/// Relies on `cw_storage_plus::Map::remove` on map `"beneficiaries"`: it
/// deletes this key and touches no other key.
#[verifier::external_body]
pub(crate) fn ben_remove(s: &mut MockStorage, key: &String)
    requires
        well_formed(*old(s)),
    ensures
        well_formed(*final(s)),
        active_of(*final(s)) == active_of(*old(s)).remove(key@),
        config_of(*final(s)) == config_of(*old(s)),
        version_of(*final(s)) == version_of(*old(s)),
        removed_of(*final(s)) == removed_of(*old(s)),
        donators_of(*final(s)) == donators_of(*old(s)),
{
    cw_storage_plus::Map::<cosmwasm_std::Addr, Vec<cosmwasm_std::Coin>>::new("beneficiaries")
        .remove(s, cosmwasm_std::Addr::unchecked(key.as_str()));
}

/// Relies on `cw_storage_plus::Map::keys` with ascending order on map
/// `"beneficiaries"`: exactly the stored keys, in ascending byte order of
/// their UTF-8 encodings, which is `lex_lt` order on the strings.
#[verifier::external_body]
pub(crate) fn ben_keys(s: &MockStorage) -> (r: Vec<String>)
    requires
        well_formed(*s),
    ensures
        names_view(r@).to_set() == active_of(*s).dom(),
        strictly_ascending(names_view(r@)),
{
    cw_storage_plus::Map::<cosmwasm_std::Addr, Vec<cosmwasm_std::Coin>>::new("beneficiaries")
        .keys(s, None, None, cosmwasm_std::Order::Ascending)
        .map(|k| k.unwrap().into_string())
        .collect()
}

/// Relies on `cw_storage_plus::Map::may_load` on map
/// `"removed_beneficiaries"`, as `ben_load` does on `"beneficiaries"`.
#[verifier::external_body]
pub(crate) fn rem_load(s: &MockStorage, key: &String) -> (r: Option<Vec<Coin>>)
    requires
        well_formed(*s),
    ensures
        match r {
            Some(v) => removed_of(*s).dom().contains(key@) && coins_view(v@) == removed_of(
                *s,
            )[key@],
            None => !removed_of(*s).dom().contains(key@),
        },
{
    cw_storage_plus::Map::<cosmwasm_std::Addr, Vec<cosmwasm_std::Coin>>::new(
        "removed_beneficiaries",
    ).may_load(s, cosmwasm_std::Addr::unchecked(key.as_str())).unwrap().map(|v| v.into_iter().map(
        |c| Coin {
            denom: c.denom,
            amount: cosmwasm_std::Uint128::try_from(c.amount).unwrap().u128(),
        },
    ).collect())
}

/// Relies on `cw_storage_plus::Map::save` on map
/// `"removed_beneficiaries"`, as `ben_save` does on `"beneficiaries"`.
#[verifier::external_body]
pub(crate) fn rem_save(s: &mut MockStorage, key: &String, value: &Vec<Coin>)
    requires
        well_formed(*old(s)),
    ensures
        well_formed(*final(s)),
        removed_of(*final(s)) == removed_of(*old(s)).insert(key@, coins_view(value@)),
        config_of(*final(s)) == config_of(*old(s)),
        version_of(*final(s)) == version_of(*old(s)),
        active_of(*final(s)) == active_of(*old(s)),
        donators_of(*final(s)) == donators_of(*old(s)),
{
    cw_storage_plus::Map::<cosmwasm_std::Addr, Vec<cosmwasm_std::Coin>>::new(
        "removed_beneficiaries",
    ).save(s, cosmwasm_std::Addr::unchecked(key.as_str()), &value.iter().map(|c| cosmwasm_std::Coin {
            denom: c.denom.clone(),
            amount: cosmwasm_std::Uint256::from(c.amount),
        }).collect::<Vec<cosmwasm_std::Coin>>()).unwrap();
}

/// Relies on `cw_storage_plus::Map::keys` with ascending order on map
/// `"removed_beneficiaries"`, as `ben_keys` does on `"beneficiaries"`.
#[verifier::external_body]
pub(crate) fn rem_keys(s: &MockStorage) -> (r: Vec<String>)
    requires
        well_formed(*s),
    ensures
        names_view(r@).to_set() == removed_of(*s).dom(),
        strictly_ascending(names_view(r@)),
{
    cw_storage_plus::Map::<cosmwasm_std::Addr, Vec<cosmwasm_std::Coin>>::new(
        "removed_beneficiaries",
    ).keys(s, None, None, cosmwasm_std::Order::Ascending).map(|k| k.unwrap().into_string()).collect()
}

/// Relies on `cw_storage_plus::Map::may_load` on map `"donators"`, as
/// `ben_load` does on `"beneficiaries"`.
#[verifier::external_body]
pub(crate) fn don_load(s: &MockStorage, key: &String) -> (r: Option<Vec<Coin>>)
    requires
        well_formed(*s),
    ensures
        match r {
            Some(v) => donators_of(*s).dom().contains(key@) && coins_view(v@) == donators_of(
                *s,
            )[key@],
            None => !donators_of(*s).dom().contains(key@),
        },
{
    cw_storage_plus::Map::<cosmwasm_std::Addr, Vec<cosmwasm_std::Coin>>::new("donators")
        .may_load(s, cosmwasm_std::Addr::unchecked(key.as_str()))
        .unwrap()
        .map(|v| v.into_iter().map(|c| Coin {
            denom: c.denom,
            amount: cosmwasm_std::Uint128::try_from(c.amount).unwrap().u128(),
        }).collect())
}

/// Relies on `cw_storage_plus::Map::save` on map `"donators"`, as
/// `ben_save` does on `"beneficiaries"`.
#[verifier::external_body]
pub(crate) fn don_save(s: &mut MockStorage, key: &String, value: &Vec<Coin>)
    requires
        well_formed(*old(s)),
    ensures
        well_formed(*final(s)),
        donators_of(*final(s)) == donators_of(*old(s)).insert(key@, coins_view(value@)),
        config_of(*final(s)) == config_of(*old(s)),
        version_of(*final(s)) == version_of(*old(s)),
        active_of(*final(s)) == active_of(*old(s)),
        removed_of(*final(s)) == removed_of(*old(s)),
{
    cw_storage_plus::Map::<cosmwasm_std::Addr, Vec<cosmwasm_std::Coin>>::new("donators")
        .save(s, cosmwasm_std::Addr::unchecked(key.as_str()), &value.iter().map(|c| cosmwasm_std::Coin {
            denom: c.denom.clone(),
            amount: cosmwasm_std::Uint256::from(c.amount),
        }).collect::<Vec<cosmwasm_std::Coin>>())
        .unwrap();
}

/// Relies on `cw_storage_plus::Map::keys` with ascending order on map
/// `"donators"`, as `ben_keys` does on `"beneficiaries"`.
#[verifier::external_body]
pub(crate) fn don_keys(s: &MockStorage) -> (r: Vec<String>)
    requires
        well_formed(*s),
    ensures
        names_view(r@).to_set() == donators_of(*s).dom(),
        strictly_ascending(names_view(r@)),
{
    cw_storage_plus::Map::<cosmwasm_std::Addr, Vec<cosmwasm_std::Coin>>::new("donators")
        .keys(s, None, None, cosmwasm_std::Order::Ascending)
        .map(|k| k.unwrap().into_string())
        .collect()
}

} // verus!
