use vstd::prelude::*;

verus! {

/// A single (denomination, amount) pair of a value bundle. Amounts are
/// unsigned 128-bit integers; the registry never adds amounts together,
/// so no arithmetic on them can overflow.
#[derive(Clone, Debug, PartialEq)]
pub struct Coin {
    pub denom: String,
    pub amount: u128,
}

impl View for Coin {
    type V = (Seq<char>, u128);

    open spec fn view(&self) -> (Seq<char>, u128) {
        (self.denom@, self.amount)
    }
}

impl Coin {
    /// An explicit copy with a contract, since nothing is known about a
    /// derived clone of a struct holding a `String`.
    pub fn duplicate(&self) -> (r: Coin)
        ensures
            r@ == self@,
    {
        Coin { denom: self.denom.clone(), amount: self.amount }
    }
}

/// One outbound transfer instruction produced by a distribution: the host
/// is expected to move `amount` to `to_address`.
#[derive(Clone, Debug, PartialEq)]
pub struct Transfer {
    pub to_address: String,
    pub amount: Vec<Coin>,
}

#[derive(Clone, Debug, PartialEq)]
pub struct InstantiateMsg {
    pub only_owner_can_register_beneficiary: bool,
}

#[derive(Clone, Debug, PartialEq)]
pub struct MigrateMsg {}

#[derive(Clone, Debug, PartialEq)]
pub enum ExecuteMsg {
    RegisterBeneficiaryAsOwner { beneficiary: String },
    RegisterBeneficiary {},
    RemoveBeneficiary {},
    RemoveBeneficiaryAsOwner { beneficiary: String },
    AddToPot {},
}

#[derive(Clone, Debug, PartialEq)]
pub enum QueryMsg {
    GetState {},
    GetDonator { donator: String },
    GetBeneficiary { beneficiary: String },
    GetRemovedBeneficiary { beneficiary: String },
    GetAllDonators {},
    GetAllBeneficiaries {},
    GetAllRemovedBeneficiaries {},
}

#[derive(Clone, Debug, PartialEq)]
pub struct PotDonatorResponse {
    pub donator: String,
    pub donations: Vec<Coin>,
}

#[derive(Clone, Debug, PartialEq)]
pub struct BeneficiaryResponse {
    pub beneficiary: String,
    pub received_donations: Vec<Coin>,
}

#[derive(Clone, Debug, PartialEq)]
pub struct DonatorListResponse {
    pub donators: Vec<String>,
}

#[derive(Clone, Debug, PartialEq)]
pub struct BeneficiaryListResponse {
    pub beneficiaries: Vec<String>,
}

/// The answer to a `QueryMsg`, as plain data; encoding it for the wire is
/// the host's business.
#[derive(Clone, Debug, PartialEq)]
pub enum QueryAnswer {
    State(crate::state::State),
    Donator(PotDonatorResponse),
    Beneficiary(BeneficiaryResponse),
    Donators(DonatorListResponse),
    Beneficiaries(BeneficiaryListResponse),
}

/// Everything that an action of this registry can fail with.
#[derive(Clone, Copy, Debug, PartialEq, Eq)]
pub enum ContractError {
    /// The acting identity may not perform this action on this target.
    Unauthorized,
    /// Enrolling an identity that is already an active beneficiary.
    AlreadyABeneficiary,
    /// Removing or querying an identity that is not an active beneficiary
    /// (or, for the removed-beneficiary query, not a removed one).
    NotABeneficiary,
    /// A deposit arrived while no beneficiary is enrolled.
    NoBeneficiaries,
    /// Querying the donation history of an identity that never donated.
    NotADonator,
    /// The registry state was read before `instantiate` created it.
    StateNotFound,
    /// No stored contract version to migrate from.
    VersionNotFound,
    /// A stored or built-in version string is not valid semver.
    InvalidVersion,
    /// A split into zero parts was requested; callers rule this out, so
    /// reaching it means an internal invariant was broken.
    InternalInvariant,
}

} // verus!
