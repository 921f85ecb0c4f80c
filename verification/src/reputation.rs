//! The identity/reputation contract: user and driver registration, KYC
//! status, and a driver reputation score capped at [`MAX_REPUTATION`] that
//! authorized contracts raise and lower, from which the driver's tier
//! follows.

use std::collections::{HashMap, HashSet};
use vstd::prelude::*;
use crate::entries::{entries_of_map, lemma_listed_map, list_of_set, map_from_entries, map_of, set_from_list};
use crate::types::{Addr, DriverProfile, FaniLabError, UserProfile};

verus! {

broadcast use vstd::std_specs::hash::group_hash_axioms;

/// Highest reputation score.
pub const MAX_REPUTATION: u32 = 100;

/// Lowest score of the Gold tier.
pub const GOLD_TIER_THRESHOLD: u32 = 75;

/// Lowest score of the Silver tier.
pub const SILVER_TIER_THRESHOLD: u32 = 50;

/// Lowest score that makes a driver eligible for enterprise work; it is the
/// Gold tier's.
pub const ENTERPRISE_THRESHOLD: u32 = 75;

/// Cargo heavier than this, in grams, earns the heavy-cargo bonus.
pub const HEAVY_CARGO_GRAMS: u32 = 5000;

/// Score of a newly registered driver.
pub const INITIAL_REPUTATION: u32 = 50;

pub const DEFAULT_BASE_POINTS: u32 = 5;

pub const DEFAULT_HEAVY_CARGO_POINTS: u32 = 3;

pub const DEFAULT_FRAGILE_POINTS: u32 = 2;

/// Points a completed delivery earns: a base, plus bonuses for heavy and
/// for fragile cargo.
#[derive(Clone, Copy, Debug, PartialEq, Eq, Structural)]
pub struct ReputationConfig {
    pub base_points: u32,
    pub heavy_cargo_points: u32,
    pub fragile_points: u32,
}

/// A driver's standing, by reputation score.
#[derive(Clone, Copy, Debug, PartialEq, Eq, Structural)]
pub enum DriverTier {
    Bronze,
    Silver,
    Gold,
}

/// The configuration in effect when none is stored.
pub open spec fn default_config() -> ReputationConfig {
    ReputationConfig {
        base_points: DEFAULT_BASE_POINTS,
        heavy_cargo_points: DEFAULT_HEAVY_CARGO_POINTS,
        fragile_points: DEFAULT_FRAGILE_POINTS,
    }
}

/// Points earned for delivering cargo of `weight_grams`, fragile or not.
pub open spec fn delivery_points(config: ReputationConfig, weight_grams: u32, fragile: bool) -> int {
    config.base_points + (if weight_grams > HEAVY_CARGO_GRAMS {
        config.heavy_cargo_points as int
    } else {
        0
    }) + (if fragile {
        config.fragile_points as int
    } else {
        0
    })
}

/// `score` raised by `points`, capped at [`MAX_REPUTATION`].
pub open spec fn raised_score(score: u32, points: int) -> u32 {
    if score + points < MAX_REPUTATION { (score + points) as u32 } else { MAX_REPUTATION }
}

/// The tier of a driver with reputation `score`.
pub open spec fn tier_of(score: u32) -> DriverTier {
    if score >= GOLD_TIER_THRESHOLD {
        DriverTier::Gold
    } else if score >= SILVER_TIER_THRESHOLD {
        DriverTier::Silver
    } else {
        DriverTier::Bronze
    }
}

/// The contents of the identity/reputation contract's storage.
pub struct ReputationView {
    pub admin: Option<Addr>,
    pub authorized: Set<Addr>,
    pub config: Option<ReputationConfig>,
    pub delivery_contract: Option<Addr>,
    pub dispute_contract: Option<Addr>,
    pub users: Map<Addr, UserProfile>,
    pub drivers: Map<Addr, DriverProfile>,
}

impl ReputationView {
    pub open spec fn is_admin(self, who: Addr) -> bool {
        self.admin == Some(who)
    }

    /// The configuration in effect.
    pub open spec fn config_in_effect(self) -> ReputationConfig {
        match self.config {
            Some(c) => c,
            None => default_config(),
        }
    }

    /// The profile of `driver`, who must be registered.
    pub open spec fn driver(self, driver: Addr) -> DriverProfile {
        self.drivers[driver]
    }

    /// The view with `driver`'s profile replaced by `p`.
    pub open spec fn with_driver(self, driver: Addr, p: DriverProfile) -> ReputationView {
        ReputationView { drivers: self.drivers.insert(driver, p), ..self }
    }

    /// Why a reputation change by `caller` for `driver` would fail, if it
    /// would: only authorized contracts may change reputations, and only of
    /// registered drivers.
    pub open spec fn reputation_failure(self, caller: Addr, driver: Addr) -> Option<FaniLabError> {
        if !self.authorized.contains(caller) {
            Some(FaniLabError::Unauthorized)
        } else if !self.drivers.contains_key(driver) {
            Some(FaniLabError::ProviderNotFound)
        } else {
            None
        }
    }

    /// Every registered driver's score is at most [`MAX_REPUTATION`].
    pub open spec fn scores_capped(self) -> bool {
        forall|d: Addr| #[trigger] self.drivers.contains_key(d) ==> self.drivers[d].reputation_score
            <= MAX_REPUTATION
    }
}

/// The state of the identity/reputation contract.
pub struct IdentityReputationContract {
    admin: Option<Addr>,
    authorized: HashSet<Addr>,
    config: Option<ReputationConfig>,
    delivery_contract: Option<Addr>,
    dispute_contract: Option<Addr>,
    users: HashMap<Addr, UserProfile>,
    drivers: HashMap<Addr, DriverProfile>,
}

impl View for IdentityReputationContract {
    type V = ReputationView;

    closed spec fn view(&self) -> ReputationView {
        ReputationView {
            admin: self.admin,
            authorized: self.authorized@,
            config: self.config,
            delivery_contract: self.delivery_contract,
            dispute_contract: self.dispute_contract,
            users: self.users@,
            drivers: self.drivers@,
        }
    }
}

/// The identity/reputation contract's storage written out as plain values,
/// for the host to keep between invocations. Maps are lists of
/// `(key, value)` entries.
pub struct ReputationState {
    pub admin: Option<Addr>,
    pub authorized: Vec<Addr>,
    pub config: Option<ReputationConfig>,
    pub delivery_contract: Option<Addr>,
    pub dispute_contract: Option<Addr>,
    pub users: Vec<(Addr, UserProfile)>,
    pub drivers: Vec<(Addr, DriverProfile)>,
}

impl View for ReputationState {
    type V = ReputationView;

    open spec fn view(&self) -> ReputationView {
        ReputationView {
            admin: self.admin,
            authorized: self.authorized@.to_set(),
            config: self.config,
            delivery_contract: self.delivery_contract,
            dispute_contract: self.dispute_contract,
            users: map_of(self.users@),
            drivers: map_of(self.drivers@),
        }
    }
}

impl IdentityReputationContract {
    /// The contract whose storage `state` holds.
    pub fn from_state(state: ReputationState) -> (r: Self)
        ensures
            r@ == state@,
    {
        IdentityReputationContract {
            admin: state.admin,
            authorized: set_from_list(state.authorized),
            config: state.config,
            delivery_contract: state.delivery_contract,
            dispute_contract: state.dispute_contract,
            users: map_from_entries(state.users),
            drivers: map_from_entries(state.drivers),
        }
    }

    /// The contract's storage, written out.
    pub fn into_state(self) -> (r: ReputationState)
        ensures
            r@ == self@,
    {
        let ghost users = self.users@;
        let ghost drivers = self.drivers@;
        let r = ReputationState {
            admin: self.admin,
            authorized: list_of_set(&self.authorized),
            config: self.config,
            delivery_contract: self.delivery_contract,
            dispute_contract: self.dispute_contract,
            users: entries_of_map(self.users),
            drivers: entries_of_map(self.drivers),
        };
        proof {
            lemma_listed_map(r.users@, users);
            lemma_listed_map(r.drivers@, drivers);
        }
        r
    }
}

impl IdentityReputationContract {
    /// The storage of a freshly deployed identity/reputation contract.
    pub fn new() -> (r: Self)
        ensures
            r@.admin is None,
            r@.authorized == Set::<Addr>::empty(),
            r@.config is None,
            r@.delivery_contract is None,
            r@.dispute_contract is None,
            r@.users == Map::<Addr, UserProfile>::empty(),
            r@.drivers == Map::<Addr, DriverProfile>::empty(),
    {
        IdentityReputationContract {
            admin: None,
            authorized: HashSet::new(),
            config: None,
            delivery_contract: None,
            dispute_contract: None,
            users: HashMap::new(),
            drivers: HashMap::new(),
        }
    }

    fn is_admin(&self, who: Addr) -> (r: bool)
        ensures
            r == self@.is_admin(who),
    {
        match self.admin {
            Some(a) => a == who,
            None => false,
        }
    }

    /// Sets the admin, once, and authorizes the delivery and dispute
    /// contracts to change reputations.
    pub fn init(&mut self, admin: Addr, delivery_contract: Addr, dispute_contract: Addr) -> (r:
        Result<(), FaniLabError>)
        ensures
            match r {
                Ok(()) => old(self)@.admin is None && final(self)@ == (ReputationView {
                    admin: Some(admin),
                    authorized: old(self)@.authorized.insert(delivery_contract).insert(
                        dispute_contract,
                    ),
                    ..old(self)@
                }),
                Err(e) => old(self)@.admin is Some && final(self)@ == old(self)@ && e
                    == FaniLabError::AlreadyInitialized,
            },
    {
        if self.admin.is_some() {
            return Err(FaniLabError::AlreadyInitialized);
        }
        self.admin = Some(admin);
        self.authorized.insert(delivery_contract);
        self.authorized.insert(dispute_contract);
        Ok(())
    }

    /// The admin.
    pub fn get_admin(&self) -> (r: Result<Addr, FaniLabError>)
        ensures
            match self@.admin {
                Some(a) => r == Ok::<Addr, FaniLabError>(a),
                None => r == Err::<Addr, FaniLabError>(FaniLabError::NotInitialized),
            },
    {
        match self.admin {
            Some(a) => Ok(a),
            None => Err(FaniLabError::NotInitialized),
        }
    }

    /// Grants or revokes `contract_addr`'s right to change reputations;
    /// admin only.
    pub fn set_authorized_contract(&mut self, admin: Addr, contract_addr: Addr, authorized: bool) -> (r:
        Result<(), FaniLabError>)
        ensures
            match r {
                Ok(()) => old(self)@.is_admin(admin) && final(self)@ == (ReputationView {
                    authorized: if authorized {
                        old(self)@.authorized.insert(contract_addr)
                    } else {
                        old(self)@.authorized.remove(contract_addr)
                    },
                    ..old(self)@
                }),
                Err(e) => !old(self)@.is_admin(admin) && final(self)@ == old(self)@ && e
                    == FaniLabError::Unauthorized,
            },
    {
        if !self.is_admin(admin) {
            return Err(FaniLabError::Unauthorized);
        }
        if authorized {
            self.authorized.insert(contract_addr);
        } else {
            self.authorized.remove(&contract_addr);
        }
        Ok(())
    }

    /// Replaces the reputation configuration; admin only.
    pub fn set_reputation_config(&mut self, admin: Addr, config: ReputationConfig) -> (r: Result<
        (),
        FaniLabError,
    >)
        ensures
            match r {
                Ok(()) => old(self)@.is_admin(admin) && final(self)@ == (ReputationView {
                    config: Some(config),
                    ..old(self)@
                }),
                Err(e) => !old(self)@.is_admin(admin) && final(self)@ == old(self)@ && e
                    == FaniLabError::Unauthorized,
            },
    {
        if !self.is_admin(admin) {
            return Err(FaniLabError::Unauthorized);
        }
        self.config = Some(config);
        Ok(())
    }

    /// The reputation configuration in effect.
    pub fn get_reputation_config(&self) -> (r: ReputationConfig)
        ensures
            r == self@.config_in_effect(),
    {
        match self.config {
            Some(c) => c,
            None => ReputationConfig {
                base_points: DEFAULT_BASE_POINTS,
                heavy_cargo_points: DEFAULT_HEAVY_CARGO_POINTS,
                fragile_points: DEFAULT_FRAGILE_POINTS,
            },
        }
    }

    /// Records the delivery contract; admin only.
    pub fn set_delivery_contract(&mut self, admin: Addr, delivery_contract: Addr) -> (r: Result<
        (),
        FaniLabError,
    >)
        ensures
            match r {
                Ok(()) => old(self)@.is_admin(admin) && final(self)@ == (ReputationView {
                    delivery_contract: Some(delivery_contract),
                    ..old(self)@
                }),
                Err(e) => !old(self)@.is_admin(admin) && final(self)@ == old(self)@ && e
                    == FaniLabError::Unauthorized,
            },
    {
        if !self.is_admin(admin) {
            return Err(FaniLabError::Unauthorized);
        }
        self.delivery_contract = Some(delivery_contract);
        Ok(())
    }

    /// Records the dispute contract; admin only.
    pub fn set_dispute_contract(&mut self, admin: Addr, dispute_contract: Addr) -> (r: Result<
        (),
        FaniLabError,
    >)
        ensures
            match r {
                Ok(()) => old(self)@.is_admin(admin) && final(self)@ == (ReputationView {
                    dispute_contract: Some(dispute_contract),
                    ..old(self)@
                }),
                Err(e) => !old(self)@.is_admin(admin) && final(self)@ == old(self)@ && e
                    == FaniLabError::Unauthorized,
            },
    {
        if !self.is_admin(admin) {
            return Err(FaniLabError::Unauthorized);
        }
        self.dispute_contract = Some(dispute_contract);
        Ok(())
    }

    /// The recorded delivery contract.
    pub fn get_delivery_contract(&self) -> (r: Result<Addr, FaniLabError>)
        ensures
            match self@.delivery_contract {
                Some(a) => r == Ok::<Addr, FaniLabError>(a),
                None => r == Err::<Addr, FaniLabError>(FaniLabError::NotInitialized),
            },
    {
        match self.delivery_contract {
            Some(a) => Ok(a),
            None => Err(FaniLabError::NotInitialized),
        }
    }

    /// The recorded dispute contract.
    pub fn get_dispute_contract(&self) -> (r: Result<Addr, FaniLabError>)
        ensures
            match self@.dispute_contract {
                Some(a) => r == Ok::<Addr, FaniLabError>(a),
                None => r == Err::<Addr, FaniLabError>(FaniLabError::NotInitialized),
            },
    {
        match self.dispute_contract {
            Some(a) => Ok(a),
            None => Err(FaniLabError::NotInitialized),
        }
    }

    /// Whether `contract_addr` may change reputations.
    pub fn is_authorized_contract(&self, contract_addr: Addr) -> (r: bool)
        ensures
            r == self@.authorized.contains(contract_addr),
    {
        self.authorized.contains(&contract_addr)
    }

    /// Whether `driver` is registered.
    pub fn has_driver_profile(&self, driver: Addr) -> (r: bool)
        ensures
            r == self@.drivers.contains_key(driver),
    {
        self.drivers.contains_key(&driver)
    }

    /// Registers `driver` at `now` with a score of [`INITIAL_REPUTATION`].
    pub fn register_driver(&mut self, driver: Addr, now: u64) -> (r: Result<(), FaniLabError>)
        ensures
            match r {
                Ok(()) => !old(self)@.drivers.contains_key(driver) && final(self)@
                    == old(self)@.with_driver(
                    driver,
                    DriverProfile {
                        address: driver,
                        deliveries_completed: 0,
                        reputation_score: INITIAL_REPUTATION,
                        registered_at: now,
                        kyc_verified: false,
                    },
                ),
                Err(e) => old(self)@.drivers.contains_key(driver) && final(self)@ == old(self)@ && e
                    == FaniLabError::AlreadyInitialized,
            },
    {
        if self.drivers.contains_key(&driver) {
            return Err(FaniLabError::AlreadyInitialized);
        }
        self.drivers.insert(
            driver,
            DriverProfile {
                address: driver,
                deliveries_completed: 0,
                reputation_score: INITIAL_REPUTATION,
                registered_at: now,
                kyc_verified: false,
            },
        );
        Ok(())
    }

    /// Registers `user` at `now`. Returns the new profile.
    pub fn register_user(&mut self, user: Addr, now: u64) -> (r: Result<UserProfile, FaniLabError>)
        ensures
            match r {
                Ok(p) => {
                    &&& !old(self)@.users.contains_key(user)
                    &&& p == (UserProfile { address: user, registered_at: now })
                    &&& final(self)@ == (ReputationView {
                        users: old(self)@.users.insert(user, p),
                        ..old(self)@
                    })
                },
                Err(e) => old(self)@.users.contains_key(user) && final(self)@ == old(self)@ && e
                    == FaniLabError::AlreadyInitialized,
            },
    {
        let profile = UserProfile { address: user, registered_at: now };
        if self.users.contains_key(&user) {
            return Err(FaniLabError::AlreadyInitialized);
        }
        self.users.insert(user, profile);
        Ok(profile)
    }

    /// The profile of `user`.
    pub fn get_user_profile(&self, user: Addr) -> (r: Result<UserProfile, FaniLabError>)
        ensures
            match r {
                Ok(p) => self@.users.contains_key(user) && p == self@.users[user],
                Err(e) => !self@.users.contains_key(user) && e == FaniLabError::ProviderNotFound,
            },
    {
        match self.users.get(&user) {
            Some(p) => Ok(*p),
            None => Err(FaniLabError::ProviderNotFound),
        }
    }

    /// The profile of `driver`.
    pub fn get_driver_profile(&self, driver: Addr) -> (r: Result<DriverProfile, FaniLabError>)
        ensures
            match r {
                Ok(p) => self@.drivers.contains_key(driver) && p == self@.driver(driver),
                Err(e) => !self@.drivers.contains_key(driver) && e == FaniLabError::ProviderNotFound,
            },
    {
        match self.drivers.get(&driver) {
            Some(p) => Ok(*p),
            None => Err(FaniLabError::ProviderNotFound),
        }
    }

    /// Sets `driver`'s KYC status; admin only.
    pub fn update_driver_kyc_status(&mut self, admin: Addr, driver: Addr, kyc_verified: bool) -> (r:
        Result<(), FaniLabError>)
        ensures
            match r {
                Ok(()) => old(self)@.is_admin(admin) && old(self)@.drivers.contains_key(driver)
                    && final(self)@ == old(self)@.with_driver(
                    driver,
                    DriverProfile { kyc_verified, ..old(self)@.driver(driver) },
                ),
                Err(e) => final(self)@ == old(self)@ && if !old(self)@.is_admin(admin) {
                    e == FaniLabError::Unauthorized
                } else {
                    !old(self)@.drivers.contains_key(driver) && e == FaniLabError::ProviderNotFound
                },
            },
    {
        if !self.is_admin(admin) {
            return Err(FaniLabError::Unauthorized);
        }
        let profile = match self.drivers.get(&driver) {
            Some(p) => *p,
            None => {
                return Err(FaniLabError::ProviderNotFound);
            },
        };
        self.drivers.insert(driver, DriverProfile { kyc_verified, ..profile });
        Ok(())
    }

    /// Whether crediting `driver` for cargo of `weight_grams`, fragile or
    /// not, stays within the counters' range: the points, the raised score
    /// before capping, and the delivery count all fit in `u32`. True for a
    /// driver who is not registered.
    pub fn credit_fits(&self, driver: Addr, weight_grams: u32, fragile: bool) -> (r: bool)
        ensures
            r == (self@.drivers.contains_key(driver) ==> {
                let points = delivery_points(self@.config_in_effect(), weight_grams, fragile);
                &&& points <= u32::MAX
                &&& self@.driver(driver).reputation_score + points <= u32::MAX
                &&& self@.driver(driver).deliveries_completed < u32::MAX
            }),
    {
        let profile = match self.drivers.get(&driver) {
            Some(p) => *p,
            None => {
                return true;
            },
        };
        let config = self.get_reputation_config();
        let mut points: u64 = config.base_points as u64;
        if weight_grams > HEAVY_CARGO_GRAMS {
            points = points + config.heavy_cargo_points as u64;
        }
        if fragile {
            points = points + config.fragile_points as u64;
        }
        points <= u32::MAX as u64 && profile.reputation_score as u64 + points <= u32::MAX as u64
            && profile.deliveries_completed < u32::MAX
    }

    /// Whether awarding `points` to `driver` keeps the raised score, before
    /// capping, within `u32`. True for a driver who is not registered.
    pub fn award_fits(&self, driver: Addr, points: u32) -> (r: bool)
        ensures
            r == (self@.drivers.contains_key(driver) ==> self@.driver(driver).reputation_score
                + points <= u32::MAX),
    {
        match self.drivers.get(&driver) {
            Some(p) => p.reputation_score as u64 + points as u64 <= u32::MAX as u64,
            None => true,
        }
    }

    /// An authorized contract credits `driver` for delivering cargo of
    /// `weight_grams`, fragile or not: the score rises by the configured
    /// points, capped at [`MAX_REPUTATION`], and one more delivery is
    /// counted. Returns the points awarded.
    pub fn increase_reputation(
        &mut self,
        caller: Addr,
        driver: Addr,
        delivery_id: u64,
        weight_grams: u32,
        fragile: bool,
    ) -> (r: Result<u32, FaniLabError>)
        requires
            old(self)@.reputation_failure(caller, driver) is None ==> {
                let points = delivery_points(old(self)@.config_in_effect(), weight_grams, fragile);
                &&& points <= u32::MAX
                &&& old(self)@.driver(driver).reputation_score + points <= u32::MAX
                &&& old(self)@.driver(driver).deliveries_completed < u32::MAX
            },
        ensures
            match r {
                Ok(points) => {
                    let p = old(self)@.driver(driver);
                    &&& old(self)@.reputation_failure(caller, driver) is None
                    &&& points == delivery_points(old(self)@.config_in_effect(), weight_grams, fragile)
                    &&& final(self)@ == old(self)@.with_driver(
                        driver,
                        DriverProfile {
                            reputation_score: raised_score(p.reputation_score, points as int),
                            deliveries_completed: (p.deliveries_completed + 1) as u32,
                            ..p
                        },
                    )
                },
                Err(e) => final(self)@ == old(self)@ && old(self)@.reputation_failure(caller, driver)
                    == Some(e),
            },
    {
        if !self.authorized.contains(&caller) {
            return Err(FaniLabError::Unauthorized);
        }
        let profile = match self.drivers.get(&driver) {
            Some(p) => *p,
            None => {
                return Err(FaniLabError::ProviderNotFound);
            },
        };
        let config = self.get_reputation_config();
        let mut points: u32 = config.base_points;
        if weight_grams > HEAVY_CARGO_GRAMS {
            points += config.heavy_cargo_points;
        }
        if fragile {
            points += config.fragile_points;
        }
        let sum = profile.reputation_score + points;
        let score = if sum < MAX_REPUTATION { sum } else { MAX_REPUTATION };
        self.drivers.insert(
            driver,
            DriverProfile {
                reputation_score: score,
                deliveries_completed: profile.deliveries_completed + 1,
                ..profile
            },
        );
        Ok(points)
    }

    /// An authorized contract takes `points` off `driver`'s score, which
    /// stops at zero.
    pub fn decrease_reputation(&mut self, caller: Addr, driver: Addr, points: u32) -> (r: Result<
        (),
        FaniLabError,
    >)
        ensures
            match r {
                Ok(()) => {
                    let p = old(self)@.driver(driver);
                    &&& old(self)@.reputation_failure(caller, driver) is None
                    &&& final(self)@ == old(self)@.with_driver(
                        driver,
                        DriverProfile {
                            reputation_score: if p.reputation_score < points {
                                0
                            } else {
                                (p.reputation_score - points) as u32
                            },
                            ..p
                        },
                    )
                },
                Err(e) => final(self)@ == old(self)@ && old(self)@.reputation_failure(caller, driver)
                    == Some(e),
            },
    {
        if !self.authorized.contains(&caller) {
            return Err(FaniLabError::Unauthorized);
        }
        let profile = match self.drivers.get(&driver) {
            Some(p) => *p,
            None => {
                return Err(FaniLabError::ProviderNotFound);
            },
        };
        self.drivers.insert(
            driver,
            DriverProfile { reputation_score: profile.reputation_score.saturating_sub(points), ..profile },
        );
        Ok(())
    }

    /// An authorized contract awards `driver` a flat `points`, capped at
    /// [`MAX_REPUTATION`], without counting a delivery.
    pub fn award_reputation(&mut self, caller: Addr, driver: Addr, points: u32) -> (r: Result<
        (),
        FaniLabError,
    >)
        requires
            old(self)@.reputation_failure(caller, driver) is None ==> old(self)@.driver(
                driver,
            ).reputation_score + points <= u32::MAX,
        ensures
            match r {
                Ok(()) => {
                    let p = old(self)@.driver(driver);
                    &&& old(self)@.reputation_failure(caller, driver) is None
                    &&& final(self)@ == old(self)@.with_driver(
                        driver,
                        DriverProfile {
                            reputation_score: raised_score(p.reputation_score, points as int),
                            ..p
                        },
                    )
                },
                Err(e) => final(self)@ == old(self)@ && old(self)@.reputation_failure(caller, driver)
                    == Some(e),
            },
    {
        if !self.authorized.contains(&caller) {
            return Err(FaniLabError::Unauthorized);
        }
        let profile = match self.drivers.get(&driver) {
            Some(p) => *p,
            None => {
                return Err(FaniLabError::ProviderNotFound);
            },
        };
        let sum = profile.reputation_score + points;
        let score = if sum < MAX_REPUTATION { sum } else { MAX_REPUTATION };
        self.drivers.insert(driver, DriverProfile { reputation_score: score, ..profile });
        Ok(())
    }

    /// The tier of `driver`.
    pub fn get_driver_tier(&self, driver: Addr) -> (r: Result<DriverTier, FaniLabError>)
        ensures
            match r {
                Ok(t) => self@.drivers.contains_key(driver) && t == tier_of(
                    self@.driver(driver).reputation_score,
                ),
                Err(e) => !self@.drivers.contains_key(driver) && e == FaniLabError::ProviderNotFound,
            },
    {
        let profile = self.get_driver_profile(driver)?;
        let score = profile.reputation_score;
        if score >= GOLD_TIER_THRESHOLD {
            Ok(DriverTier::Gold)
        } else if score >= SILVER_TIER_THRESHOLD {
            Ok(DriverTier::Silver)
        } else {
            Ok(DriverTier::Bronze)
        }
    }

    /// Whether `driver`'s score reaches [`ENTERPRISE_THRESHOLD`].
    pub fn is_eligible_for_enterprise(&self, driver: Addr) -> (r: Result<bool, FaniLabError>)
        ensures
            match r {
                Ok(b) => self@.drivers.contains_key(driver) && b == (self@.driver(
                    driver,
                ).reputation_score >= ENTERPRISE_THRESHOLD),
                Err(e) => !self@.drivers.contains_key(driver) && e == FaniLabError::ProviderNotFound,
            },
    {
        let profile = self.get_driver_profile(driver)?;
        Ok(profile.reputation_score >= ENTERPRISE_THRESHOLD)
    }
}

/// The rank of a tier, Bronze lowest.
pub open spec fn tier_rank(t: DriverTier) -> int {
    match t {
        DriverTier::Bronze => 0,
        DriverTier::Silver => 1,
        DriverTier::Gold => 2,
    }
}

/// A higher score never means a lower tier, and a driver is eligible for
/// enterprise work exactly when in the Gold tier.
pub proof fn law_tier_follows_score(s1: u32, s2: u32)
    ensures
        s1 <= s2 ==> tier_rank(tier_of(s1)) <= tier_rank(tier_of(s2)),
        (s1 >= ENTERPRISE_THRESHOLD) <==> tier_of(s1) == DriverTier::Gold,
{
}

/// Reputation scores never exceed [`MAX_REPUTATION`]: registration,
/// crediting a delivery, awarding, deducting and KYC updates all keep every
/// score within the cap.
pub proof fn law_scores_stay_capped(
    v: ReputationView,
    driver: Addr,
    now: u64,
    points: u32,
    earned: int,
    kyc_verified: bool,
)
    requires
        v.scores_capped(),
        earned >= 0,
    ensures
        !v.drivers.contains_key(driver) ==> v.with_driver(
            driver,
            DriverProfile {
                address: driver,
                deliveries_completed: 0,
                reputation_score: INITIAL_REPUTATION,
                registered_at: now,
                kyc_verified: false,
            },
        ).scores_capped(),
        v.drivers.contains_key(driver) ==> {
            let p = v.driver(driver);
            &&& v.with_driver(
                driver,
                DriverProfile {
                    reputation_score: raised_score(p.reputation_score, earned),
                    deliveries_completed: (p.deliveries_completed + 1) as u32,
                    ..p
                },
            ).scores_capped()
            &&& v.with_driver(
                driver,
                DriverProfile { reputation_score: raised_score(p.reputation_score, points as int), ..p },
            ).scores_capped()
            &&& v.with_driver(
                driver,
                DriverProfile {
                    reputation_score: if p.reputation_score < points {
                        0
                    } else {
                        (p.reputation_score - points) as u32
                    },
                    ..p
                },
            ).scores_capped()
            &&& v.with_driver(driver, DriverProfile { kyc_verified, ..p }).scores_capped()
        },
{
    if v.drivers.contains_key(driver) {
        assert(v.drivers[driver].reputation_score <= MAX_REPUTATION);
    }
}

/// Crediting a driver never lowers a capped score, and deducting never
/// raises one.
pub proof fn law_reputation_moves_one_way(score: u32, points: u32)
    requires
        score <= MAX_REPUTATION,
    ensures
        raised_score(score, points as int) >= score,
        (if score < points { 0 } else { (score - points) as u32 }) <= score,
{
}

} // verus!
