//! The species catalog — the closed set of creature kinds the facility
//! supports, each with a stable four-letter short code — and the asset
//! aggregate built around it.

use vstd::prelude::*;
use crate::diet;
use crate::lifecycle_builder;
use crate::platform;
use crate::vitals;

verus! {

/// The twelve supported creature kinds. The set is closed: every mapping
/// over it (short code, diet) is a total match, so adding a variant forces
/// every mapping to be extended.
#[derive(Clone, Copy, PartialEq, Eq, Structural, Debug)]
pub enum Species {
    BRCH,
    GALL,
    TRIK,
    PARA,
    PROC,
    MTCN,
    COEL,
    TREX,
    VELO,
    DILO,
    HERR,
    BRNX,
}

/// The canonical short code of a species, as a sequence of characters.
/// This code is the only external representation of a species and must
/// stay stable across versions.
pub open spec fn spec_code_of(s: Species) -> Seq<char> {
    match s {
        Species::BRCH => "BRCH"@,
        Species::GALL => "GALL"@,
        Species::TRIK => "TRIK"@,
        Species::PARA => "PARA"@,
        Species::PROC => "PROC"@,
        Species::MTCN => "MTCN"@,
        Species::COEL => "COEL"@,
        Species::TREX => "TREX"@,
        Species::VELO => "VELO"@,
        Species::DILO => "DILO"@,
        Species::HERR => "HERR"@,
        Species::BRNX => "BRNX"@,
    }
}

/// The species at a catalog position, in the catalog's display order; any
/// position past the end falls back to the first entry.
pub open spec fn spec_species_at(i: int) -> Species {
    if i == 0 {
        Species::BRCH
    } else if i == 1 {
        Species::GALL
    } else if i == 2 {
        Species::TRIK
    } else if i == 3 {
        Species::PARA
    } else if i == 4 {
        Species::PROC
    } else if i == 5 {
        Species::MTCN
    } else if i == 6 {
        Species::COEL
    } else if i == 7 {
        Species::TREX
    } else if i == 8 {
        Species::VELO
    } else if i == 9 {
        Species::DILO
    } else if i == 10 {
        Species::HERR
    } else if i == 11 {
        Species::BRNX
    } else {
        Species::BRCH
    }
}

impl Species {
    /// The species at the given catalog position; an out-of-range position
    /// falls back to the first entry.
    pub fn from_index(choice: usize) -> (r: Species)
        ensures
            r == spec_species_at(choice as int),
    {
        match choice {
            0 => Species::BRCH,
            1 => Species::GALL,
            2 => Species::TRIK,
            3 => Species::PARA,
            4 => Species::PROC,
            5 => Species::MTCN,
            6 => Species::COEL,
            7 => Species::TREX,
            8 => Species::VELO,
            9 => Species::DILO,
            10 => Species::HERR,
            11 => Species::BRNX,
            _ => Species::BRCH,
        }
    }

    /// The short code of this species, for display and encoding.
    pub fn as_str(&self) -> (r: &'static str)
        ensures
            r@ == spec_code_of(*self),
    {
        match self {
            Species::BRCH => "BRCH",
            Species::GALL => "GALL",
            Species::TRIK => "TRIK",
            Species::PARA => "PARA",
            Species::PROC => "PROC",
            Species::MTCN => "MTCN",
            Species::COEL => "COEL",
            Species::TREX => "TREX",
            Species::VELO => "VELO",
            Species::DILO => "DILO",
            Species::HERR => "HERR",
            Species::BRNX => "BRNX",
        }
    }
}

/// Distinct species always carry distinct short codes, so the code
/// round-trips: it identifies the species it was produced from.
pub proof fn lemma_species_codes_injective(s1: Species, s2: Species)
    ensures
        spec_code_of(s1) == spec_code_of(s2) ==> s1 == s2,
{
    reveal_strlit("BRCH");
    reveal_strlit("GALL");
    reveal_strlit("TRIK");
    reveal_strlit("PARA");
    reveal_strlit("PROC");
    reveal_strlit("MTCN");
    reveal_strlit("COEL");
    reveal_strlit("TREX");
    reveal_strlit("VELO");
    reveal_strlit("DILO");
    reveal_strlit("HERR");
    reveal_strlit("BRNX");
    let c1 = spec_code_of(s1);
    let c2 = spec_code_of(s2);
    if c1 == c2 {
        assert(c1[0] == c2[0] && c1[1] == c2[1] && c1[2] == c2[2] && c1[3] == c2[3]);
    }
}

/// The species a short code stands for, if any.
pub open spec fn spec_species_of_code(c: Seq<char>) -> Option<Species> {
    if c == spec_code_of(Species::BRCH) {
        Some(Species::BRCH)
    } else if c == spec_code_of(Species::GALL) {
        Some(Species::GALL)
    } else if c == spec_code_of(Species::TRIK) {
        Some(Species::TRIK)
    } else if c == spec_code_of(Species::PARA) {
        Some(Species::PARA)
    } else if c == spec_code_of(Species::PROC) {
        Some(Species::PROC)
    } else if c == spec_code_of(Species::MTCN) {
        Some(Species::MTCN)
    } else if c == spec_code_of(Species::COEL) {
        Some(Species::COEL)
    } else if c == spec_code_of(Species::TREX) {
        Some(Species::TREX)
    } else if c == spec_code_of(Species::VELO) {
        Some(Species::VELO)
    } else if c == spec_code_of(Species::DILO) {
        Some(Species::DILO)
    } else if c == spec_code_of(Species::HERR) {
        Some(Species::HERR)
    } else if c == spec_code_of(Species::BRNX) {
        Some(Species::BRNX)
    } else {
        None
    }
}

/// Every species' short code leads back to that species alone: the code
/// round-trips.
pub proof fn lemma_code_round_trip(s: Species)
    ensures
        spec_species_of_code(spec_code_of(s)) == Some(s),
{
    lemma_species_codes_injective(s, Species::BRCH);
    lemma_species_codes_injective(s, Species::GALL);
    lemma_species_codes_injective(s, Species::TRIK);
    lemma_species_codes_injective(s, Species::PARA);
    lemma_species_codes_injective(s, Species::PROC);
    lemma_species_codes_injective(s, Species::MTCN);
    lemma_species_codes_injective(s, Species::COEL);
    lemma_species_codes_injective(s, Species::TREX);
    lemma_species_codes_injective(s, Species::VELO);
    lemma_species_codes_injective(s, Species::DILO);
    lemma_species_codes_injective(s, Species::HERR);
    lemma_species_codes_injective(s, Species::BRNX);
}

/// A tracked living specimen: identity, name, species, the owned records,
/// and the independent status flags. Identity and species never change
/// after construction. Identifiers are 128-bit values drawn at random;
/// times are in milliseconds since the Unix epoch.
pub struct Asset {
    pub id: u128,
    pub name: String,
    pub species: Species,
    pub security_level: u8,
    pub vitals: vitals::Vitals,
    pub diet: diet::DietTracker,
    pub paddock_id: Option<u128>,
    pub lifecycle: lifecycle_builder::LifecycleBuilder,
    pub record_created: i64,
    pub is_alive: bool,
    pub is_contained: bool,
    pub is_in_transit: bool,
    pub is_in_paddock: bool,
    pub needs_status_check: bool,
    pub needs_veterinary_care: bool,
    pub needs_feeding: bool,
}

/// What holds of a newly constructed asset, whatever identifier and
/// creation time it was given: the requested name and species, default
/// security level and flags, the diet derived from the species, and empty
/// ledgers, all keyed back to the asset's own identity.
pub open spec fn spec_fresh_asset(a: Asset, name: String, species: Species) -> bool {
    &&& a.name == name
    &&& a.species == species
    &&& a.security_level == 1
    &&& a.paddock_id is None
    &&& a.is_alive
    &&& a.is_contained
    &&& !a.is_in_transit
    &&& !a.is_in_paddock
    &&& !a.needs_status_check
    &&& !a.needs_veterinary_care
    &&& !a.needs_feeding
    &&& a.diet.asset_id == a.id
    &&& a.diet.food_types@ == diet::spec_diet_of(species)
    &&& a.diet.feedings@ == Seq::<diet::Feeding>::empty()
    &&& a.lifecycle.asset_id == a.id
    &&& a.lifecycle.hatch_date is None
    &&& a.lifecycle.park_introduction_date is None
    &&& a.lifecycle.last_checkup_date is None
    &&& a.lifecycle.death_date is None
    &&& a.lifecycle.other_dates@ == Seq::<lifecycle_builder::Event>::empty()
}

impl Asset {
    /// A new asset under a freshly drawn identifier, created now, alive and
    /// contained, with its diet derived from the species and empty ledgers.
    /// Registration is the repository's job, not this constructor's.
    pub fn new(species: Species, name: String) -> (r: Asset)
        ensures
            spec_fresh_asset(r, name, species),
    {
        let asset_id = platform::fresh_id();
        Asset {
            id: asset_id,
            name,
            security_level: 1,
            vitals: vitals::Vitals::new(platform::fresh_id()),
            paddock_id: None,
            diet: diet::DietTracker::new(asset_id, &species),
            lifecycle: lifecycle_builder::LifecycleBuilder::new(asset_id),
            record_created: platform::current_time_millis(),
            is_alive: true,
            is_contained: true,
            is_in_transit: false,
            is_in_paddock: false,
            needs_feeding: false,
            needs_status_check: false,
            needs_veterinary_care: false,
            species,
        }
    }
}

} // verus!
