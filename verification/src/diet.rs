//! The diet tracker: the species-derived list of permitted food types for
//! one asset, and an append-only ledger of feeding events, each validated
//! against the permitted list before it is recorded.

use vstd::prelude::*;
use crate::asset::Species;
use crate::platform::current_time_millis;

verus! {

/// The food types a feeding can name.
#[derive(Clone, Copy, PartialEq, Eq, Structural, Debug)]
pub enum FoodType {
    MEAT,
    GOAT,
    CYCAD,
    BERRY,
    TUBER,
    FISH,
    FRUIT,
    NUT,
    HAY,
}

/// The permitted food types of a species, in their canonical order. The
/// mapping is total: every species has a non-empty diet.
pub open spec fn spec_diet_of(s: Species) -> Seq<FoodType> {
    match s {
        Species::BRCH => seq![FoodType::CYCAD, FoodType::FRUIT, FoodType::NUT],
        Species::GALL => seq![FoodType::BERRY, FoodType::HAY, FoodType::NUT, FoodType::FRUIT],
        Species::BRNX => seq![FoodType::FISH],
        Species::COEL => seq![FoodType::MEAT, FoodType::GOAT, FoodType::FISH],
        Species::DILO => seq![FoodType::MEAT, FoodType::GOAT, FoodType::FISH],
        Species::HERR => seq![FoodType::MEAT, FoodType::GOAT, FoodType::FISH],
        Species::MTCN => seq![FoodType::MEAT, FoodType::GOAT],
        Species::PARA => seq![FoodType::CYCAD, FoodType::HAY, FoodType::FRUIT],
        Species::PROC => seq![FoodType::MEAT, FoodType::GOAT, FoodType::FISH],
        Species::TREX => seq![FoodType::GOAT],
        Species::TRIK => seq![FoodType::HAY, FoodType::FRUIT, FoodType::NUT, FoodType::CYCAD],
        Species::VELO => seq![FoodType::MEAT, FoodType::GOAT],
    }
}

/// Every species has at least one permitted food type.
pub proof fn lemma_diet_nonempty(s: Species)
    ensures
        spec_diet_of(s).len() > 0,
{
}

/// The permitted food types of a species, as an ordered list.
pub fn get_diet_components(species: &Species) -> (r: Vec<FoodType>)
    ensures
        r@ == spec_diet_of(*species),
{
    match species {
        Species::BRCH => vec![FoodType::CYCAD, FoodType::FRUIT, FoodType::NUT],
        Species::GALL => vec![FoodType::BERRY, FoodType::HAY, FoodType::NUT, FoodType::FRUIT],
        Species::BRNX => vec![FoodType::FISH],
        Species::COEL => vec![FoodType::MEAT, FoodType::GOAT, FoodType::FISH],
        Species::DILO => vec![FoodType::MEAT, FoodType::GOAT, FoodType::FISH],
        Species::HERR => vec![FoodType::MEAT, FoodType::GOAT, FoodType::FISH],
        Species::MTCN => vec![FoodType::MEAT, FoodType::GOAT],
        Species::PARA => vec![FoodType::CYCAD, FoodType::HAY, FoodType::FRUIT],
        Species::PROC => vec![FoodType::MEAT, FoodType::GOAT, FoodType::FISH],
        Species::TREX => vec![FoodType::GOAT],
        Species::TRIK => vec![FoodType::HAY, FoodType::FRUIT, FoodType::NUT, FoodType::CYCAD],
        Species::VELO => vec![FoodType::MEAT, FoodType::GOAT],
    }
}

/// Whether a permitted-food list contains the given food type.
fn diet_contains(list: &Vec<FoodType>, food_type: FoodType) -> (r: bool)
    ensures
        r == list@.contains(food_type),
{
    let mut i: usize = 0;
    while i < list.len()
        invariant
            i <= list@.len(),
            forall|j: int| 0 <= j < i ==> list@[j] != food_type,
        decreases list@.len() - i,
    {
        if list[i] == food_type {
            return true;
        }
        i = i + 1;
    }
    false
}

/// One recorded feeding: what was fed, how much, and when. The amount is a
/// fixed-point quantity in thousandths of a unit; it is stored as given,
/// with no range validation. The time is in milliseconds since the Unix
/// epoch.
pub struct Feeding {
    pub food_type: FoodType,
    pub amount: u64,
    pub time: i64,
}

impl Feeding {
    /// Builds a feeding record dated now, provided the food type is in the
    /// given permitted list; otherwise reports the invalid food type and
    /// builds nothing.
    pub fn new(food_type: FoodType, amount: u64, food_types: &Vec<FoodType>) -> (r: Result<
        Feeding,
        String,
    >)
        ensures
            r is Ok <==> food_types@.contains(food_type),
            r matches Ok(f) ==> f.food_type == food_type && f.amount == amount,
            r matches Err(m) ==> m@ == "You must enter a valid food type"@,
    {
        if diet_contains(food_types, food_type) {
            Ok(Feeding { time: current_time_millis(), food_type, amount })
        } else {
            Err("You must enter a valid food type".to_owned())
        }
    }
}

/// The per-asset diet state: the owning asset's identifier, the permitted
/// food types derived once from the species, and the append-only feeding
/// ledger.
pub struct DietTracker {
    pub asset_id: u128,
    pub food_types: Vec<FoodType>,
    pub feedings: Vec<Feeding>,
}

impl DietTracker {
    /// Every recorded feeding names a permitted food type.
    pub open spec fn wf(self) -> bool {
        forall|i: int|
            0 <= i < self.feedings@.len() ==> self.food_types@.contains(
                #[trigger] self.feedings@[i].food_type,
            )
    }

    /// A tracker for the given asset, with the diet derived from the
    /// species and an empty ledger.
    pub fn new(asset_id: u128, species: &Species) -> (r: DietTracker)
        ensures
            r.asset_id == asset_id,
            r.food_types@ == spec_diet_of(*species),
            r.feedings@ == Seq::<Feeding>::empty(),
            r.wf(),
    {
        let diet_components = get_diet_components(species);
        DietTracker { asset_id, food_types: diet_components, feedings: Vec::new() }
    }

    /// Appends a feeding dated now if the food type is permitted; otherwise
    /// reports the invalid food type and leaves the ledger unchanged.
    pub fn record_feeding(&mut self, food_type: FoodType, amount: u64) -> (r: Result<(), String>)
        ensures
            final(self).asset_id == old(self).asset_id,
            final(self).food_types == old(self).food_types,
            r is Ok <==> old(self).food_types@.contains(food_type),
            r is Ok ==> final(self).feedings@.len() == old(self).feedings@.len() + 1
                && final(self).feedings@.drop_last() == old(self).feedings@
                && final(self).feedings@.last().food_type == food_type
                && final(self).feedings@.last().amount == amount,
            r is Err ==> *final(self) == *old(self),
            r matches Err(m) ==> m@ == "You must enter a valid food type"@,
            old(self).wf() ==> final(self).wf(),
    {
        if diet_contains(&self.food_types, food_type) {
            let time = current_time_millis();
            self.feedings.push(Feeding { food_type, amount, time });
            assert(self.feedings@.drop_last() == old(self).feedings@);
            Ok(())
        } else {
            Err("You must enter a valid food type".to_owned())
        }
    }
}

} // verus!
