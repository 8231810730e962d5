use asset_registry::asset::Species;
use asset_registry::diet::{get_diet_components, DietTracker, Feeding, FoodType};

#[test]
fn we_can_create_diet_tracker() {
    let asset_id: u128 = 7;
    let diet_tracker = DietTracker::new(asset_id, &Species::BRCH);
    assert_eq!(diet_tracker.asset_id, asset_id);
}

#[test]
fn it_has_the_right_number_of_food_types() {
    let asset_id: u128 = 7;
    let diet_tracker = DietTracker::new(asset_id, &Species::BRCH);
    assert_eq!(diet_tracker.food_types.len(), 3);
}

#[test]
fn it_generates_the_correct_diet() {
    let asset_id: u128 = 7;
    let diet_tracker = DietTracker::new(asset_id, &Species::BRCH);
    assert!(matches!(diet_tracker.food_types[0], FoodType::CYCAD));
    assert!(matches!(diet_tracker.food_types[1], FoodType::FRUIT));
    assert!(matches!(diet_tracker.food_types[2], FoodType::NUT));
}

#[test]
fn it_can_record_feeding() {
    let asset_id: u128 = 7;
    let mut diet_tracker = DietTracker::new(asset_id, &Species::BRCH);
    let feeding = Feeding::new(FoodType::CYCAD, 1000, &diet_tracker.food_types).unwrap();
    assert!(matches!(feeding.food_type, FoodType::CYCAD));
    diet_tracker.record_feeding(FoodType::CYCAD, 1000).unwrap();
    assert_eq!(diet_tracker.feedings.len(), 1);
}

#[test]
fn every_species_has_its_documented_diet() {
    let cases: [(Species, &[FoodType]); 12] = [
        (Species::BRCH, &[FoodType::CYCAD, FoodType::FRUIT, FoodType::NUT]),
        (Species::GALL, &[FoodType::BERRY, FoodType::HAY, FoodType::NUT, FoodType::FRUIT]),
        (Species::TRIK, &[FoodType::HAY, FoodType::FRUIT, FoodType::NUT, FoodType::CYCAD]),
        (Species::PARA, &[FoodType::CYCAD, FoodType::HAY, FoodType::FRUIT]),
        (Species::PROC, &[FoodType::MEAT, FoodType::GOAT, FoodType::FISH]),
        (Species::MTCN, &[FoodType::MEAT, FoodType::GOAT]),
        (Species::COEL, &[FoodType::MEAT, FoodType::GOAT, FoodType::FISH]),
        (Species::TREX, &[FoodType::GOAT]),
        (Species::VELO, &[FoodType::MEAT, FoodType::GOAT]),
        (Species::DILO, &[FoodType::MEAT, FoodType::GOAT, FoodType::FISH]),
        (Species::HERR, &[FoodType::MEAT, FoodType::GOAT, FoodType::FISH]),
        (Species::BRNX, &[FoodType::FISH]),
    ];
    for (species, expected) in cases.iter() {
        let diet = get_diet_components(species);
        assert!(!diet.is_empty());
        assert_eq!(diet.as_slice(), *expected);
    }
}

#[test]
fn an_unpermitted_food_is_rejected_and_the_ledger_kept() {
    let mut tracker = DietTracker::new(1, &Species::TREX);
    tracker.record_feeding(FoodType::GOAT, 500).unwrap();
    let err = tracker.record_feeding(FoodType::CYCAD, 500);
    assert_eq!(err, Err(String::from("You must enter a valid food type")));
    assert_eq!(tracker.feedings.len(), 1);
}

#[test]
fn an_invalid_feeding_cannot_be_built() {
    let permitted = get_diet_components(&Species::BRNX);
    let r = Feeding::new(FoodType::HAY, 100, &permitted);
    assert_eq!(r.err().unwrap(), "You must enter a valid food type");
}

#[test]
fn a_long_neck_herbivore_named_big_one_eats_cycad_not_meat() {
    let asset = asset_registry::asset::Asset::new(Species::BRCH, String::from("Big One"));
    let mut diet = asset.diet;
    assert!(matches!(diet.food_types[0], FoodType::CYCAD));
    assert!(matches!(diet.food_types[1], FoodType::FRUIT));
    assert!(matches!(diet.food_types[2], FoodType::NUT));
    assert_eq!(diet.food_types.len(), 3);
    diet.record_feeding(FoodType::CYCAD, 2500).unwrap();
    assert_eq!(diet.feedings.len(), 1);
    let r = diet.record_feeding(FoodType::GOAT, 2500);
    assert!(r.is_err());
    assert_eq!(diet.feedings.len(), 1);
}
