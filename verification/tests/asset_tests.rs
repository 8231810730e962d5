use asset_registry::asset::{Asset, Species};
use asset_registry::vitals::Vitals;

#[test]
fn we_can_create_an_asset() {
    let asset = Asset::new(Species::BRCH, String::from("BigBrachy"));
    assert_eq!(asset.name, "BigBrachy");
    assert!(matches!(asset.species, Species::BRCH));
}

#[test]
fn a_new_asset_has_default_status() {
    let asset = Asset::new(Species::VELO, String::from("Blue"));
    assert_eq!(asset.security_level, 1);
    assert!(asset.paddock_id.is_none());
    assert!(asset.is_alive);
    assert!(asset.is_contained);
    assert!(!asset.is_in_transit);
    assert!(!asset.is_in_paddock);
    assert!(!asset.needs_status_check);
    assert!(!asset.needs_veterinary_care);
    assert!(!asset.needs_feeding);
    assert_eq!(asset.diet.asset_id, asset.id);
    assert_eq!(asset.lifecycle.asset_id, asset.id);
    assert!(asset.diet.feedings.is_empty());
    assert!(asset.lifecycle.other_dates.is_empty());
}

#[test]
fn we_can_create_vitals() {
    let id: u128 = 42;
    let vitals = Vitals::new(id);
    assert_eq!(vitals.id, id);
}

#[test]
fn species_codes_are_distinct_and_stable() {
    let all = [
        Species::BRCH,
        Species::GALL,
        Species::TRIK,
        Species::PARA,
        Species::PROC,
        Species::MTCN,
        Species::COEL,
        Species::TREX,
        Species::VELO,
        Species::DILO,
        Species::HERR,
        Species::BRNX,
    ];
    let expected = [
        "BRCH", "GALL", "TRIK", "PARA", "PROC", "MTCN", "COEL", "TREX", "VELO", "DILO", "HERR",
        "BRNX",
    ];
    for (s, e) in all.iter().zip(expected.iter()) {
        assert_eq!(s.as_str(), *e);
    }
    for i in 0..all.len() {
        for j in 0..all.len() {
            if i != j {
                assert_ne!(all[i].as_str(), all[j].as_str());
            }
        }
    }
}

#[test]
fn species_come_from_catalog_positions() {
    assert!(matches!(Species::from_index(0), Species::BRCH));
    assert!(matches!(Species::from_index(7), Species::TREX));
    assert!(matches!(Species::from_index(11), Species::BRNX));
    assert!(matches!(Species::from_index(99), Species::BRCH));
}
