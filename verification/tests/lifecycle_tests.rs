use asset_registry::lifecycle_builder::{DatedFact, LifecycleBuilder};

fn timestamp_of(dates: &[DatedFact], name: &str) -> Option<i64> {
    for fact in dates {
        if fact.name == name {
            return Some(fact.when);
        }
    }
    None
}

#[test]
fn we_can_create_a_lifecycle_builder() {
    let id: u128 = 11;
    let lifecycle_builder = LifecycleBuilder { asset_id: id, ..Default::default() };
    assert_eq!(lifecycle_builder.asset_id, id);
}

#[test]
fn we_can_set_a_hatch_date() {
    let mut lifecycle_builder = LifecycleBuilder { ..Default::default() };
    lifecycle_builder.set_hatch_date(1_700_000_000_000);
    assert!(lifecycle_builder.hatch_date.is_some());
}

#[test]
fn we_can_set_a_park_introduction_date() {
    let mut lifecycle_builder = LifecycleBuilder { ..Default::default() };
    lifecycle_builder.set_park_introduction_date(1_700_000_000_000);
    assert!(lifecycle_builder.park_introduction_date.is_some());
}

#[test]
fn we_can_set_a_last_checkup_date() {
    let mut lifecycle_builder = LifecycleBuilder { ..Default::default() };
    lifecycle_builder.set_last_checkup_date(1_700_000_000_000);
    assert!(lifecycle_builder.last_checkup_date.is_some());
}

#[test]
fn we_can_set_a_death_date() {
    let mut lifecycle_builder = LifecycleBuilder { ..Default::default() };
    lifecycle_builder.set_death_date(1_700_000_000_000);
    assert!(lifecycle_builder.death_date.is_some());
}

#[test]
fn we_can_set_additional_dates_in_the_lifecycle() {
    let mut lifecycle_builder = LifecycleBuilder { ..Default::default() };
    let id: u128 = 23;
    let now: i64 = 1_700_000_000_000;
    lifecycle_builder.add_other_event(String::from("Brach Gave Birth"), id, now);
    assert_eq!(lifecycle_builder.other_dates.len(), 1);
    assert_eq!(lifecycle_builder.other_dates[0].name, "Brach Gave Birth");
    assert_eq!(lifecycle_builder.other_dates[0].recorded_by, id);
    assert_eq!(lifecycle_builder.other_dates[0].recorded_on, now);
}

#[test]
fn we_can_retrieve_all_dates() {
    let mut lifecycle_builder = LifecycleBuilder { ..Default::default() };
    lifecycle_builder.set_hatch_date(1);
    lifecycle_builder.set_park_introduction_date(2);
    lifecycle_builder.set_last_checkup_date(3);
    lifecycle_builder.set_death_date(4);
    lifecycle_builder.add_other_event(String::from("Brach Gave Birth"), 23, 5);

    let dates = lifecycle_builder.get_all_dates();
    assert_eq!(dates.len(), 5);
}

#[test]
fn merged_dates_carry_each_fact_under_its_name() {
    let mut lb = LifecycleBuilder::new(3);
    lb.set_hatch_date(100);
    lb.set_death_date(400);
    lb.add_other_event(String::from("First Roar"), 23, 250);
    let dates = lb.get_all_dates();
    assert_eq!(dates.len(), 3);
    assert_eq!(timestamp_of(&dates, "hatch_date"), Some(100));
    assert_eq!(timestamp_of(&dates, "death_date"), Some(400));
    assert_eq!(timestamp_of(&dates, "First Roar"), Some(250));
    assert_eq!(timestamp_of(&dates, "park_introduction_date"), None);
    assert_eq!(timestamp_of(&dates, "last_checkup_date"), None);
}

#[test]
fn an_event_named_like_a_milestone_collides_and_wins() {
    let mut lb = LifecycleBuilder::new(3);
    lb.set_hatch_date(100);
    lb.set_death_date(400);
    lb.add_other_event(String::from("hatch_date"), 23, 999);
    let dates = lb.get_all_dates();
    // 2 milestones + 1 event - 1 collision
    assert_eq!(dates.len(), 2);
    assert_eq!(timestamp_of(&dates, "hatch_date"), Some(999));
    assert_eq!(timestamp_of(&dates, "death_date"), Some(400));
}

#[test]
fn a_repeated_event_name_keeps_the_later_timestamp() {
    let mut lb = LifecycleBuilder::new(3);
    lb.add_other_event(String::from("Checkup"), 23, 10);
    lb.add_other_event(String::from("Checkup"), 24, 20);
    assert_eq!(lb.other_dates.len(), 2);
    let dates = lb.get_all_dates();
    assert_eq!(dates.len(), 1);
    assert_eq!(timestamp_of(&dates, "Checkup"), Some(20));
}

#[test]
fn milestones_can_be_overwritten() {
    let mut lb = LifecycleBuilder::new(3);
    lb.set_hatch_date(100);
    lb.set_hatch_date(200);
    assert_eq!(lb.hatch_date, Some(200));
    let dates = lb.get_all_dates();
    assert_eq!(dates.len(), 1);
    assert_eq!(timestamp_of(&dates, "hatch_date"), Some(200));
}
