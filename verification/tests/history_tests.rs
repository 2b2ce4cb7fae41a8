use pet_ledger::pet_interaction::{ActivityImpact, CareHistory, PetCareActivity};

fn activity(kind: &str, timestamp: u64) -> PetCareActivity {
    PetCareActivity {
        pet_id: "rex".to_string(),
        owner: "alice".to_string(),
        activity_type: kind.to_string(),
        timestamp,
        impact: ActivityImpact {
            happiness_change: 1,
            hunger_change: 0,
            energy_change: 0,
            cleanliness_change: 0,
        },
    }
}

fn kinds(found: &[&PetCareActivity]) -> Vec<String> {
    found.iter().map(|a| a.activity_type.clone()).collect()
}

#[test]
fn new_history_is_empty() {
    let log = CareHistory::new();
    assert_eq!(log.len(), 0);
    assert!(log.recent("rex", 50).is_empty());
}

#[test]
fn recent_returns_latest_first() {
    let mut log = CareHistory::new();
    log.append("rex".to_string(), activity("feed", 10));
    log.append("rex".to_string(), activity("play", 20));
    log.append("rex".to_string(), activity("clean", 30));
    assert_eq!(kinds(&log.recent("rex", 50)), vec!["clean", "play", "feed"]);
}

#[test]
fn recent_is_cut_to_the_limit() {
    let mut log = CareHistory::new();
    log.append("rex".to_string(), activity("feed", 10));
    log.append("rex".to_string(), activity("play", 20));
    log.append("rex".to_string(), activity("clean", 30));
    assert_eq!(kinds(&log.recent("rex", 2)), vec!["clean", "play"]);
    assert_eq!(kinds(&log.recent("rex", 1)), vec!["clean"]);
    assert!(log.recent("rex", 0).is_empty());
    assert_eq!(kinds(&log.recent("rex", 3)), vec!["clean", "play", "feed"]);
}

#[test]
fn recent_sees_one_pet_only() {
    let mut log = CareHistory::new();
    log.append("rex".to_string(), activity("feed", 10));
    log.append("tom".to_string(), activity("play", 20));
    log.append("rex".to_string(), activity("clean", 30));
    assert_eq!(kinds(&log.recent("rex", 50)), vec!["clean", "feed"]);
    assert_eq!(kinds(&log.recent("tom", 50)), vec!["play"]);
    assert!(log.recent("ghost", 50).is_empty());
}

#[test]
fn append_files_by_time_whatever_the_order_of_arrival() {
    let mut log = CareHistory::new();
    log.append("rex".to_string(), activity("play", 20));
    log.append("rex".to_string(), activity("clean", 30));
    log.append("rex".to_string(), activity("feed", 10));
    log.append("rex".to_string(), activity("rest", 25));
    assert_eq!(log.len(), 4);
    assert_eq!(kinds(&log.recent("rex", 50)), vec!["clean", "rest", "play", "feed"]);
    let times: Vec<u64> = (0..log.len()).map(|i| log.entry_at(i).activity.timestamp).collect();
    assert_eq!(times, vec![10, 20, 25, 30]);
}

#[test]
fn entries_of_one_second_are_all_kept() {
    let mut log = CareHistory::new();
    log.append("rex".to_string(), activity("feed", 10));
    log.append("rex".to_string(), activity("play", 10));
    log.append("rex".to_string(), activity("clean", 10));
    assert_eq!(log.len(), 3);
    assert_eq!(kinds(&log.recent("rex", 50)), vec!["clean", "play", "feed"]);
}

#[test]
fn entry_is_filed_under_the_key_it_was_given() {
    let mut log = CareHistory::new();
    log.append("tom".to_string(), activity("feed", 10));
    assert_eq!(log.entry_at(0).pet_id, "tom");
    assert_eq!(log.entry_at(0).activity.pet_id, "rex");
    assert_eq!(log.recent("tom", 5).len(), 1);
    assert!(log.recent("rex", 5).is_empty());
}
