use fittrack::calendar::Date;
use fittrack::db::model::WorkoutSet;
use fittrack::services::volume::{
    orphaned_variations, sets_per_muscle_group, variation_lookup, MuscleGroupVolume,
    VariationGroup,
};

fn set(id: i32, variation_id: i32) -> WorkoutSet {
    WorkoutSet {
        id,
        user_id: 1,
        workout_session_id: None,
        variation_id,
        weight_bits: 0,
        reps: 10,
        performed_on: Date::from_ymd(2024, 6, 1).unwrap(),
    }
}

fn pair(muscle_group_id: i32, variation_id: i32) -> VariationGroup {
    VariationGroup { muscle_group_id, variation_id }
}

#[test]
fn lookup_leads_from_variation_to_muscle_group() {
    let lookup = variation_lookup(&vec![pair(1, 10), pair(1, 11), pair(2, 20)]);
    assert_eq!(lookup.len(), 3);
    assert_eq!(lookup.get(&10), Some(&1));
    assert_eq!(lookup.get(&11), Some(&1));
    assert_eq!(lookup.get(&20), Some(&2));
    assert_eq!(lookup.get(&1), None);
}

#[test]
fn lookup_takes_the_last_row_of_a_variation() {
    let lookup = variation_lookup(&vec![pair(1, 10), pair(2, 10)]);
    assert_eq!(lookup.len(), 1);
    assert_eq!(lookup.get(&10), Some(&2));
}

#[test]
fn sets_are_counted_for_their_muscle_group() {
    let lookup = variation_lookup(&vec![pair(1, 10), pair(1, 11), pair(2, 20), pair(3, 30)]);
    let sets = vec![set(1, 20), set(2, 10), set(3, 11), set(4, 20), set(5, 10)];
    let summary = sets_per_muscle_group(&sets, &lookup);
    assert_eq!(
        summary,
        vec![
            MuscleGroupVolume { muscle_group_id: 2, total_sets: 2 },
            MuscleGroupVolume { muscle_group_id: 1, total_sets: 3 },
        ]
    );
}

#[test]
fn sets_of_unknown_variations_are_left_out() {
    let lookup = variation_lookup(&vec![pair(1, 10)]);
    let sets = vec![set(1, 99), set(2, 10), set(3, 98), set(4, 10), set(5, 99)];
    let summary = sets_per_muscle_group(&sets, &lookup);
    assert_eq!(summary, vec![MuscleGroupVolume { muscle_group_id: 1, total_sets: 2 }]);
    let total: i64 = summary.iter().map(|entry| entry.total_sets).sum();
    assert_eq!(total, 2);
    assert_eq!(orphaned_variations(&sets, &lookup), vec![99, 98, 99]);
}

#[test]
fn summary_has_no_entry_without_a_set() {
    let lookup = variation_lookup(&vec![pair(1, 10), pair(2, 20)]);
    assert_eq!(sets_per_muscle_group(&Vec::new(), &lookup), Vec::new());
    let summary = sets_per_muscle_group(&vec![set(1, 99)], &lookup);
    assert_eq!(summary, Vec::new());
    let summary = sets_per_muscle_group(&vec![set(1, 20)], &lookup);
    assert_eq!(summary, vec![MuscleGroupVolume { muscle_group_id: 2, total_sets: 1 }]);
    assert_eq!(orphaned_variations(&vec![set(1, 20)], &lookup), Vec::<i32>::new());
}
