use frecency::engine::{plan_update, visit_age, visit_ages, DAY_IN_MILLI_SEC, DEFAULT_MAX_VISIT_LOG_NUM};

// The decay weight of each visit, summed as the command-line tool does.
fn score_of(ages: &[u64]) -> f64 {
    let lambda = std::f64::consts::LN_2 / 30.0;
    ages.iter()
        .map(|a| (-lambda * (*a as f64 / DAY_IN_MILLI_SEC as f64)).exp())
        .sum::<f64>()
}

#[test]
fn test_cals_score() {
    {
        let score = score_of(&visit_ages(1558159200000, &vec![1558159200000]));
        assert_eq!(score, 1f64);
    }
    {
        let score = score_of(&visit_ages(1558180800000, &vec![1558159200000, 1558180800000]));
        assert_eq!(score, 1.9942404238175473);
    }
    {
        let score = score_of(&visit_ages(
            1558180800000,
            &vec![1557159200000, 1558159200000, 1558180800000],
        ));
        assert_eq!(score, 2.755185482271559);
    }
}

#[test]
fn age_is_clamped_for_future_visits() {
    assert_eq!(visit_age(1000, 400), 600);
    assert_eq!(visit_age(400, 1000), 0);
    assert_eq!(visit_age(7, 7), 0);
    assert_eq!(visit_ages(1000, &vec![100, 1000, 2000]), vec![900, 0, 0]);
    assert_eq!(visit_ages(5, &vec![]), Vec::<u64>::new());
}

#[test]
fn same_time_visits_weigh_one_each() {
    let t = 1558159200000;
    assert_eq!(score_of(&visit_ages(t, &vec![t])), 1.0);
    assert_eq!(visit_ages(t, &vec![t, t, t]), vec![0, 0, 0]);
}

#[test]
fn older_single_visit_scores_lower() {
    let t0 = 1557159200000;
    let a1 = visit_ages(1558159200000, &vec![t0]);
    let a2 = visit_ages(1559180800000, &vec![t0]);
    assert!(a1[0] < a2[0]);
    assert!(score_of(&a1) > score_of(&a2));
}

#[test]
fn thirty_days_halve_a_visit() {
    let ages = visit_ages(30 * DAY_IN_MILLI_SEC, &vec![0]);
    assert_eq!(ages, vec![30 * DAY_IN_MILLI_SEC]);
    assert!((score_of(&ages) - 0.5).abs() < 1e-12);
}

#[test]
fn first_visit_plan() {
    let p = plan_update(&vec![], 1557159200000, DEFAULT_MAX_VISIT_LOG_NUM);
    assert!(p.is_first_visit);
    assert_eq!(p.history, vec![1557159200000]);
    assert!(p.evict.is_empty());
    assert_eq!(p.ages, vec![0]);
    assert_eq!(score_of(&p.ages), 1.0);
}

#[test]
fn visit_sequence_with_log_of_three() {
    let max = 3;
    let p1 = plan_update(&vec![], 1557159200000, max);
    assert!(p1.is_first_visit);
    assert_eq!(score_of(&p1.ages), 1.0);

    let p2 = plan_update(&vec![1557159200000], 1558159200000, max);
    assert!(!p2.is_first_visit);
    assert!(p2.evict.is_empty());
    assert_eq!(score_of(&p2.ages), 1.76535316833351);

    let p3 = plan_update(&vec![1557159200000, 1558159200000], 1558180800000, max);
    assert!(p3.evict.is_empty());
    assert_eq!(p3.history, vec![1557159200000, 1558159200000, 1558180800000]);
    assert_eq!(score_of(&p3.ages), 2.755185482271559);

    let other = plan_update(&vec![], 1558180800000, max);
    assert!(other.is_first_visit);
    assert!(score_of(&p3.ages) > score_of(&other.ages));

    let p4 = plan_update(
        &vec![1557159200000, 1558159200000, 1558180800000],
        1559180800000,
        max,
    );
    assert!(!p4.is_first_visit);
    assert_eq!(p4.evict, vec![1557159200000]);
    assert_eq!(
        p4.history,
        vec![1557159200000, 1558159200000, 1558180800000, 1559180800000]
    );
    assert_eq!(score_of(&p4.ages), 3.1086899382030277);
    let kept = p4.history[p4.evict.len()..].to_vec();
    assert_eq!(kept, vec![1558159200000, 1558180800000, 1559180800000]);
}

#[test]
fn log_stays_bounded_over_many_visits() {
    let max = 4;
    let mut log: Vec<u64> = Vec::new();
    for t in 1..30u64 {
        let p = plan_update(&log, t * 1000, max);
        assert_eq!(p.is_first_visit, log.is_empty());
        log = p.history[p.evict.len()..].to_vec();
        assert!(log.len() <= max);
        assert_eq!(log.last(), Some(&(t * 1000)));
    }
    assert_eq!(log, vec![26000, 27000, 28000, 29000]);
}

#[test]
fn bound_of_one_keeps_only_the_latest() {
    let p = plan_update(&vec![10, 20], 30, 1);
    assert_eq!(p.evict, vec![10, 20]);
    assert_eq!(p.ages, vec![20, 10, 0]);
}

#[test]
fn repeated_timestamps_evict_by_position() {
    let p = plan_update(&vec![5], 5, 1);
    assert!(!p.is_first_visit);
    assert_eq!(p.evict, vec![5]);
    assert_eq!(p.history[p.evict.len()..].to_vec(), vec![5]);

    let mut log: Vec<u64> = Vec::new();
    for _ in 0..21 {
        let p = plan_update(&log, 7, DEFAULT_MAX_VISIT_LOG_NUM);
        log = p.history[p.evict.len()..].to_vec();
        assert!(!log.is_empty());
    }
    assert_eq!(log, vec![7; DEFAULT_MAX_VISIT_LOG_NUM]);
}

#[test]
fn late_visit_out_of_order_is_kept() {
    let p = plan_update(&vec![100, 200, 300], 50, 3);
    assert_eq!(p.evict, vec![100]);
    assert_eq!(p.history[p.evict.len()..].to_vec(), vec![200, 300, 50]);
    assert_eq!(p.ages, vec![0, 0, 0, 0]);
}
