use raytrace::integrator::{Path, PathEnd, QueryOutcome, Step};

#[test]
fn zero_depth_is_black_without_a_query() {
    let p = Path::new(0);
    assert_eq!(p.step(), Step::Finish(PathEnd::Exhausted));
    assert_eq!(p.bounces(), 0);
}

#[test]
fn miss_escapes_to_the_background() {
    let mut p = Path::new(5);
    assert_eq!(p.step(), Step::Query);
    p.record(QueryOutcome::Hit);
    assert_eq!(p.step(), Step::Query);
    p.record(QueryOutcome::Miss);
    assert_eq!(p.step(), Step::Finish(PathEnd::Escaped));
    assert_eq!(p.bounces(), 1);
    assert_eq!(p.remaining(), 4);
}

#[test]
fn budget_runs_out_after_max_depth_hits() {
    let mut p = Path::new(3);
    for _ in 0..3 {
        assert_eq!(p.step(), Step::Query);
        p.record(QueryOutcome::Hit);
    }
    assert_eq!(p.step(), Step::Finish(PathEnd::Exhausted));
    assert_eq!(p.bounces(), 3);
    assert_eq!(p.remaining(), 0);
}

#[test]
fn ended_path_ignores_further_outcomes() {
    let mut p = Path::new(2);
    p.record(QueryOutcome::Miss);
    p.record(QueryOutcome::Hit);
    assert_eq!(p.step(), Step::Finish(PathEnd::Escaped));
    assert_eq!(p.bounces(), 0);
    assert_eq!(p.remaining(), 2);
}
