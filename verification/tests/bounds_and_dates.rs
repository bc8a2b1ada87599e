use cargo_bisect_rustc::bounds::{
    bound_kinds, check_bounds, check_bounds_at, date_is_future, fixup_targets, get_end_date,
    get_start_date, Bound, BoundKinds,
};
use cargo_bisect_rustc::dates::{parse_date, today_day, Day};
use cargo_bisect_rustc::errors::BisectError;
use cargo_bisect_rustc::report::format_day;

fn chrono_today() -> Day {
    Day {
        num: chrono::Datelike::num_days_from_ce(&chrono::Utc::now().date_naive()) as i64,
    }
}

// Start and end date validations
#[test]
fn test_check_bounds_valid_bounds() {
    let date1 = chrono_today().pred();
    let date2 = chrono_today().pred();
    assert!(check_bounds(&Some(Bound::Date(date1)), &Some(Bound::Date(date2))).is_ok());
}

#[test]
fn test_check_bounds_invalid_start_after_end() {
    let start = chrono_today();
    let end = chrono_today().pred();
    assert!(check_bounds(&Some(Bound::Date(start)), &Some(Bound::Date(end))).is_err());
}

#[test]
fn test_check_bounds_invalid_start_after_current() {
    let start = chrono_today().succ();
    let end = chrono_today();
    assert!(check_bounds(&Some(Bound::Date(start)), &Some(Bound::Date(end))).is_err());
}

#[test]
fn test_check_bounds_invalid_end_after_current() {
    let start = chrono_today();
    let end = chrono_today().succ();
    assert!(check_bounds(&Some(Bound::Date(start)), &Some(Bound::Date(end))).is_err());
}

#[test]
fn check_bounds_exact_errors() {
    let today = Day { num: 1000 };
    let d = |n: i64| Some(Bound::Date(Day { num: n }));
    assert_eq!(
        check_bounds_at(&d(900), &d(800), today),
        Err(BisectError::StartAfterEnd)
    );
    assert_eq!(
        check_bounds_at(&d(1001), &d(1002), today),
        Err(BisectError::StartInFuture)
    );
    assert_eq!(
        check_bounds_at(&d(900), &d(1001), today),
        Err(BisectError::EndInFuture)
    );
    assert_eq!(check_bounds_at(&d(900), &d(1000), today), Ok(()));
    assert_eq!(check_bounds_at(&None, &d(1001), today), Ok(()));
    assert_eq!(check_bounds_at(&d(1001), &None, today), Ok(()));
}

#[test]
fn today_matches_clock() {
    // the library's clock wrapper and a direct reading agree
    let a = today_day();
    let b = chrono_today();
    assert!((a.num - b.num).abs() <= 1);
}

#[test]
fn parse_date_values() {
    let d = parse_date("2019-01-01").unwrap();
    let nd = chrono::NaiveDate::from_ymd_opt(2019, 1, 1).unwrap();
    assert_eq!(d.num, chrono::Datelike::num_days_from_ce(&nd) as i64);
    assert_eq!(parse_date("2019-01-01").unwrap(), d);
    assert!(parse_date("2019-02-29").is_none());
    assert!(parse_date("2020-02-29").is_some());
    assert!(parse_date("2019-13-01").is_none());
    assert!(parse_date("2019-00-10").is_none());
    assert!(parse_date("not-a-date").is_none());
    assert!(parse_date("2019-1-1").is_none());
    assert!(parse_date("").is_none());
}

#[test]
fn format_day_round_trip() {
    let d = parse_date("2019-01-01").unwrap();
    assert_eq!(format_day(d).unwrap(), "2019-01-01");
    let e = parse_date("0987-12-05").unwrap();
    assert_eq!(format_day(e).unwrap(), "0987-12-05");
    assert_eq!(format_day(d.pred()).unwrap(), "2018-12-31");
    assert_eq!(format_day(d.succ()).unwrap(), "2019-01-02");
    // the last renderable day, and the first days outside years 1..=9999
    assert_eq!(format_day(Day { num: 3_652_059 }).unwrap(), "9999-12-31");
    assert!(format_day(Day { num: 3_652_060 }).is_none());
    assert!(format_day(Day { num: 0 }).is_none());
}

#[test]
fn bound_parsing() {
    match Bound::from_str("2021-05-06") {
        Bound::Date(d) => {
            let nd = chrono::NaiveDate::from_ymd_opt(2021, 5, 6).unwrap();
            assert_eq!(d.num, chrono::Datelike::num_days_from_ce(&nd) as i64);
        }
        Bound::Commit(_) => panic!("expected a date"),
    }
    match Bound::from_str("1.58.0") {
        Bound::Commit(c) => assert_eq!(c, "1.58.0"),
        Bound::Date(_) => panic!("expected a tag"),
    }
    match Bound::from_str("927c55d86b0be44337f37cf5b0a76fb8ba86e06c") {
        Bound::Commit(c) => assert_eq!(c, "927c55d86b0be44337f37cf5b0a76fb8ba86e06c"),
        Bound::Date(_) => panic!("expected a commit"),
    }
}

#[test]
fn mixed_bounds_rejected() {
    let day = Day { num: 700000 };
    let commit = Bound::Commit("abcdef".to_string());
    assert_eq!(
        bound_kinds(&Some(commit.clone()), &Some(Bound::Date(day))),
        Err(BisectError::MixedBounds)
    );
    assert_eq!(
        bound_kinds(&Some(Bound::Date(day)), &Some(Bound::Date(day))),
        Ok(BoundKinds::Dates)
    );
    assert_eq!(
        bound_kinds(&None, &Some(commit.clone())),
        Ok(BoundKinds::Commits)
    );
    assert_eq!(bound_kinds(&None, &None), Ok(BoundKinds::Unbounded));
}

#[test]
fn fixup_picks_tags_only() {
    let day = Day { num: 700000 };
    let tag = Some(Bound::Commit("1.62.0".to_string()));
    let sha = Some(Bound::Commit("deadbeef".to_string()));
    let date = Some(Bound::Date(day));
    assert_eq!(fixup_targets(&tag, &date), (true, false));
    assert_eq!(fixup_targets(&date, &tag), (false, true));
    assert_eq!(fixup_targets(&tag, &tag), (true, true));
    // a bare commit on one side disables the rewrite
    assert_eq!(fixup_targets(&tag, &sha), (false, false));
    assert_eq!(fixup_targets(&None, &date), (false, false));
}

#[test]
fn default_dates() {
    let today = Day { num: 1000 };
    let dflt = Some(Day { num: 900 });
    let end = Some(Bound::Date(Day { num: 800 }));
    assert_eq!(get_end_date(&end, dflt, today), Day { num: 800 });
    assert_eq!(get_end_date(&None, dflt, today), Day { num: 900 });
    assert_eq!(get_end_date(&None, None, today), Day { num: 1000 });
    let start = Some(Bound::Date(Day { num: 500 }));
    assert_eq!(get_start_date(&start, &end, dflt, today), Day { num: 500 });
    assert_eq!(get_start_date(&None, &end, dflt, today), Day { num: 800 });
    assert!(date_is_future(Day { num: 1001 }, today));
    assert!(!date_is_future(Day { num: 1000 }, today));
}
