use cargo_bisect_rustc::least_satisfying::{bisect_over, Bisector, Satisfies};

// A conclusive monotone predicate over five candidates, Yes from index
// 3 on: the engine must land on 3, within ceil(log2 5) = 3 probes.
#[test]
fn bisector_conclusive_boundary() {
    let verdicts = vec![
        Satisfies::No,
        Satisfies::No,
        Satisfies::No,
        Satisfies::Yes,
        Satisfies::Yes,
    ];
    assert_eq!(bisect_over(&verdicts), 3);

    let mut b = Bisector::new(5);
    let mut probes: usize = 0;
    while let Some(i) = b.next_probe() {
        probes += 1;
        let v = if i >= 3 { Satisfies::Yes } else { Satisfies::No };
        b.record(i, v);
    }
    assert_eq!(b.result(), 3);
    assert!(probes <= 3, "took {} probes", probes);
    assert!(!b.inconclusive());
}

// The same predicate, but index 3 answers Unknown on its first probe
// and Yes on the retry: the boundary is still 3.
#[test]
fn bisector_unknown_retry() {
    let mut b = Bisector::new(5);
    let mut asked = [0usize; 5];
    while let Some(i) = b.next_probe() {
        asked[i] += 1;
        let v = if i == 3 && asked[i] == 1 {
            Satisfies::Unknown
        } else if i >= 3 {
            Satisfies::Yes
        } else {
            Satisfies::No
        };
        b.record(i, v);
    }
    assert_eq!(b.result(), 3);
    assert_eq!(asked[3], 2);
    assert!(!b.inconclusive());
}

// Every probe No: the engine falls back to the last candidate, which a
// caller's final re-probe will then contradict.
#[test]
fn bisector_all_no() {
    let verdicts = vec![Satisfies::No; 4];
    assert_eq!(bisect_over(&verdicts), 3);
}

// A single candidate that answers Yes.
#[test]
fn bisector_single_yes() {
    let verdicts = vec![Satisfies::Yes];
    assert_eq!(bisect_over(&verdicts), 0);
}

// Every probe Unknown: the engine abandons each index after one retry
// and reports the midpoint of the starved interval as a guess.
#[test]
fn bisector_saturated() {
    let mut b = Bisector::new(5);
    let mut probes: usize = 0;
    while let Some(i) = b.next_probe() {
        probes += 1;
        assert!(probes <= 20);
        b.record(i, Satisfies::Unknown);
    }
    assert!(b.inconclusive());
    let r = b.result();
    assert!(r < 5);
    assert_eq!(r, 2);
    // one retry per index, nothing more
    assert_eq!(probes, 10);
}
