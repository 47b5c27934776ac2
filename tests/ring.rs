use restop::ring::Ring;

fn collect(r: &Ring<f64>) -> Vec<f64> {
    let mut it = r.new_to_old_iter();
    let mut out = Vec::new();
    while let Some(v) = it.next() {
        out.push(*v);
    }
    out
}

#[test]
fn ring_scenario_capacity_three() {
    let mut r: Ring<f64> = Ring::new(3);
    r.insert_at_first(10.0);
    r.insert_at_first(20.0);
    r.insert_at_first(30.0);
    assert_eq!(r.newest(), Some(&30.0));
    assert_eq!(collect(&r), vec![30.0, 20.0, 10.0]);
    r.insert_at_first(40.0);
    assert_eq!(r.newest(), Some(&40.0));
    assert_eq!(collect(&r), vec![40.0, 30.0, 20.0]);
}

#[test]
fn ring_occupancy_is_min_of_inserts_and_capacity() {
    for cap in 0..6usize {
        let mut r: Ring<u32> = Ring::new(cap);
        for n in 0..12u32 {
            assert_eq!(r.len(), std::cmp::min(n as usize, cap));
            r.insert_at_first(n);
        }
    }
}

#[test]
fn ring_newest_is_last_inserted() {
    let mut r: Ring<u32> = Ring::new(4);
    assert_eq!(r.newest(), None);
    for v in [5u32, 9, 1, 7, 3, 8] {
        r.insert_at_first(v);
        assert_eq!(r.newest(), Some(&v));
    }
}

#[test]
fn ring_wraparound_keeps_last_capacity_values() {
    let cap = 5usize;
    for k in 0..13u32 {
        let mut r: Ring<u32> = Ring::new(cap);
        let total = cap as u32 + k;
        for v in 1..=total {
            r.insert_at_first(v);
        }
        let mut it = r.new_to_old_iter();
        assert_eq!(it.len(), cap);
        let mut got = Vec::new();
        while let Some(v) = it.next() {
            got.push(*v);
        }
        let want: Vec<u32> = (total - cap as u32 + 1..=total).rev().collect();
        assert_eq!(got, want);
        assert!(it.next().is_none());
    }
}

#[test]
fn ring_reads_are_restartable() {
    let mut r: Ring<f64> = Ring::new(4);
    for v in [1.5, 2.5, 3.5, 4.5, 5.5, 6.5] {
        r.insert_at_first(v);
    }
    let first = collect(&r);
    let second = collect(&r);
    assert_eq!(first, second);
    assert_eq!(first, vec![6.5, 5.5, 4.5, 3.5]);
}

#[test]
fn ring_of_capacity_zero_stores_nothing() {
    let mut r: Ring<u8> = Ring::new(0);
    r.insert_at_first(1);
    r.insert_at_first(2);
    assert_eq!(r.len(), 0);
    assert_eq!(r.newest(), None);
    assert_eq!(r.new_to_old_iter().len(), 0);
}

#[test]
fn ring_name_keeps_content() {
    let mut r: Ring<u8> = Ring::new(2);
    r.insert_at_first(7);
    let r = r.name("cpu");
    assert_eq!(r.name, "cpu");
    assert_eq!(r.newest(), Some(&7));
}
