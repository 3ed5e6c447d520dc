use depscan::executor::Executor;
use depscan::table::{Key, Table};

#[test]
fn executor_starts_in_order_and_stops_at_the_limit() {
    let mut e: Executor<u64> = Executor::new(2);
    assert!(e.is_idle());
    assert_eq!(e.limit(), 2);
    for unit in [10u64, 20, 30] {
        e.submit(unit);
    }
    assert_eq!(e.queued(), 3);
    assert_eq!(e.next_waiting(), Some(&10));
    let t0 = e.start().unwrap();
    let t1 = e.start().unwrap();
    assert_ne!(t0, t1);
    assert_eq!(e.start(), None);
    assert_eq!(e.in_flight(), 2);
    assert_eq!(e.queued(), 1);
    assert_eq!(e.unit(t0), Some(&10));
    assert_eq!(e.unit(t1), Some(&20));
    assert_eq!(e.finish(t0), Some(10));
    assert_eq!(e.finish(t0), None);
    assert_eq!(e.unit(t0), None);
    let t2 = e.start().unwrap();
    assert_ne!(t2, t0);
    assert_ne!(t2, t1);
    assert_eq!(e.unit(t2), Some(&30));
    assert_eq!(e.start(), None);
    assert_eq!(e.finish(t2), Some(30));
    assert_eq!(e.finish(t1), Some(20));
    assert!(e.is_idle());
}

#[test]
fn executor_never_starts_a_unit_twice() {
    let mut e: Executor<u64> = Executor::new(3);
    for unit in 0..10u64 {
        e.submit(unit);
    }
    let mut started: Vec<u64> = Vec::new();
    let mut running: Vec<u64> = Vec::new();
    loop {
        while let Some(t) = e.start() {
            started.push(*e.unit(t).unwrap());
            running.push(t);
            assert!(e.in_flight() <= 3);
        }
        match running.pop() {
            Some(t) => assert!(e.finish(t).is_some()),
            None => break,
        }
    }
    started.sort();
    assert_eq!(started, (0..10u64).collect::<Vec<u64>>());
}

#[test]
fn executor_withdraw_and_replace() {
    let mut e: Executor<(String, bool)> = Executor::new(1);
    assert_eq!(e.withdraw(), None);
    e.submit(("a".to_string(), false));
    e.submit(("b".to_string(), false));
    assert_eq!(e.withdraw(), Some(("a".to_string(), false)));
    let t = e.start().unwrap();
    assert_eq!(e.replace(t, ("b".to_string(), true)), Some(("b".to_string(), false)));
    assert_eq!(e.unit(t), Some(&("b".to_string(), true)));
    assert_eq!(e.replace(t + 1, ("c".to_string(), true)), None);
    assert_eq!(e.in_flight(), 1);
    assert_eq!(e.finish(t), Some(("b".to_string(), true)));
    assert!(e.is_idle());
}

#[test]
fn table_put_replaces_in_place() {
    let mut t: Table<String, u64> = Table::new();
    assert_eq!(t.len(), 0);
    t.put("a".to_string(), 1);
    t.put("b".to_string(), 2);
    t.put("a".to_string(), 3);
    assert_eq!(t.len(), 2);
    assert_eq!(t.entries(), &vec![("a".to_string(), 3), ("b".to_string(), 2)]);
    assert_eq!(t.get(&"a".to_string()), Some(&3));
    assert_eq!(t.get(&"b".to_string()), Some(&2));
    assert_eq!(t.get(&"c".to_string()), None);
    assert!(t.contains_key(&"b".to_string()));
    assert!(!t.contains_key(&"".to_string()));
}

#[test]
fn table_keys_compare_by_both_parts() {
    let a = ("x".to_string(), "1".to_string());
    let b = ("x".to_string(), "2".to_string());
    assert!(a.same(&a.clone()));
    assert!(!a.same(&b));
    assert!("x".to_string().same(&"x".to_string()));
    assert!(!"x".to_string().same(&"y".to_string()));
    let mut t: Table<(String, String), u64> = Table::new();
    t.put(a.clone(), 1);
    t.put(b.clone(), 2);
    assert_eq!(t.len(), 2);
    assert_eq!(t.get(&a), Some(&1));
    assert_eq!(t.get(&b), Some(&2));
}
