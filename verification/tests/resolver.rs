use depscan::executor::CONCURRENCY_LIMIT;
use depscan::graph::DependencyGraph;
use depscan::package::{Manifest, PackageInfo, Repository};
use depscan::resolver::{Dispatch, Resolver};

fn pair(name: &str, version: &str) -> (String, String) {
    (name.to_string(), version.to_string())
}

fn manifest(deps: &[(&str, &str)]) -> Manifest {
    Manifest { dependencies: deps.iter().map(|(n, v)| pair(n, v)).collect() }
}

fn package(name: &str, version: &str, deps: &[(&str, &str)]) -> PackageInfo {
    PackageInfo {
        name: name.to_string(),
        version: version.to_string(),
        license: Some("MIT".to_string()),
        dependencies: deps.iter().map(|(n, v)| pair(n, v)).collect(),
        repository: None,
    }
}

/// Runs a resolution to its end against `registry`, answering the requests
/// in the order in which they were handed out, and returns the graph with
/// the keys that were fetched.
fn resolve(
    m: &Manifest,
    registry: &dyn Fn(&str, &str) -> Option<PackageInfo>,
) -> (DependencyGraph, Vec<(String, String)>) {
    let mut resolver = Resolver::new(m);
    let mut fetched: Vec<(String, String)> = Vec::new();
    let mut pending: Vec<Dispatch> = Vec::new();
    loop {
        while let Some(d) = resolver.next_request() {
            fetched.push((d.name.clone(), d.version.clone()));
            pending.push(d);
            assert!(resolver.in_flight() <= CONCURRENCY_LIMIT);
        }
        if pending.is_empty() {
            break;
        }
        let d = pending.remove(0);
        assert!(resolver.record(d.ticket, registry(&d.name, &d.version)));
    }
    assert!(resolver.is_finished());
    assert_eq!(resolver.fetch_count(), fetched.len());
    (resolver.into_graph(), fetched)
}

fn diamond_registry(name: &str, version: &str) -> Option<PackageInfo> {
    match (name, version) {
        ("a", "1") => Some(package("a", "1.0.0", &[("c", "^1")])),
        ("b", "1") => Some(package("b", "1.2.0", &[("c", "^1")])),
        ("c", "^1") => Some(package("c", "1.9.0", &[])),
        _ => None,
    }
}

#[test]
fn node_keys_are_distinct_and_each_key_is_fetched_once() {
    let registry = |name: &str, _version: &str| match name {
        "a" => Some(package("a", "1", &[("b", "1"), ("c", "1"), ("b", "1")])),
        "b" => Some(package("b", "1", &[("c", "1"), ("a", "1")])),
        "c" => Some(package("c", "1", &[("a", "1"), ("b", "1"), ("c", "1")])),
        _ => None,
    };
    let (graph, fetched) = resolve(&manifest(&[("a", "1"), ("b", "1"), ("a", "1")]), &registry);
    assert_eq!(fetched, vec![pair("a", "1"), pair("b", "1"), pair("c", "1")]);
    assert_eq!(graph.len(), 3);
    let keys: Vec<(String, String)> = graph.nodes().iter().map(|n| n.key().clone()).collect();
    assert_eq!(keys, vec![pair("a", "1"), pair("b", "1"), pair("c", "1")]);
}

#[test]
fn same_name_with_another_version_is_another_node() {
    let registry = |name: &str, version: &str| Some(package(name, version, &[]));
    let (graph, fetched) = resolve(&manifest(&[("a", "1"), ("a", "2")]), &registry);
    assert_eq!(fetched, vec![pair("a", "1"), pair("a", "2")]);
    assert_eq!(graph.len(), 2);
    assert!(graph.contains(&"a".to_string(), &"1".to_string()));
    assert!(graph.contains(&"a".to_string(), &"2".to_string()));
    assert!(!graph.contains(&"a".to_string(), &"3".to_string()));
}

#[test]
fn diamond_dependency_collapses_to_one_node() {
    let (graph, fetched) = resolve(&manifest(&[("a", "1"), ("b", "1")]), &diamond_registry);
    assert_eq!(fetched, vec![pair("a", "1"), pair("b", "1"), pair("c", "^1")]);
    assert_eq!(graph.len(), 3);
    let shared = graph.nodes().iter().filter(|n| n.key() == &pair("c", "^1")).count();
    assert_eq!(shared, 1);
    assert_eq!(graph.get(&"c".to_string(), &"^1".to_string()).unwrap().version, "1.9.0");
    assert_eq!(graph.root(), &vec![pair("a", "1"), pair("b", "1")]);
}

#[test]
fn diamond_child_is_attributed_to_both_parents() {
    let (graph, _) = resolve(&manifest(&[("a", "1"), ("b", "1")]), &diamond_registry);
    let of_a = graph.children(&Some(pair("a", "1"))).unwrap();
    let of_b = graph.children(&Some(pair("b", "1"))).unwrap();
    assert!(of_a.contains(&pair("c", "^1")));
    assert!(of_b.contains(&pair("c", "^1")));
}

#[test]
fn diamond_edge_of_the_second_parent_is_not_added_again() {
    let (graph, _) = resolve(&manifest(&[("a", "1"), ("b", "1")]), &diamond_registry);
    // The first parent to reach the child holds it twice: once as declared,
    // once added when the child was resolved. The second parent holds only
    // what it declared.
    assert_eq!(
        graph.children(&Some(pair("a", "1"))).unwrap(),
        &vec![pair("c", "^1"), pair("c", "^1")]
    );
    assert_eq!(graph.children(&Some(pair("b", "1"))).unwrap(), &vec![pair("c", "^1")]);
    assert_eq!(graph.children(&Some(pair("c", "^1"))).unwrap(), &Vec::<(String, String)>::new());
    assert_eq!(graph.children(&Some(pair("d", "1"))), None);
}

#[test]
fn absent_registry_gives_an_empty_graph() {
    let absent = |_: &str, _: &str| None;
    let (graph, fetched) = resolve(&manifest(&[("a", "1"), ("b", "2"), ("c", "3")]), &absent);
    assert_eq!(fetched.len(), 3);
    assert_eq!(graph.len(), 0);
    assert!(graph.nodes().is_empty());
    assert!(graph.root().is_empty());
    assert_eq!(graph.children(&None), Some(&Vec::new()));
}

#[test]
fn empty_manifest_is_finished_at_once() {
    let mut resolver = Resolver::new(&manifest(&[]));
    assert!(resolver.is_finished());
    assert!(resolver.next_request().is_none());
    let graph = resolver.into_graph();
    assert_eq!(graph.len(), 0);
    assert!(graph.root().is_empty());
}

#[test]
fn at_most_five_fetches_are_in_flight() {
    let names: Vec<String> = (0..23).map(|i| format!("pkg{}", i)).collect();
    let m = Manifest { dependencies: names.iter().map(|n| (n.clone(), "1".to_string())).collect() };
    let mut resolver = Resolver::new(&m);
    let mut pending: Vec<Dispatch> = Vec::new();
    let mut started = 0;
    let mut most = 0;
    loop {
        while let Some(d) = resolver.next_request() {
            pending.push(d);
            started += 1;
        }
        assert_eq!(resolver.in_flight(), pending.len());
        assert!(pending.len() <= 5);
        most = most.max(pending.len());
        if pending.is_empty() {
            break;
        }
        assert!(resolver.next_request().is_none());
        // Release the request that was handed out last.
        let d = pending.pop().unwrap();
        assert!(resolver.record(d.ticket, None));
    }
    assert_eq!(CONCURRENCY_LIMIT, 5);
    assert_eq!(most, 5);
    assert_eq!(started, 23);
    assert!(resolver.is_finished());
}

#[test]
fn failed_package_creates_no_node_and_no_edge() {
    let registry = |name: &str, _: &str| match name {
        "a" => Some(package("a", "1", &[("gone", "1"), ("b", "1")])),
        "b" => Some(package("b", "1", &[])),
        _ => None,
    };
    let (graph, fetched) = resolve(&manifest(&[("gone", "0"), ("a", "1")]), &registry);
    assert_eq!(fetched, vec![pair("gone", "0"), pair("a", "1"), pair("gone", "1"), pair("b", "1")]);
    assert_eq!(graph.len(), 2);
    assert_eq!(graph.root(), &vec![pair("a", "1")]);
    assert_eq!(
        graph.children(&Some(pair("a", "1"))).unwrap(),
        &vec![pair("gone", "1"), pair("b", "1"), pair("b", "1")]
    );
    assert!(graph.get(&"gone".to_string(), &"1".to_string()).is_none());
}

#[test]
fn record_ignores_unknown_and_spent_tickets() {
    let mut resolver = Resolver::new(&manifest(&[("a", "1")]));
    assert!(!resolver.record(0, Some(package("a", "1", &[]))));
    let d = resolver.next_request().unwrap();
    assert_eq!(d.name, "a");
    assert_eq!(d.version, "1");
    assert!(!resolver.record(d.ticket + 1, Some(package("x", "1", &[]))));
    assert_eq!(resolver.graph().len(), 0);
    assert!(resolver.record(d.ticket, Some(package("a", "1", &[]))));
    assert!(!resolver.record(d.ticket, Some(package("a", "1", &[]))));
    assert_eq!(resolver.graph().len(), 1);
    assert!(resolver.is_finished());
}

#[test]
fn node_is_kept_under_the_requested_key() {
    let registry = |name: &str, _: &str| Some(package(name, "9.9.9", &[]));
    let (graph, _) = resolve(&manifest(&[("a", "^1.0.0")]), &registry);
    let info = graph.get(&"a".to_string(), &"^1.0.0".to_string()).unwrap();
    assert_eq!(info.version, "9.9.9");
    assert_eq!(info.license, Some("MIT".to_string()));
    assert_eq!(graph.root(), &vec![pair("a", "^1.0.0")]);
    assert_eq!(graph.position(&"a".to_string(), &"^1.0.0".to_string()), Some(0));
    assert_eq!(graph.position(&"a".to_string(), &"9.9.9".to_string()), None);
}

#[test]
fn requests_are_handed_out_breadth_first() {
    let registry = |name: &str, _: &str| match name {
        "a" => Some(package("a", "1", &[("a1", "1"), ("a2", "1")])),
        "b" => Some(package("b", "1", &[("b1", "1")])),
        other => Some(package(other, "1", &[])),
    };
    let (graph, fetched) = resolve(&manifest(&[("a", "1"), ("b", "1")]), &registry);
    assert_eq!(
        fetched,
        vec![pair("a", "1"), pair("b", "1"), pair("a1", "1"), pair("a2", "1"), pair("b1", "1")]
    );
    assert_eq!(graph.len(), 5);
}

#[test]
fn manifest_section_is_read_in_order() {
    let m = Manifest::from_section(Some(vec![
        ("left-pad".to_string(), Some("1.0.0".to_string())),
        ("odd".to_string(), None),
    ]));
    assert_eq!(m.dependencies, vec![pair("left-pad", "1.0.0"), pair("odd", "")]);
    assert!(Manifest::from_section(None).dependencies.is_empty());
    assert!(Manifest::from_section(Some(Vec::new())).dependencies.is_empty());
}

#[test]
fn package_info_clone_keeps_the_fields() {
    let mut p = package("a", "1", &[("b", "2")]);
    p.repository =
        Some(Repository { repo_type: "git".to_string(), url: "https://github.com/o/a".to_string() });
    let q = p.clone();
    assert_eq!(q.name, "a");
    assert_eq!(q.version, "1");
    assert_eq!(q.license, Some("MIT".to_string()));
    assert_eq!(q.dependencies, vec![pair("b", "2")]);
    let repo = q.repository.unwrap();
    assert_eq!(repo.repo_type, "git");
    assert_eq!(repo.url, "https://github.com/o/a");
}

/// A small generator of pseudo-random numbers with a fixed seed.
fn next_random(state: &mut u64) -> u64 {
    *state = state.wrapping_mul(6364136223846793005).wrapping_add(1442695040888963407);
    *state >> 33
}

#[test]
fn invariants_hold_under_shuffled_answers() {
    let mut seed: u64 = 2024;
    // Forty packages; each declares up to four others, and every seventh is absent.
    let mut declared: Vec<Vec<(String, String)>> = Vec::new();
    for _ in 0..40 {
        let count = next_random(&mut seed) % 5;
        let mut deps = Vec::new();
        for _ in 0..count {
            deps.push((format!("p{}", next_random(&mut seed) % 40), "1".to_string()));
        }
        declared.push(deps);
    }
    let m = manifest(&[("p0", "1"), ("p1", "1"), ("p2", "1"), ("p0", "1")]);
    let mut resolver = Resolver::new(&m);
    let mut pending: Vec<Dispatch> = Vec::new();
    let mut fetched: Vec<(String, String)> = Vec::new();
    loop {
        while let Some(d) = resolver.next_request() {
            assert!(!fetched.contains(&(d.name.clone(), d.version.clone())));
            fetched.push((d.name.clone(), d.version.clone()));
            pending.push(d);
        }
        assert!(pending.len() <= 5);
        assert_eq!(resolver.in_flight(), pending.len());
        if pending.is_empty() {
            break;
        }
        let pick = (next_random(&mut seed) as usize) % pending.len();
        let d = pending.remove(pick);
        let index: usize = d.name[1..].parse().unwrap();
        let answer = if index % 7 == 6 {
            None
        } else {
            Some(PackageInfo {
                name: d.name.clone(),
                version: "1.0.0".to_string(),
                license: None,
                dependencies: declared[index].clone(),
                repository: None,
            })
        };
        assert!(resolver.record(d.ticket, answer));
    }
    assert!(resolver.is_finished());
    let graph = resolver.into_graph();
    let keys: Vec<(String, String)> = graph.nodes().iter().map(|n| n.key().clone()).collect();
    for (i, key) in keys.iter().enumerate() {
        assert!(!keys[..i].contains(key));
        assert!(fetched.contains(key));
    }
    for node in graph.nodes() {
        let wanted = &node.info().dependencies;
        assert_eq!(&node.children()[..wanted.len()], &wanted[..]);
        for added in &node.children()[wanted.len()..] {
            assert!(keys.contains(added));
        }
    }
    for child in graph.root() {
        assert!(keys.contains(child));
    }
    assert!(graph.len() > 3);
}
