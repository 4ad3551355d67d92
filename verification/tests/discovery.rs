use replicante_core::discovery::backends::chain::discover;
use replicante_core::discovery::backends::chain::Backend;
use replicante_core::discovery::backends::chain::ChainStep;
use replicante_core::discovery::backends::chain::Iter;
use replicante_core::discovery::backends::chain::Listed;
use replicante_core::discovery::backends::http::DiscoveryResponse;
use replicante_core::discovery::backends::http::HttpRequestMethod;
use replicante_core::discovery::error::Error;
use replicante_core::discovery::error::ErrorKind;
use replicante_core::discovery::model::ClusterDiscovery;

fn listed(items: Vec<Result<ClusterDiscovery, Error>>) -> Backend {
    Backend::Listed(Listed::new(items))
}

fn next_cluster(iter: &mut Iter) -> Option<Result<ClusterDiscovery, Error>> {
    match iter.next() {
        ChainStep::Item(item) => Some(item),
        ChainStep::End => None,
        ChainStep::Request(_) => panic!("unexpected request"),
    }
}

#[test]
fn empty() {
    let mut iter = Iter::new(Vec::new());
    assert!(next_cluster(&mut iter).is_none());
}

#[test]
fn only_empty_iters() {
    let cluster_a = listed(Vec::new());
    let cluster_b = listed(Vec::new());
    let cluster_c = listed(Vec::new());
    let mut iter = Iter::new(vec![cluster_a, cluster_b, cluster_c]);
    assert!(next_cluster(&mut iter).is_none());
}

#[test]
fn with_backend() {
    let test1 = ClusterDiscovery::new(
        "test1",
        vec![
            "http://node1:port/".into(),
            "http://node2:port/".into(),
            "http://node3:port/".into(),
        ],
    );
    let test2 = ClusterDiscovery::new(
        "test2",
        vec!["http://node1:port/".into(), "http://node3:port/".into()],
    );
    let backend = listed(vec![Ok(test1.clone()), Ok(test2.clone())]);
    let mut iter = Iter::new(vec![backend]);
    let next = next_cluster(&mut iter).unwrap().unwrap();
    assert_eq!(next, test1);
    let next = next_cluster(&mut iter).unwrap().unwrap();
    assert_eq!(next, test2);
    assert!(next_cluster(&mut iter).is_none());
}

#[test]
fn with_more_backends() {
    let test0 = ClusterDiscovery::new(
        "mongodb-rs",
        vec![
            "http://node1:37017".into(),
            "http://node2:37017".into(),
            "http://node3:37017".into(),
        ],
    );
    let test1 = ClusterDiscovery::new(
        "test1",
        vec![
            "http://node1:port/".into(),
            "http://node2:port/".into(),
            "http://node3:port/".into(),
        ],
    );
    let test2 = ClusterDiscovery::new(
        "test2",
        vec!["http://node1:port/".into(), "http://node3:port/".into()],
    );
    let cluster_a = listed(vec![Ok(test0.clone())]);
    let cluster_b = listed(Vec::new());
    let cluster_c = listed(vec![Ok(test1.clone()), Ok(test2.clone())]);
    let mut iter = Iter::new(vec![cluster_a, cluster_b, cluster_c]);
    let next = next_cluster(&mut iter).unwrap().unwrap();
    assert_eq!(next, test0);
    let next = next_cluster(&mut iter).unwrap().unwrap();
    assert_eq!(next, test1);
    let next = next_cluster(&mut iter).unwrap().unwrap();
    assert_eq!(next, test2);
    assert!(next_cluster(&mut iter).is_none());
}

#[test]
fn mock_yields_results_then_ends() {
    let error = Error { kind: ErrorKind::HttpRequest };
    let mut iter = Iter::mock(vec![Err(error), Ok(ClusterDiscovery::new("a", Vec::new()))]);
    assert_eq!(next_cluster(&mut iter), Some(Err(Error { kind: ErrorKind::HttpRequest })));
    assert_eq!(next_cluster(&mut iter).unwrap().unwrap().cluster_id, "a");
    assert!(next_cluster(&mut iter).is_none());
    assert!(next_cluster(&mut iter).is_none());
}

#[test]
fn http_pages_follow_the_cursor() {
    let mut iter = discover(vec![(HttpRequestMethod::Post, String::from("http://discovery/"))]);
    let request = match iter.next() {
        ChainStep::Request(request) => request,
        _ => panic!("expected a request"),
    };
    assert_eq!(request.backend, 0);
    assert_eq!(request.method, HttpRequestMethod::Post);
    assert_eq!(request.url, "http://discovery/");
    assert_eq!(request.cursor, None);

    // First page with a cursor.
    let page = DiscoveryResponse {
        clusters: vec![ClusterDiscovery::new("a", Vec::new()), ClusterDiscovery::new("b", Vec::new())],
        cursor: Some(String::from("page-2")),
    };
    match iter.receive(Ok(page)) {
        ChainStep::Item(Ok(cluster)) => assert_eq!(cluster.cluster_id, "a"),
        _ => panic!("expected cluster a"),
    }
    match iter.next() {
        ChainStep::Item(Ok(cluster)) => assert_eq!(cluster.cluster_id, "b"),
        _ => panic!("expected cluster b"),
    }
    let request = match iter.next() {
        ChainStep::Request(request) => request,
        _ => panic!("expected a second request"),
    };
    assert_eq!(request.cursor, Some(String::from("page-2")));

    // Last page: no cursor.
    let page = DiscoveryResponse {
        clusters: vec![ClusterDiscovery::new("c", Vec::new())],
        cursor: None,
    };
    match iter.receive(Ok(page)) {
        ChainStep::Item(Ok(cluster)) => assert_eq!(cluster.cluster_id, "c"),
        _ => panic!("expected cluster c"),
    }
    assert!(matches!(iter.next(), ChainStep::End));
}

#[test]
fn http_failure_is_reported_once_then_next_backend() {
    let mut iter = discover(vec![
        (HttpRequestMethod::Get, String::from("http://one/")),
        (HttpRequestMethod::Post, String::from("http://two/")),
    ]);
    match iter.next() {
        ChainStep::Request(request) => assert_eq!(request.backend, 0),
        _ => panic!("expected a request"),
    }
    match iter.receive(Err(Error { kind: ErrorKind::HttpRequest })) {
        ChainStep::Item(Err(error)) => assert_eq!(error.kind, ErrorKind::HttpRequest),
        _ => panic!("expected the error"),
    }
    // The failed backend stops; the second one is asked next.
    match iter.next() {
        ChainStep::Request(request) => {
            assert_eq!(request.backend, 1);
            assert_eq!(request.url, "http://two/");
        }
        _ => panic!("expected a request to the second backend"),
    }
    // An empty last page ends the second backend and the discovery.
    let page = DiscoveryResponse { clusters: Vec::new(), cursor: None };
    assert!(matches!(iter.receive(Ok(page)), ChainStep::End));
}

#[test]
fn http_get_discovery_reads_one_page() {
    let mut iter = discover(vec![(HttpRequestMethod::Get, String::from("http://static/"))]);
    assert!(matches!(iter.next(), ChainStep::Request(_)));
    // The cursor is ignored: GET requests can't carry it.
    let page = DiscoveryResponse {
        clusters: vec![ClusterDiscovery::new("a", Vec::new())],
        cursor: Some(String::from("more")),
    };
    match iter.receive(Ok(page)) {
        ChainStep::Item(Ok(cluster)) => assert_eq!(cluster.cluster_id, "a"),
        _ => panic!("expected cluster a"),
    }
    assert!(matches!(iter.next(), ChainStep::End));
}

#[test]
fn http_empty_page_with_cursor_asks_for_the_next_page() {
    let mut iter = discover(vec![(HttpRequestMethod::Post, String::from("http://discovery/"))]);
    assert!(matches!(iter.next(), ChainStep::Request(_)));
    let page = DiscoveryResponse { clusters: Vec::new(), cursor: Some(String::from("page-2")) };
    match iter.receive(Ok(page)) {
        ChainStep::Request(request) => {
            assert_eq!(request.backend, 0);
            assert_eq!(request.cursor, Some(String::from("page-2")));
        }
        _ => panic!("expected a request for the next page"),
    }
    let page = DiscoveryResponse {
        clusters: vec![ClusterDiscovery::new("a", Vec::new())],
        cursor: None,
    };
    match iter.receive(Ok(page)) {
        ChainStep::Item(Ok(cluster)) => assert_eq!(cluster.cluster_id, "a"),
        _ => panic!("expected cluster a"),
    }
    assert!(matches!(iter.next(), ChainStep::End));
}

#[test]
fn drain_yields_backends_in_order() {
    let a = ClusterDiscovery::new("a", Vec::new());
    let b = ClusterDiscovery::new("b", Vec::new());
    let c = ClusterDiscovery::new("c", Vec::new());
    let mut iter = Iter::new(vec![
        listed(vec![Ok(a.clone())]),
        listed(Vec::new()),
        listed(vec![Ok(b.clone()), Err(Error { kind: ErrorKind::HttpRequest })]),
        listed(vec![Ok(c.clone())]),
    ]);
    let all = iter.drain();
    assert_eq!(all.len(), 4);
    assert_eq!(all[0].as_ref().unwrap(), &a);
    assert_eq!(all[1].as_ref().unwrap(), &b);
    assert!(all[2].is_err());
    assert_eq!(all[3].as_ref().unwrap(), &c);
    assert!(next_cluster(&mut iter).is_none());
    assert!(next_cluster(&mut iter).is_none());
}
