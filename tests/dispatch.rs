use etcd::cluster_info::{parse_counter, read_counter, ETCD_INDEX_HEADER, RAFT_TERM_HEADER};
use etcd::failover::{failover_step, Decision};
use etcd::fan_out::FanOut;
use etcd::requester::{classify, is_success_status, Reply};
use etcd::stats::{leader_stats_uri, self_stats_uri, store_stats_uri, CountStats, LeaderInfo, StoreStats};
use etcd::uri::{build_uri, join_uri, Endpoints};
use etcd::{ApiError, ClusterInfo, Error, Header, Response};

fn header(name: &str, value: &str) -> Header {
    Header { name: name.to_string(), value: value.as_bytes().to_vec() }
}

fn store(watchers: u64) -> StoreStats {
    StoreStats {
        compare_and_delete_fail: 0,
        compare_and_delete_success: 0,
        compare_and_swap_fail: 0,
        compare_and_swap_success: 0,
        create_fail: 0,
        create_success: 1,
        delete_fail: 0,
        delete_success: 0,
        expire_count: 0,
        get_fail: 2,
        get_success: 3,
        set_fail: 0,
        set_success: 4,
        update_fail: 0,
        update_success: 0,
        watchers,
    }
}

fn ok_reply(headers: Vec<Header>, data: u64) -> Reply<u64> {
    Reply::Success { headers, payload: Ok(data) }
}

fn timeout() -> Reply<u64> {
    Reply::Unreachable("operation timed out".to_string())
}

/// Runs a failover over members that give `replies`, counting the attempts.
fn run_failover(replies: Vec<Reply<u64>>) -> (Result<Response<u64>, Error>, usize) {
    let n = replies.len();
    let mut replies: Vec<Option<Reply<u64>>> = replies.into_iter().map(Some).collect();
    let mut next = 0usize;
    let mut attempts = 0usize;
    loop {
        let reply = replies[next].take().expect("member tried twice");
        attempts += 1;
        match failover_step(n, next + 1, classify(reply)) {
            Decision::Try(i) => next = i,
            Decision::Finish(r) => return (r, attempts),
        }
    }
}

#[test]
fn counter_parses_plain_digits() {
    assert_eq!(parse_counter(b"7"), Some(7));
    assert_eq!(parse_counter(b"0"), Some(0));
    assert_eq!(parse_counter(b"1234567"), Some(1234567));
    assert_eq!(parse_counter(b"+42"), Some(42));
    assert_eq!(parse_counter(b"18446744073709551615"), Some(u64::MAX));
}

#[test]
fn counter_rejects_bad_values() {
    assert_eq!(parse_counter(b""), None);
    assert_eq!(parse_counter(b"+"), None);
    assert_eq!(parse_counter(b"-1"), None);
    assert_eq!(parse_counter(b"12a"), None);
    assert_eq!(parse_counter(b" 12"), None);
    assert_eq!(parse_counter(b"18446744073709551616"), None);
    assert_eq!(parse_counter(b"99999999999999999999999"), None);
}

#[test]
fn counter_takes_first_header_of_name() {
    let headers = vec![
        header("content-type", "application/json"),
        header("x-etcd-index", "12"),
        header("x-etcd-index", "13"),
    ];
    assert_eq!(read_counter(&headers, ETCD_INDEX_HEADER), Some(12));
    assert_eq!(read_counter(&headers, RAFT_TERM_HEADER), None);
}

#[test]
fn cluster_info_from_headers() {
    let headers = vec![
        header("x-etcd-index", "7"),
        header("x-raft-index", "1500"),
        header("x-raft-term", "not a number"),
    ];
    let info = ClusterInfo::from_headers(&headers);
    assert_eq!(info, ClusterInfo { etcd_index: Some(7), raft_index: Some(1500), raft_term: None });
    let none = ClusterInfo::from_headers(&[]);
    assert_eq!(none, ClusterInfo { etcd_index: None, raft_index: None, raft_term: None });
}

#[test]
fn bad_header_does_not_fail_the_call() {
    let r = classify(ok_reply(vec![header("x-raft-term", "-3")], 5));
    let resp = r.expect("a success");
    assert_eq!(resp.data, 5);
    assert_eq!(resp.cluster_info.raft_term, None);
}

#[test]
fn status_ranges() {
    assert!(is_success_status(200));
    assert!(is_success_status(201));
    assert!(is_success_status(299));
    assert!(!is_success_status(199));
    assert!(!is_success_status(300));
    assert!(!is_success_status(400));
    assert!(!is_success_status(500));
}

#[test]
fn classify_each_kind() {
    assert!(matches!(classify(timeout()), Err(Error::Transport(m)) if m == "operation timed out"));
    let bad: Reply<u64> = Reply::Success { headers: vec![], payload: Err("expected u64".to_string()) };
    assert!(matches!(classify(bad), Err(Error::Decode(m)) if m == "expected u64"));
    let undecodable: Reply<u64> = Reply::Failure { payload: Err("not json".to_string()) };
    assert!(matches!(classify(undecodable), Err(Error::Decode(_))));
    let api = ApiError { cause: Some("/foo".to_string()), error_code: 105, index: 9, message: "Key already exists".to_string() };
    let failed: Reply<u64> = Reply::Failure { payload: Ok(api.clone()) };
    match classify(failed) {
        Err(Error::Api(e)) => assert_eq!(e, api),
        other => panic!("unexpected {:?}", other),
    }
}

#[test]
fn failover_first_success_stops() {
    let (r, attempts) = run_failover(vec![ok_reply(vec![], 1), ok_reply(vec![], 2), timeout()]);
    assert_eq!(r.unwrap().data, 1);
    assert_eq!(attempts, 1);
}

#[test]
fn failover_success_after_transport_failures() {
    let (r, attempts) = run_failover(vec![timeout(), timeout(), timeout(), ok_reply(vec![], 4), ok_reply(vec![], 5)]);
    assert_eq!(r.unwrap().data, 4);
    assert_eq!(attempts, 4);
}

#[test]
fn failover_all_transport_returns_last() {
    let replies = vec![
        Reply::Unreachable("a refused".to_string()),
        Reply::Unreachable("b refused".to_string()),
        Reply::Unreachable("c timed out".to_string()),
    ];
    let (r, attempts) = run_failover(replies);
    assert!(matches!(r, Err(Error::Transport(m)) if m == "c timed out"));
    assert_eq!(attempts, 3);
}

#[test]
fn failover_api_and_decode_errors_are_final() {
    let api = ApiError { cause: None, error_code: 100, index: 1, message: "Key not found".to_string() };
    let (r, attempts) = run_failover(vec![Reply::Failure { payload: Ok(api) }, ok_reply(vec![], 2)]);
    assert!(matches!(r, Err(Error::Api(e)) if e.error_code == 100));
    assert_eq!(attempts, 1);
    let bad: Reply<u64> = Reply::Success { headers: vec![], payload: Err("schema".to_string()) };
    let (r, attempts) = run_failover(vec![bad, ok_reply(vec![], 2)]);
    assert!(matches!(r, Err(Error::Decode(_))));
    assert_eq!(attempts, 1);
}

#[test]
fn failover_invalid_uri_is_final() {
    let e = build_uri("http://a b", "v2/keys").unwrap_err();
    match failover_step::<u64>(3, 1, Err(e)) {
        Decision::Finish(Err(Error::InvalidUri(_))) => {}
        other => panic!("unexpected {:?}", other),
    }
}

#[test]
fn failover_single_member_transport() {
    match failover_step::<u64>(1, 1, classify(timeout())) {
        Decision::Finish(Err(Error::Transport(_))) => {}
        other => panic!("unexpected {:?}", other),
    }
    match failover_step::<u64>(2, 1, classify(timeout())) {
        Decision::Try(1) => {}
        other => panic!("unexpected {:?}", other),
    }
}

#[test]
fn failover_timeout_then_index_header() {
    let replies = vec![timeout(), ok_reply(vec![header("x-etcd-index", "7")], 20), ok_reply(vec![], 30)];
    let (r, attempts) = run_failover(replies);
    let resp = r.expect("second member answers");
    assert_eq!(resp.data, 20);
    assert_eq!(resp.cluster_info.etcd_index, Some(7));
    assert_eq!(attempts, 2);
}

#[test]
fn failover_api_error_from_json_body() {
    let body = r#"{"errorCode":100,"message":"Key not found"}"#;
    let v: serde_json::Value = serde_json::from_str(body).unwrap();
    let api = ApiError {
        cause: v.get("cause").and_then(|c| c.as_str()).map(|c| c.to_string()),
        error_code: v.get("errorCode").and_then(|c| c.as_u64()).unwrap(),
        index: v.get("index").and_then(|c| c.as_u64()).unwrap_or(0),
        message: v.get("message").and_then(|c| c.as_str()).unwrap().to_string(),
    };
    assert!(!is_success_status(400));
    let (r, attempts) = run_failover(vec![Reply::Failure { payload: Ok(api) }]);
    match r {
        Err(Error::Api(e)) => {
            assert_eq!(e.error_code, 100);
            assert_eq!(e.message, "Key not found");
        }
        other => panic!("unexpected {:?}", other),
    }
    assert_eq!(attempts, 1);
}

#[test]
fn fan_out_two_members_keep_own_payloads() {
    let mut f: FanOut<StoreStats> = FanOut::new(2);
    assert!(!f.is_complete());
    let b = Response { data: store(2), cluster_info: ClusterInfo::from_headers(&[]) };
    let a = Response { data: store(1), cluster_info: ClusterInfo::from_headers(&[]) };
    assert!(f.record(1, Ok(b)));
    assert!(f.answered(1));
    assert!(!f.answered(0));
    assert!(!f.is_complete());
    assert!(f.record(0, Ok(a)));
    assert!(f.is_complete());
    let results = f.into_results();
    assert_eq!(results.len(), 2);
    let mut watchers: Vec<u64> = results.iter().map(|r| r.as_ref().unwrap().data.watchers).collect();
    watchers.sort();
    assert_eq!(watchers, vec![1, 2]);
}

#[test]
fn fan_out_all_failures_still_yields_each() {
    let mut f: FanOut<u64> = FanOut::new(3);
    for i in [2usize, 0, 1] {
        assert!(f.record(i, classify(timeout())));
    }
    assert!(f.is_complete());
    let results = f.into_results();
    assert_eq!(results.len(), 3);
    assert!(results.iter().all(|r| matches!(r, Err(Error::Transport(_)))));
}

#[test]
fn fan_out_refuses_repeats_and_strangers() {
    let mut f: FanOut<u64> = FanOut::new(2);
    assert!(f.record(0, classify(ok_reply(vec![], 1))));
    assert!(!f.record(0, classify(ok_reply(vec![], 9))));
    assert!(!f.record(2, classify(ok_reply(vec![], 9))));
    assert!(!f.is_complete());
    let results = f.into_results();
    assert_eq!(results.len(), 1);
    assert_eq!(results[0].as_ref().unwrap().data, 1);
}

#[test]
fn fan_out_over_no_members_is_complete() {
    let f: FanOut<u64> = FanOut::new(0);
    assert!(f.is_complete());
    assert!(f.into_results().is_empty());
}

#[test]
fn join_adds_one_slash() {
    assert_eq!(join_uri("http://a:2379", "v2/stats/self"), "http://a:2379/v2/stats/self");
    assert_eq!(join_uri("http://a:2379/", "v2/stats/self"), "http://a:2379/v2/stats/self");
}

#[test]
fn stats_uris() {
    let eps = Endpoints::new(vec!["http://a:2379".to_string(), "http://b:2379/".to_string()]).unwrap();
    assert_eq!(eps.len(), 2);
    assert_eq!(eps.first(), "http://a:2379");
    assert_eq!(eps.get(1), "http://b:2379/");
    assert_eq!(leader_stats_uri(&eps).unwrap().to_string(), "http://a:2379/v2/stats/leader");
    assert_eq!(self_stats_uri(eps.get(1)).unwrap().to_string(), "http://b:2379/v2/stats/self");
    assert_eq!(store_stats_uri("https://c:2379").unwrap().to_string(), "https://c:2379/v2/stats/store");
}

#[test]
fn invalid_uri_is_reported() {
    assert!(matches!(build_uri("http://a b", "v2/keys"), Err(Error::InvalidUri(_))));
    assert!(matches!(self_stats_uri("http://[::1"), Err(Error::InvalidUri(_))));
}

#[test]
fn endpoints_must_not_be_empty() {
    assert!(Endpoints::new(vec![]).is_none());
}

#[test]
fn stats_records() {
    let c = CountStats { fail: 1, success: 2 };
    assert_eq!(c, c.clone());
    let l = LeaderInfo { id: "8e9e05c52164694d".to_string(), start_time: "t".to_string(), uptime: "10m".to_string() };
    assert_eq!(l.id, "8e9e05c52164694d");
    assert_eq!(store(4).watchers, 4);
}
