use access_gate::history::{History, HistoryEntry, HistoryQuery, MemoryHistory};
use access_gate::identity::{
    AccessResponse, FailingVerifier, FixedVerifier, NamedVerifier, Outcome,
};
use access_gate::server::{
    access, complete_access, verify_and_record, AccessError, AccessStatus, Callback, Context,
    CountingCallback, FailingClock, FixedClock,
};

fn success_context() -> Context<FixedVerifier, MemoryHistory> {
    Context {
        identity_store: FixedVerifier {
            outcome: Outcome::Success,
        },
        history: MemoryHistory::new(),
    }
}

fn failure_context() -> Context<FixedVerifier, MemoryHistory> {
    Context {
        identity_store: FixedVerifier {
            outcome: Outcome::Failure,
        },
        history: MemoryHistory::new(),
    }
}

fn query_for_token(token: &str) -> HistoryQuery {
    let mut q = HistoryQuery::unfiltered();
    q.token = Some(token.to_string());
    q
}

#[test]
fn granted_access_is_recorded_and_notified() {
    let mut ctx = success_context();
    let mut clock = FixedClock { time: 1234 };
    let mut cb = CountingCallback::new();
    let r = access(&mut ctx, &mut clock, &mut cb, "tok-1".to_string());
    let (status, resp) = r.unwrap();
    assert_eq!(status, AccessStatus::Granted);
    assert_eq!(resp.outcome, Outcome::Success);
    assert_eq!(cb.invocation_count(), 1);

    let entries = ctx.history.query(&query_for_token("tok-1")).unwrap();
    assert_eq!(entries.len(), 1);
    assert_eq!(entries[0].token, "tok-1");
    assert_eq!(entries[0].response.outcome, Outcome::Success);
    assert!(entries[0].time > 0);
    assert_eq!(entries[0].time, 1234);
}

#[test]
fn denied_access_is_recorded_and_not_notified() {
    let mut ctx = failure_context();
    let mut clock = FixedClock { time: 9 };
    let mut cb = CountingCallback::new();
    let r = access(&mut ctx, &mut clock, &mut cb, "tok-2".to_string());
    let (status, resp) = r.unwrap();
    assert_eq!(status, AccessStatus::Forbidden);
    assert_eq!(resp.outcome, Outcome::Failure);
    assert_eq!(cb.invocation_count(), 0);

    let entries = ctx.history.query(&HistoryQuery::unfiltered()).unwrap();
    assert_eq!(entries.len(), 1);
    assert_eq!(entries[0].token, "tok-2");
    assert_eq!(entries[0].response.outcome, Outcome::Failure);
}

#[test]
fn store_outage_withholds_decision_and_callback() {
    let mut ctx = success_context();
    ctx.history.set_available(false);
    let mut clock = FixedClock { time: 5 };
    let mut cb = CountingCallback::new();
    let r = access(&mut ctx, &mut clock, &mut cb, "tok-3".to_string());
    assert!(matches!(r, Err(AccessError::Store(_))));
    assert_eq!(cb.invocation_count(), 0);

    ctx.history.set_available(true);
    let entries = ctx.history.query(&HistoryQuery::unfiltered()).unwrap();
    assert_eq!(entries.len(), 0);
}

#[test]
fn callback_failure_keeps_the_recorded_entry() {
    let mut ctx = success_context();
    let mut clock = FixedClock { time: 77 };
    let mut cb = CountingCallback::new_failing();
    let r = access(&mut ctx, &mut clock, &mut cb, "tok-4".to_string());
    assert!(matches!(r, Err(AccessError::Gateway(_))));
    assert_eq!(cb.invocation_count(), 1);

    let entries = ctx.history.query(&HistoryQuery::unfiltered()).unwrap();
    assert_eq!(entries.len(), 1);
    assert_eq!(entries[0].token, "tok-4");
    assert_eq!(entries[0].response.outcome, Outcome::Success);
    assert_eq!(entries[0].time, 77);
}

#[test]
fn verifier_breakdown_records_nothing() {
    let mut ctx = Context {
        identity_store: FailingVerifier,
        history: MemoryHistory::new(),
    };
    let mut clock = FixedClock { time: 5 };
    let mut cb = CountingCallback::new();
    let r = access(&mut ctx, &mut clock, &mut cb, "tok-5".to_string());
    assert!(matches!(r, Err(AccessError::Verifier(_))));
    assert_eq!(cb.invocation_count(), 0);
    let entries = ctx.history.query(&HistoryQuery::unfiltered()).unwrap();
    assert_eq!(entries.len(), 0);
}

#[test]
fn clock_breakdown_records_nothing() {
    let mut ctx = success_context();
    let mut clock = FailingClock;
    let mut cb = CountingCallback::new();
    let r = access(&mut ctx, &mut clock, &mut cb, "tok-6".to_string());
    assert!(matches!(r, Err(AccessError::Clock(_))));
    assert_eq!(cb.invocation_count(), 0);
    let entries = ctx.history.query(&HistoryQuery::unfiltered()).unwrap();
    assert_eq!(entries.len(), 0);
}

#[test]
fn unfiltered_query_returns_everything_in_order() {
    let mut ctx = success_context();
    let mut cb = CountingCallback::new();
    for (i, tok) in ["a", "b", "c"].iter().enumerate() {
        let mut clock = FixedClock {
            time: (i + 1) as u64,
        };
        access(&mut ctx, &mut clock, &mut cb, tok.to_string()).unwrap();
    }
    let first = ctx.history.query(&HistoryQuery::unfiltered()).unwrap();
    let second = ctx.history.query(&HistoryQuery::unfiltered()).unwrap();
    assert_eq!(first.len(), 3);
    assert_eq!(first[0].token, "a");
    assert_eq!(first[1].token, "b");
    assert_eq!(first[2].token, "c");
    assert_eq!(first.len(), second.len());
    for (x, y) in first.iter().zip(second.iter()) {
        assert_eq!(x.token, y.token);
        assert_eq!(x.time, y.time);
        assert_eq!(x.response.outcome, y.response.outcome);
    }
}

#[test]
fn only_latest_keeps_the_larger_time() {
    let mut ctx = success_context();
    let mut cb = CountingCallback::new();
    let mut early = FixedClock { time: 5 };
    access(&mut ctx, &mut early, &mut cb, "tok".to_string()).unwrap();
    let mut late = FixedClock { time: 9 };
    access(&mut ctx, &mut late, &mut cb, "tok".to_string()).unwrap();

    let mut q = HistoryQuery::unfiltered();
    q.only_latest = true;
    let entries = ctx.history.query(&q).unwrap();
    assert_eq!(entries.len(), 1);
    assert_eq!(entries[0].token, "tok");
    assert_eq!(entries[0].time, 9);
}

#[test]
fn only_latest_keeps_one_entry_per_token() {
    let mut history = MemoryHistory::new();
    for (tok, time) in [("a", 1), ("b", 2), ("a", 3), ("b", 4), ("c", 5)] {
        history
            .insert(HistoryEntry {
                time,
                token: tok.to_string(),
                response: AccessResponse {
                    outcome: Outcome::Success,
                    name: None,
                },
            })
            .unwrap();
    }
    let mut q = HistoryQuery::unfiltered();
    q.only_latest = true;
    let entries = history.query(&q).unwrap();
    assert_eq!(entries.len(), 3);
    assert_eq!(entries[0].token, "a");
    assert_eq!(entries[0].time, 3);
    assert_eq!(entries[1].token, "b");
    assert_eq!(entries[1].time, 4);
    assert_eq!(entries[2].token, "c");
    assert_eq!(entries[2].time, 5);
}

fn entry(time: u64, token: &str, outcome: Outcome, name: Option<&str>) -> HistoryEntry {
    HistoryEntry {
        time,
        token: token.to_string(),
        response: AccessResponse {
            outcome,
            name: name.map(|n| n.to_string()),
        },
    }
}

#[test]
fn time_bounds_are_inclusive() {
    let mut history = MemoryHistory::new();
    for t in [1, 2, 3] {
        history
            .insert(entry(t, "tok", Outcome::Success, None))
            .unwrap();
    }
    let mut q = HistoryQuery::unfiltered();
    q.time_min = Some(2);
    q.time_max = Some(2);
    let entries = history.query(&q).unwrap();
    assert_eq!(entries.len(), 1);
    assert_eq!(entries[0].time, 2);

    let mut q = HistoryQuery::unfiltered();
    q.time_min = Some(1);
    q.time_max = Some(3);
    assert_eq!(history.query(&q).unwrap().len(), 3);
}

#[test]
fn token_filter_matches_exactly() {
    let mut history = MemoryHistory::new();
    history
        .insert(entry(1, "alpha", Outcome::Success, None))
        .unwrap();
    history
        .insert(entry(2, "beta", Outcome::Failure, None))
        .unwrap();
    let entries = history.query(&query_for_token("beta")).unwrap();
    assert_eq!(entries.len(), 1);
    assert_eq!(entries[0].token, "beta");
    assert_eq!(history.query(&query_for_token("gamma")).unwrap().len(), 0);
}

#[test]
fn name_filter_matches_verifier_metadata() {
    let mut ctx = Context {
        identity_store: NamedVerifier {
            outcome: Outcome::Success,
            name: "alice".to_string(),
        },
        history: MemoryHistory::new(),
    };
    let mut clock = FixedClock { time: 1 };
    let mut cb = CountingCallback::new();
    access(&mut ctx, &mut clock, &mut cb, "tok".to_string()).unwrap();
    ctx.history
        .insert(entry(2, "tok", Outcome::Success, None))
        .unwrap();

    let mut q = HistoryQuery::unfiltered();
    q.name = Some("alice".to_string());
    let entries = ctx.history.query(&q).unwrap();
    assert_eq!(entries.len(), 1);
    assert_eq!(entries[0].response.name.as_deref(), Some("alice"));

    let mut q = HistoryQuery::unfiltered();
    q.name = Some("bob".to_string());
    assert_eq!(ctx.history.query(&q).unwrap().len(), 0);
}

#[test]
fn outcome_filter_matches_recorded_outcome() {
    let mut history = MemoryHistory::new();
    history
        .insert(entry(1, "a", Outcome::Success, None))
        .unwrap();
    history
        .insert(entry(2, "b", Outcome::Failure, None))
        .unwrap();
    let mut q = HistoryQuery::unfiltered();
    q.outcome = Some(Outcome::Failure);
    let entries = history.query(&q).unwrap();
    assert_eq!(entries.len(), 1);
    assert_eq!(entries[0].token, "b");
}

#[test]
fn unavailable_store_refuses_reads() {
    let mut history = MemoryHistory::new();
    history.insert(entry(1, "a", Outcome::Success, None)).unwrap();
    history.set_available(false);
    assert!(history.query(&HistoryQuery::unfiltered()).is_err());
    assert!(history.insert(entry(2, "b", Outcome::Success, None)).is_err());
    history.set_available(true);
    assert_eq!(history.query(&HistoryQuery::unfiltered()).unwrap().len(), 1);
}

#[test]
fn two_phase_flow_matches_sequential_access() {
    let mut ctx = success_context();
    let mut clock = FixedClock { time: 42 };
    let mut cb = CountingCallback::new();

    let response = verify_and_record(&mut ctx, &mut clock, "tok".to_string()).unwrap();
    assert_eq!(response.outcome, Outcome::Success);
    let callback_result = Some(cb.call());
    let (status, resp) = complete_access(response, callback_result).unwrap();
    assert_eq!(status, AccessStatus::Granted);
    assert_eq!(resp.outcome, Outcome::Success);
    assert_eq!(cb.invocation_count(), 1);

    let entries = ctx.history.query(&HistoryQuery::unfiltered()).unwrap();
    assert_eq!(entries.len(), 1);
    assert_eq!(entries[0].time, 42);
}

#[test]
fn two_phase_flow_forbidden_skips_callback() {
    let mut ctx = failure_context();
    let mut clock = FixedClock { time: 42 };
    let response = verify_and_record(&mut ctx, &mut clock, "tok".to_string()).unwrap();
    assert_eq!(response.outcome, Outcome::Failure);
    let (status, _) = complete_access(response, None).unwrap();
    assert_eq!(status, AccessStatus::Forbidden);
}
