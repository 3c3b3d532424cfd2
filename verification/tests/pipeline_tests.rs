use creature_agent::context::{
    accept_provider_reply, build_turn_request, note_user_utterance, ReactError, SharedContext,
};
use creature_agent::decode::ValidationFault;
use creature_agent::messages::Role;
use creature_agent::reaction::{Cry, Emotion, Motion};
use creature_agent::store::LongTermMemoryStore;

const GOOD_ARGS: &str =
    "{\"emotion\":\"EMOTION_HAPPY\",\"motion\":\"MOTION_JUMP\",\"cry\":\"CRY_HAPPY\",\"friendliness\":0.5}";

fn good_reply_body() -> String {
    format!(
        "{{\"choices\":[{{\"message\":{{\"function_call\":{{\"name\":\"reaction_generator\",\"arguments\":{}}}}}}}]}}",
        serde_json::Value::String(GOOD_ARGS.to_string())
    )
}

fn fresh_context(capacity: usize) -> SharedContext {
    SharedContext::new(
        "gpt-3.5-turbo-0613".to_string(),
        "You are a creature.".to_string(),
        capacity,
        LongTermMemoryStore::new("long_memory".to_string(), 384),
    )
}

#[test]
fn eleven_utterances_leave_the_ten_most_recent_messages() {
    let mut ctx = fresh_context(10);
    for i in 1..=11 {
        let record = note_user_utterance(&mut ctx, format!("utterance {}", i), "tester".to_string());
        assert_eq!(record.id, (i - 1) as u64);
        ctx.store.commit_upsert(&record);
        let outcome = accept_provider_reply(&mut ctx, Ok(good_reply_body()));
        assert!(outcome.is_ok());
    }
    let snapshot = ctx.memory.get();
    assert_eq!(snapshot.len(), 10);
    // Eleven turns made twenty-two appends; the window keeps the last ten
    // messages, the user and provider turns of the five most recent
    // utterances, in order.
    for (k, pair) in snapshot.chunks(2).enumerate() {
        let utterance = 7 + k;
        assert_eq!(pair[0].role, Role::User);
        assert_eq!(
            pair[0].content.as_deref(),
            Some(format!("utterance {}", utterance).as_str())
        );
        assert_eq!(pair[1].role, Role::Assistant);
        assert!(pair[1].function_call.is_some());
    }
}

#[test]
fn zero_choices_fails_and_keeps_only_the_user_message() {
    let mut ctx = fresh_context(10);
    note_user_utterance(&mut ctx, "hello".to_string(), "tester".to_string());
    let outcome = accept_provider_reply(&mut ctx, Ok("{\"choices\":[]}".to_string()));
    match outcome {
        Err(ReactError::Validation(fault)) => {
            assert_eq!(fault, ValidationFault::NoChoices);
            assert_eq!(fault.message(), "No choices in response");
        }
        other => panic!("expected a validation error, got {:?}", other.is_ok()),
    }
    let snapshot = ctx.memory.get();
    assert_eq!(snapshot.len(), 1);
    assert_eq!(snapshot[0].role, Role::User);
    assert_eq!(snapshot[0].content.as_deref(), Some("hello"));
    assert!(snapshot[0].function_call.is_none());
}

#[test]
fn upstream_failure_carries_the_detail_and_keeps_memory() {
    let mut ctx = fresh_context(10);
    note_user_utterance(&mut ctx, "hello".to_string(), "tester".to_string());
    let outcome = accept_provider_reply(
        &mut ctx,
        Err("HTTP request failed: 500 Internal Server Error".to_string()),
    );
    match outcome {
        Err(e @ ReactError::Upstream(_)) => {
            assert_eq!(e.message(), "HTTP request failed: 500 Internal Server Error");
        }
        other => panic!("expected an upstream error, got {:?}", other.is_ok()),
    }
    assert_eq!(ctx.memory.len(), 1);
}

#[test]
fn a_decoded_reply_returns_the_reaction_and_records_the_turn() {
    let mut ctx = fresh_context(10);
    note_user_utterance(&mut ctx, "hello".to_string(), "tester".to_string());
    let reaction = accept_provider_reply(&mut ctx, Ok(good_reply_body())).unwrap();
    assert_eq!(reaction.emotion, Emotion::Happy);
    assert_eq!(reaction.motion, Motion::Jump);
    assert_eq!(reaction.cry, Cry::Happy);
    let snapshot = ctx.memory.get();
    assert_eq!(snapshot.len(), 2);
    assert_eq!(snapshot[0].role, Role::User);
    assert_eq!(snapshot[1].role, Role::Assistant);
    let call = snapshot[1].function_call.as_ref().unwrap();
    assert_eq!(call.name, "reaction_generator");
    assert_eq!(call.arguments, GOOD_ARGS);
}

#[test]
fn turn_request_carries_prompt_and_whole_snapshot() {
    let mut ctx = fresh_context(10);
    note_user_utterance(&mut ctx, "first".to_string(), "tester".to_string());
    accept_provider_reply(&mut ctx, Ok(good_reply_body())).unwrap();
    note_user_utterance(&mut ctx, "second".to_string(), "tester".to_string());
    let body = build_turn_request(&ctx);
    let v: serde_json::Value = serde_json::from_str(&body).unwrap();
    assert_eq!(v["model"].as_str().unwrap(), "gpt-3.5-turbo-0613");
    let msgs = v["messages"].as_array().unwrap();
    assert_eq!(msgs.len(), 4);
    assert_eq!(msgs[0]["role"].as_str().unwrap(), "system");
    assert_eq!(msgs[0]["content"].as_str().unwrap(), "You are a creature.");
    assert_eq!(msgs[1]["role"].as_str().unwrap(), "user");
    assert_eq!(msgs[1]["content"].as_str().unwrap(), "first");
    assert_eq!(msgs[2]["role"].as_str().unwrap(), "assistant");
    assert_eq!(
        msgs[2]["function_call"]["arguments"].as_str().unwrap(),
        GOOD_ARGS
    );
    assert_eq!(msgs[3]["role"].as_str().unwrap(), "user");
    assert_eq!(msgs[3]["content"].as_str().unwrap(), "second");
}

#[test]
fn one_utterance_yields_exactly_one_outcome() {
    // A turn ends in exactly one of: a reaction, or a stream-ending error.
    let mut ctx = fresh_context(10);
    note_user_utterance(&mut ctx, "hello".to_string(), "tester".to_string());
    let ok = accept_provider_reply(&mut ctx, Ok(good_reply_body()));
    assert!(ok.is_ok());
    note_user_utterance(&mut ctx, "again".to_string(), "tester".to_string());
    let err = accept_provider_reply(&mut ctx, Ok("{\"choices\":[]}".to_string()));
    assert!(err.is_err());
}

#[test]
fn concurrent_sessions_never_interleave_a_turn() {
    let sessions = 8;
    let utterances_per_session = 5;
    let capacity = 2 * sessions * utterances_per_session;
    let runtime = tokio::runtime::Builder::new_multi_thread()
        .worker_threads(4)
        .build()
        .unwrap();
    let context = std::sync::Arc::new(tokio::sync::Mutex::new(fresh_context(capacity)));

    runtime.block_on(async {
        let mut handles = Vec::new();
        for s in 0..sessions {
            let context = context.clone();
            handles.push(tokio::spawn(async move {
                let mut completed = 0;
                for u in 0..utterances_per_session {
                    let mut ctx = context.lock().await;
                    let record = note_user_utterance(
                        &mut ctx,
                        format!("session {} utterance {}", s, u),
                        "tester".to_string(),
                    );
                    ctx.store.commit_upsert(&record);
                    let outcome = accept_provider_reply(&mut ctx, Ok(good_reply_body()));
                    assert!(outcome.is_ok());
                    completed += 1;
                }
                completed
            }));
        }
        let mut total: usize = 0;
        for handle in handles {
            total += handle.await.unwrap();
        }
        // The count of completed reactions equals the sum of the
        // per-session utterances processed.
        assert_eq!(total, sessions * utterances_per_session);
    });

    let ctx = runtime.block_on(async { context.lock().await.memory.get() });
    // Every turn's two appends landed adjacently: the lock was held across
    // the whole turn, so no two sessions' appends interleave.
    assert_eq!(ctx.len(), 2 * sessions * utterances_per_session);
    for pair in ctx.chunks(2) {
        assert_eq!(pair[0].role, Role::User);
        assert!(pair[0].content.is_some());
        assert_eq!(pair[1].role, Role::Assistant);
        assert!(pair[1].function_call.is_some());
    }
}
