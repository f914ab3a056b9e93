//! The life of a recording.

use cloud_stt::pipeline::{
    complete_unless_cancelled, persist_then_transcribe, run_provider, CompletionEvent,
    CompletionStep, PersistEvent, PersistStep, ProviderEvent, ProviderStep,
    CANCELLATION_POLL_MILLIS,
};

/// Takes an operation through what happens to it. Says how often it was polled.
fn complete<T>(events: Vec<CompletionEvent<T>>) -> (usize, Option<Option<T>>) {
    let mut polls = 0;
    for event in events {
        match complete_unless_cancelled(event) {
            CompletionStep::Poll => polls += 1,
            CompletionStep::Finished(result) => return (polls, Some(result)),
        }
    }
    (polls, None)
}

fn waiting<T>(cancelled: bool) -> CompletionEvent<T> {
    CompletionEvent::Waiting { cancelled }
}

#[test]
fn persistence_precedes_provider_and_survives_all_failure_outcomes() {
    for outcome in [
        Err("HTTP 500".to_owned()),
        Err("timeout".to_owned()),
        Err("HTTP 401".to_owned()),
        Ok(Some(String::new())),
        Ok(None),
    ] {
        type Outcome = Result<Option<String>, String>;
        let saved = match persist_then_transcribe::<i32, Outcome>(PersistEvent::Persisted(Ok(42))) {
            PersistStep::Transcribe(saved) => saved,
            PersistStep::Finished(_) => panic!("the provider has to be called"),
        };
        match persist_then_transcribe(PersistEvent::Transcribed(saved, outcome.clone())) {
            PersistStep::Finished(result) => assert_eq!(result.unwrap(), (42, outcome)),
            PersistStep::Transcribe(_) => panic!("the provider was called already"),
        }
    }
}

#[test]
fn failed_persistence_does_not_start_upload() {
    let event = PersistEvent::<(), ()>::Persisted(Err("disk full".into()));
    match persist_then_transcribe(event) {
        PersistStep::Finished(result) => assert_eq!(result.unwrap_err(), "disk full"),
        PersistStep::Transcribe(_) => panic!("the provider must not be called"),
    }
}

#[test]
fn batch_and_live_dispatch_to_the_selected_provider_only() {
    for cloud in [true, false] {
        let starting = ProviderEvent::Starting {
            cloud,
            cancelled: false,
        };
        let completed = match run_provider(starting) {
            ProviderStep::RunCloud => {
                assert!(cloud);
                ProviderEvent::CloudCompleted(Some(Ok("cloud".into())))
            }
            ProviderStep::DrainLocal => {
                assert!(!cloud);
                ProviderEvent::LocalCompleted {
                    result: Ok("local".into()),
                    cancelled: false,
                }
            }
            ProviderStep::Finished(_) => panic!("a provider has to run"),
        };
        match run_provider(completed) {
            ProviderStep::Finished(result) => assert_eq!(
                result.unwrap().as_deref(),
                Some(if cloud { "cloud" } else { "local" })
            ),
            _ => panic!("no other provider may run"),
        }
    }
}

#[test]
fn cancellation_drops_stalled_cloud_future_and_allows_the_next_request() {
    type Outcome = Result<String, String>;
    let stalled: Vec<CompletionEvent<Outcome>> =
        vec![waiting(false), waiting(false), waiting(true)];
    let (polls, result) = complete(stalled);
    assert_eq!(polls, 2);
    let result = result.unwrap();
    assert!(result.is_none());
    match run_provider(ProviderEvent::CloudCompleted(result)) {
        ProviderStep::Finished(result) => assert_eq!(result.unwrap(), None),
        _ => panic!("no other provider may run"),
    }
    let next: Vec<CompletionEvent<Outcome>> = vec![
        waiting(false),
        CompletionEvent::Ready {
            result: Ok("next".into()),
            cancelled: false,
        },
    ];
    let (_, result) = complete(next);
    match run_provider(ProviderEvent::CloudCompleted(result.unwrap())) {
        ProviderStep::Finished(result) => assert_eq!(result.unwrap().as_deref(), Some("next")),
        _ => panic!("no other provider may run"),
    }
}

#[test]
fn cancellation_does_not_detach_local_engine_work() {
    let starting = ProviderEvent::Starting {
        cloud: false,
        cancelled: false,
    };
    assert!(matches!(run_provider(starting), ProviderStep::DrainLocal));
    let drained = ProviderEvent::LocalCompleted {
        result: Ok("old".into()),
        cancelled: true,
    };
    match run_provider(drained) {
        ProviderStep::Finished(result) => assert_eq!(result.unwrap(), None),
        _ => panic!("no other provider may run"),
    }
}

#[test]
fn final_poll_cancellation_discards_the_result() {
    let events = vec![
        waiting(false),
        CompletionEvent::Ready {
            result: "old",
            cancelled: true,
        },
    ];
    assert_eq!(complete(events), (1, Some(None)));
}

#[test]
fn cancelled_work_does_not_start() {
    for cloud in [true, false] {
        let starting = ProviderEvent::Starting {
            cloud,
            cancelled: true,
        };
        match run_provider(starting) {
            ProviderStep::Finished(result) => assert_eq!(result.unwrap(), None),
            _ => panic!("no provider may run"),
        }
    }
    assert_eq!(complete::<i32>(vec![waiting(true)]), (0, Some(None)));
    assert_eq!(CANCELLATION_POLL_MILLIS, 25);
}

#[test]
fn provider_errors_are_returned() {
    match run_provider(ProviderEvent::CloudCompleted(Some(Err("HTTP 500".into())))) {
        ProviderStep::Finished(result) => assert_eq!(result.unwrap_err(), "HTTP 500"),
        _ => panic!("no other provider may run"),
    }
    let failed = ProviderEvent::LocalCompleted {
        result: Err("engine".into()),
        cancelled: false,
    };
    match run_provider(failed) {
        ProviderStep::Finished(result) => assert_eq!(result.unwrap_err(), "engine"),
        _ => panic!("no other provider may run"),
    }
}
