//! The life of a recording: it is saved first, then transcribed by one provider, and
//! may be cancelled at any time.
//!
//! The futures and the cancellation flag are outside; what they came to is handed to
//! the functions here, which say what to do next.

use vstd::prelude::*;

verus! {

/// How long an operation is polled before the cancellation flag is looked at again,
/// in milliseconds.
pub const CANCELLATION_POLL_MILLIS: u64 = 25;

/// What happened to an operation that can be cancelled.
pub enum CompletionEvent<T> {
    /// It has not completed yet; this is the cancellation flag.
    Waiting { cancelled: bool },
    /// It has completed; this is the cancellation flag after that.
    Ready { result: T, cancelled: bool },
}

/// What to do next with an operation that can be cancelled.
pub enum CompletionStep<T> {
    /// Poll it for a while.
    Poll,
    /// It is over. What it came to counts only if it was not cancelled.
    Finished(Option<T>),
}

/// What to do next with an operation that can be cancelled.
pub open spec fn completion<T>(event: CompletionEvent<T>) -> CompletionStep<T> {
    match event {
        CompletionEvent::Waiting { cancelled } => if cancelled {
            CompletionStep::Finished(None)
        } else {
            CompletionStep::Poll
        },
        CompletionEvent::Ready { result, cancelled } => if cancelled {
            CompletionStep::Finished(None)
        } else {
            CompletionStep::Finished(Some(result))
        },
    }
}

/// Decides how an operation that can be cancelled goes on. Cancellation may race with
/// the poll that completes it; then the result is discarded.
pub fn complete_unless_cancelled<T>(event: CompletionEvent<T>) -> (r: CompletionStep<T>)
    ensures
        r == completion(event),
{
    match event {
        CompletionEvent::Waiting { cancelled } => if cancelled {
            CompletionStep::Finished(None)
        } else {
            CompletionStep::Poll
        },
        CompletionEvent::Ready { result, cancelled } => if cancelled {
            CompletionStep::Finished(None)
        } else {
            CompletionStep::Finished(Some(result))
        },
    }
}

/// What happened on the way from a recording to its transcript.
pub enum PersistEvent<S, T> {
    /// The recording was saved, or could not be.
    Persisted(Result<S, String>),
    /// The provider came to this; the recording was saved before.
    Transcribed(S, T),
}

/// What to do next on the way from a recording to its transcript.
pub enum PersistStep<S, T> {
    /// Call the provider.
    Transcribe(S),
    /// It is over. The outer result is that of saving; the provider keeps its own.
    Finished(Result<(S, T), String>),
}

/// What to do next on the way from a recording to its transcript.
pub open spec fn persistence<S, T>(event: PersistEvent<S, T>) -> PersistStep<S, T> {
    match event {
        PersistEvent::Persisted(Ok(saved)) => PersistStep::Transcribe(saved),
        PersistEvent::Persisted(Err(e)) => PersistStep::Finished(Err(e)),
        PersistEvent::Transcribed(saved, outcome) => PersistStep::Finished(Ok((saved, outcome))),
    }
}

/// Decides how a recording goes on. Audio and history are saved before a provider is
/// called that can fail or be cancelled.
pub fn persist_then_transcribe<S, T>(event: PersistEvent<S, T>) -> (r: PersistStep<S, T>)
    ensures
        r == persistence(event),
{
    match event {
        PersistEvent::Persisted(Ok(saved)) => PersistStep::Transcribe(saved),
        PersistEvent::Persisted(Err(e)) => PersistStep::Finished(Err(e)),
        PersistEvent::Transcribed(saved, outcome) => PersistStep::Finished(Ok((saved, outcome))),
    }
}

/// What happened to a provider.
pub enum ProviderEvent {
    /// It is about to be called; `cloud` says which it is.
    Starting { cloud: bool, cancelled: bool },
    /// The cloud provider completed, unless it was cancelled and dropped.
    CloudCompleted(Option<Result<String, String>>),
    /// The local provider completed; this is the cancellation flag after that.
    LocalCompleted { result: Result<String, String>, cancelled: bool },
}

/// What to do next with a provider.
pub enum ProviderStep {
    /// Run the cloud provider until it completes or is cancelled.
    RunCloud,
    /// Run the local provider to its end, cancelled or not: it may own an engine.
    DrainLocal,
    /// It is over; there is no transcript where it was cancelled.
    Finished(Result<Option<String>, String>),
}

/// What to do next with a provider.
pub open spec fn provider(event: ProviderEvent) -> ProviderStep {
    match event {
        ProviderEvent::Starting { cloud, cancelled } => if cancelled {
            ProviderStep::Finished(Ok(None))
        } else if cloud {
            ProviderStep::RunCloud
        } else {
            ProviderStep::DrainLocal
        },
        ProviderEvent::CloudCompleted(None) => ProviderStep::Finished(Ok(None)),
        ProviderEvent::CloudCompleted(Some(Ok(text))) => ProviderStep::Finished(Ok(Some(text))),
        ProviderEvent::CloudCompleted(Some(Err(e))) => ProviderStep::Finished(Err(e)),
        ProviderEvent::LocalCompleted { result, cancelled } => if cancelled {
            ProviderStep::Finished(Ok(None))
        } else {
            match result {
                Ok(text) => ProviderStep::Finished(Ok(Some(text))),
                Err(e) => ProviderStep::Finished(Err(e)),
            }
        },
    }
}

/// Decides how a provider goes on. Local inference may still own an engine after
/// cancellation, so it is drained before a new recording is allowed; a cloud future
/// can be dropped at once.
pub fn run_provider(event: ProviderEvent) -> (r: ProviderStep)
    ensures
        r == provider(event),
{
    match event {
        ProviderEvent::Starting { cloud, cancelled } => if cancelled {
            ProviderStep::Finished(Ok(None))
        } else if cloud {
            ProviderStep::RunCloud
        } else {
            ProviderStep::DrainLocal
        },
        ProviderEvent::CloudCompleted(None) => ProviderStep::Finished(Ok(None)),
        ProviderEvent::CloudCompleted(Some(Ok(text))) => ProviderStep::Finished(Ok(Some(text))),
        ProviderEvent::CloudCompleted(Some(Err(e))) => ProviderStep::Finished(Err(e)),
        ProviderEvent::LocalCompleted { result, cancelled } => if cancelled {
            ProviderStep::Finished(Ok(None))
        } else {
            match result {
                Ok(text) => ProviderStep::Finished(Ok(Some(text))),
                Err(e) => ProviderStep::Finished(Err(e)),
            }
        },
    }
}

/// What an operation comes to, given what happens to it, if it comes to an end.
pub open spec fn completed<T>(events: Seq<CompletionEvent<T>>) -> Option<Option<T>>
    decreases events.len(),
{
    if events.len() == 0 {
        None
    } else {
        match completion(events.first()) {
            CompletionStep::Poll => completed(events.drop_first()),
            CompletionStep::Finished(result) => Some(result),
        }
    }
}

/// A result is only delivered where the cancellation flag was never seen set, neither
/// before a poll nor after the one that completed the operation.
pub proof fn delivered_results_were_not_cancelled<T>(events: Seq<CompletionEvent<T>>, result: T)
    requires
        completed(events) == Some(Some(result)),
    ensures
        exists|n: int|
            0 <= n < events.len() && #[trigger] events[n] == (CompletionEvent::Ready {
                result,
                cancelled: false,
            }) && forall|i: int|
                0 <= i < n ==> #[trigger] events[i] == (CompletionEvent::<T>::Waiting {
                    cancelled: false,
                }),
    decreases events.len(),
{
    if completion(events.first()) is Poll {
        let rest = events.drop_first();
        delivered_results_were_not_cancelled(rest, result);
        let n = choose|n: int|
            0 <= n < rest.len() && #[trigger] rest[n] == (CompletionEvent::Ready {
                result,
                cancelled: false,
            }) && forall|i: int|
                0 <= i < n ==> #[trigger] rest[i] == (CompletionEvent::<T>::Waiting {
                    cancelled: false,
                });
        assert(events[n + 1] == rest[n]);
        assert forall|i: int| 0 <= i < n + 1 implies #[trigger] events[i] == (CompletionEvent::<
            T,
        >::Waiting { cancelled: false }) by {
            if i > 0 {
                assert(events[i] == rest[i - 1]);
            }
        }
    } else {
        assert(events[0] == (CompletionEvent::Ready { result, cancelled: false }));
    }
}

/// Cancellation ends an operation that has not completed, at the next look at the
/// flag, without a result.
pub proof fn cancellation_ends_a_stalled_operation<T>(events: Seq<CompletionEvent<T>>, n: int)
    requires
        0 <= n < events.len(),
        events[n] == (CompletionEvent::<T>::Waiting { cancelled: true }),
        forall|i: int| 0 <= i < n ==> (#[trigger] events[i]) is Waiting,
    ensures
        completed(events) == Some(None::<T>),
    decreases events.len(),
{
    if n > 0 && completion(events[0]) is Poll {
        let rest = events.drop_first();
        assert forall|i: int| 0 <= i < n - 1 implies (#[trigger] rest[i]) is Waiting by {
            assert(rest[i] == events[i + 1]);
        }
        assert(rest[n - 1] == events[n]);
        cancellation_ends_a_stalled_operation(rest, n - 1);
    }
}

/// What the calls of a provider come to.
pub ghost struct ProviderRun {
    pub ran_cloud: bool,
    pub ran_local: bool,
    /// There is none while the cloud provider has not completed.
    pub result: Option<Result<Option<String>, String>>,
}

/// What a provider comes to: `http` is what happens to the cloud provider, `local` what
/// the local one comes to, and `cancelled_at_end` the cancellation flag after that.
pub open spec fn provider_run(
    cloud: bool,
    cancelled: bool,
    http: Seq<CompletionEvent<Result<String, String>>>,
    local: Result<String, String>,
    cancelled_at_end: bool,
) -> ProviderRun {
    match provider(ProviderEvent::Starting { cloud, cancelled }) {
        ProviderStep::Finished(result) => ProviderRun {
            ran_cloud: false,
            ran_local: false,
            result: Some(result),
        },
        ProviderStep::RunCloud => ProviderRun {
            ran_cloud: true,
            ran_local: false,
            result: match completed(http) {
                None => None,
                Some(outcome) => match provider(ProviderEvent::CloudCompleted(outcome)) {
                    ProviderStep::Finished(result) => Some(result),
                    _ => None,
                },
            },
        },
        ProviderStep::DrainLocal => ProviderRun {
            ran_cloud: false,
            ran_local: true,
            result: match provider(
                ProviderEvent::LocalCompleted { result: local, cancelled: cancelled_at_end },
            ) {
                ProviderStep::Finished(result) => Some(result),
                _ => None,
            },
        },
    }
}

/// Only the selected provider runs, and none after cancellation.
pub proof fn only_the_selected_provider_runs(
    cloud: bool,
    cancelled: bool,
    http: Seq<CompletionEvent<Result<String, String>>>,
    local: Result<String, String>,
    cancelled_at_end: bool,
)
    ensures
        ({
            let run = provider_run(cloud, cancelled, http, local, cancelled_at_end);
            &&& run.ran_cloud == (cloud && !cancelled)
            &&& run.ran_local == (!cloud && !cancelled)
            &&& cancelled ==> run.result == Some(Ok::<Option<String>, String>(None))
        }),
{
}

/// A local provider that was started is always run to its end; what it came to is
/// discarded if it was cancelled meanwhile, and returned otherwise.
pub proof fn local_work_is_drained(
    http: Seq<CompletionEvent<Result<String, String>>>,
    local: Result<String, String>,
    cancelled_at_end: bool,
)
    ensures
        ({
            let run = provider_run(false, false, http, local, cancelled_at_end);
            &&& run.ran_local
            &&& run.result is Some
            &&& cancelled_at_end ==> run.result == Some(Ok::<Option<String>, String>(None))
            &&& !cancelled_at_end ==> run.result == Some(
                match local {
                    Ok(text) => Ok::<Option<String>, String>(Some(text)),
                    Err(e) => Err(e),
                },
            )
        }),
{
}

/// A cloud provider that is cancelled while it stalls comes to an end without a
/// transcript, so that the next request can be made.
pub proof fn a_stalled_cloud_provider_can_be_cancelled(
    http: Seq<CompletionEvent<Result<String, String>>>,
    n: int,
    local: Result<String, String>,
    cancelled_at_end: bool,
)
    requires
        0 <= n < http.len(),
        http[n] == (CompletionEvent::<Result<String, String>>::Waiting { cancelled: true }),
        forall|i: int| 0 <= i < n ==> (#[trigger] http[i]) is Waiting,
    ensures
        provider_run(true, false, http, local, cancelled_at_end).result == Some(
            Ok::<Option<String>, String>(None),
        ),
{
    cancellation_ends_a_stalled_operation(http, n);
}

/// What becomes of a recording: whether the provider was called, and the result.
pub open spec fn recording_run<S, T>(saved: Result<S, String>, outcome: T) -> (
    bool,
    Result<(S, T), String>,
) {
    match persistence(PersistEvent::<S, T>::Persisted(saved)) {
        PersistStep::Finished(result) => (false, result),
        PersistStep::Transcribe(kept) => match persistence(
            PersistEvent::Transcribed(kept, outcome),
        ) {
            PersistStep::Finished(result) => (true, result),
            PersistStep::Transcribe(_) => (true, Err(arbitrary())),
        },
    }
}

/// A provider is called exactly where the recording was saved, and then whatever it
/// comes to, the saved recording is returned with it. A recording that could not be
/// saved is not uploaded.
pub proof fn recordings_are_saved_before_they_are_sent<S, T>(saved: Result<S, String>, outcome: T)
    ensures
        recording_run(saved, outcome).0 <==> saved is Ok,
        saved matches Ok(kept) ==> recording_run(saved, outcome).1 == Ok::<(S, T), String>(
            (kept, outcome),
        ),
        saved matches Err(e) ==> recording_run(saved, outcome).1 == Err::<(S, T), String>(e),
{
}

/// An operation is polled as long as it is neither completed nor cancelled. One that
/// completes is over with exactly its result, unless the flag is set by then; one that is
/// cancelled is over without a result.
pub proof fn operations_end_with_their_result<T>(result: T)
    ensures
        completion(CompletionEvent::<T>::Waiting { cancelled: false }) == CompletionStep::<
            T,
        >::Poll,
        completion(CompletionEvent::<T>::Waiting { cancelled: true }) == CompletionStep::<
            T,
        >::Finished(None),
        completion(CompletionEvent::Ready { result, cancelled: false })
            == CompletionStep::Finished(Some(result)),
        completion(CompletionEvent::Ready { result, cancelled: true }) == CompletionStep::<
            T,
        >::Finished(None),
{
}

/// An operation that is polled any number of times without being cancelled, and then
/// completes, delivers exactly what it completed with; if the flag is set by then, it
/// delivers nothing.
pub proof fn completed_operations_deliver_their_result<T>(
    events: Seq<CompletionEvent<T>>,
    result: T,
    cancelled: bool,
)
    requires
        events.len() > 0,
        events.last() == (CompletionEvent::Ready { result, cancelled }),
        forall|i: int|
            0 <= i < events.len() - 1 ==> #[trigger] events[i] == (CompletionEvent::<T>::Waiting {
                cancelled: false,
            }),
    ensures
        completed(events) == Some(
            if cancelled {
                None
            } else {
                Some(result)
            },
        ),
    decreases events.len(),
{
    if events.len() > 1 {
        let rest = events.drop_first();
        assert(events[0] == (CompletionEvent::<T>::Waiting { cancelled: false }));
        assert(rest.last() == events.last());
        assert forall|i: int| 0 <= i < rest.len() - 1 implies #[trigger] rest[i] == (
        CompletionEvent::<T>::Waiting { cancelled: false }) by {
            assert(rest[i] == events[i + 1]);
        }
        completed_operations_deliver_their_result(rest, result, cancelled);
    }
}

/// What a provider completed with is what its recording gets, transcript or error, of
/// whatever length and content; nothing is delivered only where it was cancelled.
pub proof fn provider_results_are_delivered(result: Result<String, String>)
    ensures
        ({
            let delivered = match result {
                Ok(text) => Ok::<Option<String>, String>(Some(text)),
                Err(e) => Err(e),
            };
            &&& provider(ProviderEvent::CloudCompleted(Some(result))) == ProviderStep::Finished(
                delivered,
            )
            &&& provider(ProviderEvent::LocalCompleted { result, cancelled: false })
                == ProviderStep::Finished(delivered)
            &&& provider(ProviderEvent::LocalCompleted { result, cancelled: true })
                == ProviderStep::Finished(Ok(None))
            &&& provider(ProviderEvent::CloudCompleted(None)) == ProviderStep::Finished(Ok(None))
        }),
{
}

/// The provider that was chosen is started, and only that one; none is started where the
/// recording is cancelled already.
pub proof fn the_chosen_provider_is_started(cloud: bool)
    ensures
        provider(ProviderEvent::Starting { cloud, cancelled: true }) == ProviderStep::Finished(
            Ok(None),
        ),
        provider(ProviderEvent::Starting { cloud, cancelled: false }) is RunCloud <==> cloud,
        provider(ProviderEvent::Starting { cloud, cancelled: false }) is DrainLocal <==> !cloud,
{
}

/// A cloud provider that completes, with the flag never seen set, comes to exactly what it
/// completed with; if the flag is set when it completes, to nothing.
pub proof fn cloud_results_are_delivered(
    http: Seq<CompletionEvent<Result<String, String>>>,
    result: Result<String, String>,
    cancelled: bool,
    local: Result<String, String>,
    cancelled_at_end: bool,
)
    requires
        http.len() > 0,
        http.last() == (CompletionEvent::Ready { result, cancelled }),
        forall|i: int|
            0 <= i < http.len() - 1 ==> #[trigger] http[i] == (CompletionEvent::<
                Result<String, String>,
            >::Waiting { cancelled: false }),
    ensures
        provider_run(true, false, http, local, cancelled_at_end).result == Some(
            if cancelled {
                Ok::<Option<String>, String>(None)
            } else {
                match result {
                    Ok(text) => Ok(Some(text)),
                    Err(e) => Err(e),
                }
            },
        ),
{
    completed_operations_deliver_their_result(http, result, cancelled);
}

/// A recording that was saved goes to the provider, and comes back with whatever the
/// provider came to; one that could not be saved goes no further, and the reason is told.
pub proof fn saved_recordings_keep_their_outcome<S, T>(saved: S, outcome: T, e: String)
    ensures
        persistence(PersistEvent::<S, T>::Persisted(Ok(saved))) == PersistStep::<S, T>::Transcribe(
            saved,
        ),
        persistence(PersistEvent::<S, T>::Persisted(Err(e))) == PersistStep::<S, T>::Finished(
            Err(e),
        ),
        persistence(PersistEvent::Transcribed(saved, outcome)) == PersistStep::Finished(
            Ok((saved, outcome)),
        ),
{
}

} // verus!
