//! What holds of a transcription as a whole, whatever the outside steps come to.

use vstd::prelude::*;

use crate::codex_api;
use crate::manager;
use crate::multipart;
use crate::refresh;
use crate::text;
use crate::transcribe;
use crate::wav;

verus! {

/// What came of a request, and what can be read of the answer.
pub ghost struct Answer {
    pub reply: transcribe::ReplyView,
    /// The text that shows the status.
    pub status_text: Seq<char>,
    /// The body as text, for a refusal.
    pub error_body: Seq<char>,
    /// The text in the body, or why there is none, for a success.
    pub said: Result<Seq<char>, Seq<char>>,
}

/// What the outside steps of one transcription come to.
pub ghost struct Surroundings {
    pub agent: Seq<char>,
    pub client: Result<(), Seq<char>>,
    pub token: manager::TokenResultView,
    pub first: Answer,
    pub new_token: manager::TokenResultView,
    pub second: Answer,
}

/// What a transcription waits for.
pub ghost enum Wait {
    Token,
    FirstReply,
    FirstBody,
    NewToken,
    SecondReply,
    SecondBody,
}

/// What one transcription comes to.
pub ghost struct Outcome {
    pub result: Result<Seq<char>, Seq<char>>,
    /// Whether a token was asked for.
    pub asked_for_token: bool,
    /// The token that was reported as rejected, if one was.
    pub rejected: Option<Seq<char>>,
    /// The requests that were sent, in their order.
    pub requests: Seq<transcribe::TranscribeRequestView>,
    /// What it waited for, in its order.
    pub waits: Seq<Wait>,
}

/// One transcription from its beginning to its end: the steps of `transcribe` in
/// their order.
pub open spec fn run(
    samples: Seq<i16>,
    language: Option<Seq<char>>,
    url: Seq<char>,
    id: Seq<char>,
    s: Surroundings,
) -> Outcome {
    match transcribe::start(samples, language, url, id) {
        transcribe::StartStepView::Finished(result) => Outcome {
            result,
            asked_for_token: false,
            rejected: None,
            requests: seq![],
            waits: seq![],
        },
        transcribe::StartStepView::BuildClient(upload) => run_upload(upload, s),
    }
}

/// A transcription from the client on.
pub open spec fn run_upload(upload: transcribe::UploadView, s: Surroundings) -> Outcome {
    match upload.after_client(s.client) {
        transcribe::ClientStepView::Finished(result) => Outcome {
            result,
            asked_for_token: false,
            rejected: None,
            requests: seq![],
            waits: seq![],
        },
        transcribe::ClientStepView::GetToken(upload) => match upload.after_token(
            s.token,
            s.agent,
        ) {
            transcribe::SendStepView::Finished(result) => Outcome {
                result,
                asked_for_token: true,
                rejected: None,
                requests: seq![],
                waits: seq![Wait::Token],
            },
            transcribe::SendStepView::Send(request, attempt) => run_first(request, attempt, s),
        },
    }
}

/// A transcription from the first request on.
pub open spec fn run_first(
    request: transcribe::TranscribeRequestView,
    attempt: transcribe::FirstAttemptView,
    s: Surroundings,
) -> Outcome {
    match attempt.after_reply(s.first.reply) {
        transcribe::FirstReplyStepView::Finished(result) => Outcome {
            result,
            asked_for_token: true,
            rejected: None,
            requests: seq![request],
            waits: seq![Wait::Token, Wait::FirstReply],
        },
        transcribe::FirstReplyStepView::ReadError => Outcome {
            result: Err(transcribe::refusal(s.first.status_text, s.first.error_body)),
            asked_for_token: true,
            rejected: None,
            requests: seq![request],
            waits: seq![Wait::Token, Wait::FirstReply, Wait::FirstBody],
        },
        transcribe::FirstReplyStepView::ReadTranscript => Outcome {
            result: transcribe::transcript(s.first.said),
            asked_for_token: true,
            rejected: None,
            requests: seq![request],
            waits: seq![Wait::Token, Wait::FirstReply, Wait::FirstBody],
        },
        transcribe::FirstReplyStepView::RefreshToken(rejected, upload) => run_retry(
            request,
            rejected,
            upload,
            s,
        ),
    }
}

/// A transcription from the second token on.
pub open spec fn run_retry(
    request: transcribe::TranscribeRequestView,
    rejected: Seq<char>,
    upload: transcribe::UploadView,
    s: Surroundings,
) -> Outcome {
    match upload.after_new_token(s.new_token, s.agent) {
        transcribe::ResendStepView::Finished(result) => Outcome {
            result,
            asked_for_token: true,
            rejected: Some(rejected),
            requests: seq![request],
            waits: seq![Wait::Token, Wait::FirstReply, Wait::NewToken],
        },
        transcribe::ResendStepView::Send(second) => Outcome {
            result: match transcribe::after_second_reply(s.second.reply) {
                transcribe::SecondReplyStepView::Finished(result) => result,
                transcribe::SecondReplyStepView::ReadError => Err(
                    transcribe::refusal(s.second.status_text, s.second.error_body),
                ),
                transcribe::SecondReplyStepView::ReadTranscript => transcribe::transcript(
                    s.second.said,
                ),
            },
            asked_for_token: true,
            rejected: Some(rejected),
            requests: seq![request, second],
            waits: match transcribe::after_second_reply(s.second.reply) {
                transcribe::SecondReplyStepView::Finished(_) => seq![
                    Wait::Token,
                    Wait::FirstReply,
                    Wait::NewToken,
                    Wait::SecondReply,
                ],
                _ => seq![
                    Wait::Token,
                    Wait::FirstReply,
                    Wait::NewToken,
                    Wait::SecondReply,
                    Wait::SecondBody,
                ],
            },
        },
    }
}

/// Empty audio is transcribed to nothing, without a request and without a token.
pub proof fn empty_audio_needs_nothing(
    language: Option<Seq<char>>,
    url: Seq<char>,
    id: Seq<char>,
    s: Surroundings,
)
    ensures
        ({
            let o = run(seq![], language, url, id, s);
            &&& o.result == Ok::<Seq<char>, Seq<char>>(""@)
            &&& !o.asked_for_token
            &&& o.rejected is None
            &&& o.requests.len() == 0
        }),
{
}

/// There are at most two requests. A second is sent only where the first was rejected
/// for its token and another token was given, and it carries the same audio to the
/// same place: only the headers that name the token and the account can differ.
pub proof fn one_retry_with_identical_audio(
    samples: Seq<i16>,
    language: Option<Seq<char>>,
    url: Seq<char>,
    id: Seq<char>,
    s: Surroundings,
)
    ensures
        ({
            let o = run(samples, language, url, id, s);
            &&& o.requests.len() <= 2
            &&& forall|i: int|
                0 <= i < o.requests.len() ==> {
                    &&& (#[trigger] o.requests[i]).body == transcribe::upload_of(
                        samples,
                        language,
                        url,
                        id,
                    ).body
                    &&& o.requests[i].url == url
                    &&& o.requests[i].headers[0] == (
                        "Content-Type"@,
                        "multipart/form-data; boundary="@ + "----codex-transcribe-"@ + id,
                    )
                }
            &&& o.requests.len() >= 1 ==> s.token is Ok && o.requests[0] == transcribe::upload_of(
                samples,
                language,
                url,
                id,
            ).request(s.token->Ok_0.0, s.token->Ok_0.1, s.agent)
            &&& o.requests.len() == 2 ==> {
                &&& o.requests[1] == transcribe::upload_of(samples, language, url, id).request(
                    s.new_token->Ok_0.0,
                    s.new_token->Ok_0.1,
                    s.agent,
                )
                &&& s.first.reply == transcribe::ReplyView::Answered(transcribe::UNAUTHORIZED)
                &&& s.new_token is Ok
            }
        }),
{
    let o = run(samples, language, url, id, s);
    assert("multipart/form-data; boundary="@ + ("----codex-transcribe-"@ + id)
        == "multipart/form-data; boundary="@ + "----codex-transcribe-"@ + id);
    assert forall|i: int| 0 <= i < o.requests.len() implies {
        &&& (#[trigger] o.requests[i]).body == transcribe::upload_of(samples, language, url, id).body
        &&& o.requests[i].url == url
        &&& o.requests[i].headers[0] == (
            "Content-Type"@,
            "multipart/form-data; boundary="@ + "----codex-transcribe-"@ + id,
        )
    } by {
        assert(i == 0 || i == 1);
    }
}

/// A token is reported as rejected exactly where the server answered the first
/// request with a rejection, and it is the token that request was sent with. Where
/// no other token is given, nothing more is sent and the caller learns why.
pub proof fn rejection_asks_for_another_token(
    samples: Seq<i16>,
    language: Option<Seq<char>>,
    url: Seq<char>,
    id: Seq<char>,
    s: Surroundings,
)
    requires
        samples.len() > 0,
        s.client is Ok,
    ensures
        ({
            let o = run(samples, language, url, id, s);
            &&& o.rejected is Some <==> s.token is Ok && s.first.reply
                == transcribe::ReplyView::Answered(transcribe::UNAUTHORIZED)
            &&& o.rejected is Some ==> o.rejected == Some(s.token->Ok_0.0)
            &&& o.rejected is Some ==> o.requests[0].headers.contains(
                ("Authorization"@, "Bearer "@ + s.token->Ok_0.0),
            )
            &&& o.rejected is Some && s.new_token is Err ==> {
                &&& o.requests.len() == 1
                &&& o.result == Err::<Seq<char>, Seq<char>>(s.new_token->Err_0)
            }
            &&& o.rejected is Some && s.new_token is Ok ==> {
                &&& o.requests.len() == 2
                &&& o.requests[1].headers.contains(
                    ("Authorization"@, "Bearer "@ + s.new_token->Ok_0.0),
                )
            }
        }),
{
    let o = run(samples, language, url, id, s);
    if o.rejected is Some {
        assert(o.requests[0].headers[1] == ("Authorization"@, "Bearer "@ + s.token->Ok_0.0));
        if s.new_token is Ok {
            assert(o.requests[1].headers[1] == (
                "Authorization"@,
                "Bearer "@ + s.new_token->Ok_0.0,
            ));
        }
    }
}

/// Every request carries the samples: directly after the head of the file part, a WAV
/// file of the audio stands in the body byte for byte.
pub proof fn requests_carry_the_audio(
    samples: Seq<i16>,
    language: Option<Seq<char>>,
    url: Seq<char>,
    id: Seq<char>,
    s: Surroundings,
    i: int,
)
    requires
        0 <= i < run(samples, language, url, id, s).requests.len(),
    ensures
        ({
            let body = run(samples, language, url, id, s).requests[i].body;
            let audio = wav::wav_file(1, transcribe::SAMPLE_RATE as nat, 16, samples);
            let at = multipart::file_head(
                "----codex-transcribe-"@ + id,
                "codex.wav"@,
                "audio/wav"@,
            ).len() as int;
            &&& at + audio.len() <= body.len()
            &&& body.subrange(at, at + audio.len()) == audio
        }),
{
    one_retry_with_identical_audio(samples, language, url, id, s);
    multipart::audio_is_carried_unchanged(
        wav::wav_file(1, transcribe::SAMPLE_RATE as nat, 16, samples),
        "----codex-transcribe-"@ + id,
        "codex.wav"@,
        "audio/wav"@,
        language,
    );
    let upload = transcribe::upload_of(samples, language, url, id);
    assert(run(samples, language, url, id, s).requests[i].body == upload.body);
}

/// A transcript that the server pads with white space is returned without the padding
/// and otherwise as it is, whatever characters it is made of.
pub proof fn transcript_is_returned_intact(before: Seq<char>, said: Seq<char>, after: Seq<char>)
    requires
        forall|i: int| 0 <= i < before.len() ==> text::white_space(#[trigger] before[i]),
        forall|i: int| 0 <= i < after.len() ==> text::white_space(#[trigger] after[i]),
        said.len() > 0 ==> !text::white_space(said.first()) && !text::white_space(said.last()),
    ensures
        transcribe::transcript(Ok(before + said + after)) == Ok::<Seq<char>, Seq<char>>(said),
{
    text::trimming_removes_exactly_the_padding(before, said, after);
}

/// What is shown of an error is a beginning of it, of so many characters at most, and
/// all of it where it is no longer than that.
pub proof fn preview_is_a_bounded_beginning(shown: Seq<char>)
    ensures
        transcribe::preview(shown).len() <= transcribe::PREVIEW_CHARS,
        transcribe::preview(shown).is_prefix_of(shown),
        shown.len() <= transcribe::PREVIEW_CHARS ==> transcribe::preview(shown) == shown,
        shown.len() > transcribe::PREVIEW_CHARS ==> transcribe::preview(shown).len()
            == transcribe::PREVIEW_CHARS,
{
}

/// A transcription that is refused for any other reason than its token is not sent
/// again.
pub proof fn other_refusals_are_final(
    samples: Seq<i16>,
    language: Option<Seq<char>>,
    url: Seq<char>,
    id: Seq<char>,
    s: Surroundings,
    status: u16,
)
    requires
        s.first.reply == transcribe::ReplyView::Answered(status),
        status != transcribe::UNAUTHORIZED,
    ensures
        run(samples, language, url, id, s).requests.len() <= 1,
        run(samples, language, url, id, s).rejected is None,
        !refresh::success(status) && samples.len() > 0 ==> run(
            samples,
            language,
            url,
            id,
            s,
        ).result is Err,
{
}

/// A manually entered token that the server rejects is not replaced by the credentials
/// of a file: the answer of the session ends the transcription after one request.
pub proof fn a_rejected_manual_token_ends_the_transcription(
    samples: Seq<i16>,
    language: Option<Seq<char>>,
    url: Seq<char>,
    id: Seq<char>,
    s: Surroundings,
    session: manager::ManagerView,
    now: u64,
)
    requires
        session.credentials matches Some(c) && c.source is Manual && s.token == Ok::<
            (Seq<char>, Option<Seq<char>>),
            Seq<char>,
        >(c.grant()),
        session.token_step(Some(s.token->Ok_0.0), now) == manager::TokenStepView::Finished(
            s.new_token,
        ),
    ensures
        run(samples, language, url, id, s).requests.len() <= 1,
        run(samples, language, url, id, s).rejected is Some ==> run(
            samples,
            language,
            url,
            id,
            s,
        ).result == Err::<Seq<char>, Seq<char>>(
            "The manually entered Codex token expired or was rejected. Enter a new token; file credentials will not be substituted."@,
        ),
{
}

/// How long the waits take together, in milliseconds, where `took` says how long each
/// takes; nothing where one never ends.
pub open spec fn elapsed(waits: Seq<Wait>, took: spec_fn(Wait) -> Option<nat>) -> Option<nat>
    decreases waits.len(),
{
    if waits.len() == 0 {
        Some(0)
    } else {
        match (elapsed(waits.drop_last(), took), took(waits.last())) {
            (Some(before), Some(last)) => Some(before + last),
            _ => None,
        }
    }
}

/// Whether so much time is within a deadline of so many seconds.
pub open spec fn in_time(elapsed: Option<nat>, seconds: nat) -> bool {
    elapsed matches Some(millis) && millis <= 1000 * seconds
}

/// What a transcription comes to with a deadline that runs from its beginning to its end.
pub open spec fn run_with_deadline(
    samples: Seq<i16>,
    language: Option<Seq<char>>,
    url: Seq<char>,
    id: Seq<char>,
    s: Surroundings,
    took: spec_fn(Wait) -> Option<nat>,
    seconds: nat,
) -> Result<Seq<char>, Seq<char>> {
    let o = run(samples, language, url, id, s);
    transcribe::within_deadline(
        if in_time(elapsed(o.waits, took), seconds) {
            Some(o.result)
        } else {
            None
        },
        seconds,
    )
}

proof fn lemma_elapsed_grows(waits: Seq<Wait>, took: spec_fn(Wait) -> Option<nat>, k: int)
    requires
        0 <= k <= waits.len(),
    ensures
        elapsed(waits, took) is Some ==> {
            &&& elapsed(waits.take(k), took) is Some
            &&& elapsed(waits.take(k), took)->0 <= elapsed(waits, took)->0
        },
    decreases waits.len(),
{
    if k < waits.len() {
        lemma_elapsed_grows(waits.drop_last(), took, k);
        assert(waits.drop_last().take(k) == waits.take(k));
    } else {
        assert(waits.take(k) == waits);
    }
}

/// One deadline of 30 seconds covers a transcription at the endpoint as a whole:
/// credentials, upload, response body and the retry. Where all that it waits for ends in
/// this time together, the result is that of the transcription; where it does not, the
/// user is told so, always in the same words.
pub proof fn one_deadline_covers_every_stage(
    samples: Seq<i16>,
    language: Option<Seq<char>>,
    base: Option<Seq<char>>,
    endpoint: Option<Seq<char>>,
    id: Seq<char>,
    s: Surroundings,
    took: spec_fn(Wait) -> Option<nat>,
)
    ensures
        ({
            let url = transcribe::transcribe_url(codex_api::base_url(base, endpoint));
            let limit = transcribe::TRANSCRIPTION_TIMEOUT_SECS as nat;
            let o = run(samples, language, url, id, s);
            let r = run_with_deadline(samples, language, url, id, s, took, limit);
            &&& in_time(elapsed(o.waits, took), 30) ==> r == o.result
            &&& !in_time(elapsed(o.waits, took), 30) ==> r == Err::<Seq<char>, Seq<char>>(
                "Codex transcription timed out after 30 seconds. The recording can be retried from History."@,
            )
        }),
{
    reveal_strlit("Codex transcription timed out after ");
    reveal_strlit(" seconds. The recording can be retried from History.");
    reveal_strlit(
        "Codex transcription timed out after 30 seconds. The recording can be retried from History.",
    );
    reveal_with_fuel(text::decimal, 2);
    assert(text::decimal(30) == seq!['3', '0']);
    assert(transcribe::timeout_message(30)
        == "Codex transcription timed out after 30 seconds. The recording can be retried from History."@);
}

/// The deadline may pass at any stage: where what was waited for up to some stage takes
/// longer than the deadline, or one of it never ends, the transcription times out, however
/// short each wait is, and whatever would have come later.
pub proof fn the_deadline_passes_at_any_stage(
    samples: Seq<i16>,
    language: Option<Seq<char>>,
    url: Seq<char>,
    id: Seq<char>,
    s: Surroundings,
    took: spec_fn(Wait) -> Option<nat>,
    seconds: nat,
    k: int,
)
    requires
        0 <= k <= run(samples, language, url, id, s).waits.len(),
        !in_time(elapsed(run(samples, language, url, id, s).waits.take(k), took), seconds),
    ensures
        run_with_deadline(samples, language, url, id, s, took, seconds) == Err::<
            Seq<char>,
            Seq<char>,
        >(transcribe::timeout_message(seconds)),
{
    lemma_elapsed_grows(run(samples, language, url, id, s).waits, took, k);
}

/// A transcription waits for a token before its first reply, for another token only after
/// a rejection, and for nothing at all without audio; its requests are those whose replies
/// it waits for.
pub proof fn waits_follow_the_requests(
    samples: Seq<i16>,
    language: Option<Seq<char>>,
    url: Seq<char>,
    id: Seq<char>,
    s: Surroundings,
)
    ensures
        ({
            let o = run(samples, language, url, id, s);
            &&& samples.len() == 0 ==> o.waits.len() == 0
            &&& o.asked_for_token <==> o.waits.contains(Wait::Token)
            &&& o.rejected is Some <==> o.waits.contains(Wait::NewToken)
            &&& o.requests.len() >= 1 <==> o.waits.contains(Wait::FirstReply)
            &&& o.requests.len() == 2 <==> o.waits.contains(Wait::SecondReply)
        }),
{
    let o = run(samples, language, url, id, s);
    if o.waits.len() > 0 {
        assert(o.waits[0] == Wait::Token);
    }
    if o.waits.len() > 1 {
        assert(o.waits[1] == Wait::FirstReply);
    }
    if o.rejected is Some {
        assert(o.waits[2] == Wait::NewToken);
    }
    if o.requests.len() == 2 {
        assert(o.waits[3] == Wait::SecondReply);
    }
}

} // verus!
