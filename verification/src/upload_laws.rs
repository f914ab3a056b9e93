//! What is uploaded, byte for byte, and what each step of a transcription does, said of
//! what goes in and what comes out.

use vstd::prelude::*;

use crate::codex_api;
use crate::multipart;
use crate::text;
use crate::transcribe;
use crate::transcribe::{
    ClientStep, FirstAttempt, FirstReplyStep, Reply, ResendStep, Retry, SecondReplyStep, SendStep,
    StartStep, TranscribeRequest, TranscribeResponse, Upload,
};
use crate::transcribe_laws;
use crate::wav;

verus! {

proof fn lemma_le_bytes_2(n: nat)
    requires
        n < 0x1_0000,
    ensures
        wav::le_bytes(n, 2).len() == 2,
        wav::le_bytes(n, 2)[0] + 0x100 * wav::le_bytes(n, 2)[1] == n,
{
    reveal_with_fuel(wav::le_bytes, 3);
    assert(wav::le_bytes(n, 2) == seq![(n % 256) as u8, (n / 256 % 256) as u8]);
}

proof fn lemma_le_bytes_4(n: nat)
    requires
        n < 0x1_0000_0000,
    ensures
        wav::le_bytes(n, 4).len() == 4,
        wav::le_bytes(n, 4)[0] + 0x100 * wav::le_bytes(n, 4)[1] + 0x1_0000 * wav::le_bytes(n, 4)[2]
            + 0x100_0000 * wav::le_bytes(n, 4)[3] == n,
{
    reveal_with_fuel(wav::le_bytes, 5);
    assert(wav::le_bytes(n, 4) == seq![
        (n % 256) as u8,
        (n / 256 % 256) as u8,
        (n / 256 / 256 % 256) as u8,
        (n / 256 / 256 / 256 % 256) as u8,
    ]);
}

/// The number in two bytes, the lower first.
pub open spec fn number_in_two(s: Seq<u8>, at: int) -> int {
    s[at] + 0x100 * s[at + 1]
}

/// The number in four bytes, the lowest first.
pub open spec fn number_in_four(s: Seq<u8>, at: int) -> int {
    s[at] + 0x100 * s[at + 1] + 0x1_0000 * s[at + 2] + 0x100_0000 * s[at + 3]
}

/// The file of 16-bit mono samples: 44 bytes of header, then two bytes for each sample, the
/// lower first, in two's complement. The header names the format `RIFF`, the length of what
/// follows, `WAVE`, plain samples of one channel, the rate, the bytes in a second and in a
/// sample, 16 bits, and the length of the data.
pub proof fn wav_files_hold_their_format_and_samples(
    sample_rate: nat,
    samples: Seq<i16>,
    i: int,
)
    requires
        sample_rate <= 0x7fff_ffff,
        2 * samples.len() + 36 <= 0xffff_ffff,
    ensures
        ({
            let file = wav::wav_file(1, sample_rate, 16, samples);
            &&& file.len() == 44 + 2 * samples.len()
            &&& file.subrange(0, 4) == seq![0x52u8, 0x49, 0x46, 0x46]
            &&& number_in_four(file, 4) == 36 + 2 * samples.len()
            &&& file.subrange(8, 16) == seq![0x57u8, 0x41, 0x56, 0x45, 0x66, 0x6d, 0x74, 0x20]
            &&& number_in_four(file, 16) == 16
            &&& number_in_two(file, 20) == 1
            &&& number_in_two(file, 22) == 1
            &&& number_in_four(file, 24) == sample_rate
            &&& number_in_four(file, 28) == 2 * sample_rate
            &&& number_in_two(file, 32) == 2
            &&& number_in_two(file, 34) == 16
            &&& file.subrange(36, 40) == seq![0x64u8, 0x61, 0x74, 0x61]
            &&& number_in_four(file, 40) == 2 * samples.len()
            &&& 0 <= i < samples.len() ==> number_in_two(file, 44 + 2 * i) == (if samples[i] < 0 {
                samples[i] + 0x1_0000
            } else {
                samples[i] as int
            })
        }),
{
    let n = 2 * samples.len();
    let riff = seq![0x52u8, 0x49, 0x46, 0x46];
    let wave = seq![0x57u8, 0x41, 0x56, 0x45];
    let fmt = seq![0x66u8, 0x6d, 0x74, 0x20];
    let data = seq![0x64u8, 0x61, 0x74, 0x61];
    lemma_le_bytes_4(36 + n);
    lemma_le_bytes_4(16);
    lemma_le_bytes_2(1);
    lemma_le_bytes_4(sample_rate);
    lemma_le_bytes_4(sample_rate * 2);
    lemma_le_bytes_2(2);
    lemma_le_bytes_2(16);
    lemma_le_bytes_4(n);
    let header = wav::wav_header(1, sample_rate, 16, n);
    let file = wav::wav_file(1, sample_rate, 16, samples);
    assert(1nat * (16nat / 8) == 2);
    assert(header == riff + wav::le_bytes(36 + n, 4) + wave + fmt + wav::le_bytes(16, 4)
        + wav::le_bytes(1, 2) + wav::le_bytes(1, 2) + wav::le_bytes(sample_rate, 4)
        + wav::le_bytes(sample_rate * 2, 4) + wav::le_bytes(2, 2) + wav::le_bytes(16, 2) + data
        + wav::le_bytes(n, 4));
    assert(header.len() == 44);
    assert(header.subrange(0, 4) == riff);
    assert(header.subrange(4, 8) == wav::le_bytes(36 + n, 4));
    assert(header.subrange(8, 16) == wave + fmt);
    assert(header.subrange(16, 20) == wav::le_bytes(16, 4));
    assert(header.subrange(20, 22) == wav::le_bytes(1, 2));
    assert(header.subrange(22, 24) == wav::le_bytes(1, 2));
    assert(header.subrange(24, 28) == wav::le_bytes(sample_rate, 4));
    assert(header.subrange(28, 32) == wav::le_bytes(sample_rate * 2, 4));
    assert(header.subrange(32, 34) == wav::le_bytes(2, 2));
    assert(header.subrange(34, 36) == wav::le_bytes(16, 2));
    assert(header.subrange(36, 40) == data);
    assert(header.subrange(40, 44) == wav::le_bytes(n, 4));
    assert forall|k: int| 0 <= k < 44 implies #[trigger] file[k] == header[k] by {}
    assert(file.subrange(0, 4) == riff);
    assert(file.subrange(8, 16) == seq![0x57u8, 0x41, 0x56, 0x45, 0x66, 0x6d, 0x74, 0x20]);
    assert(file.subrange(36, 40) == data);
    lemma_field_4(file, header, 4, wav::le_bytes(36 + n, 4));
    lemma_field_4(file, header, 16, wav::le_bytes(16, 4));
    lemma_field_2(file, header, 20, wav::le_bytes(1, 2));
    lemma_field_2(file, header, 22, wav::le_bytes(1, 2));
    lemma_field_4(file, header, 24, wav::le_bytes(sample_rate, 4));
    lemma_field_4(file, header, 28, wav::le_bytes(sample_rate * 2, 4));
    lemma_field_2(file, header, 32, wav::le_bytes(2, 2));
    lemma_field_2(file, header, 34, wav::le_bytes(16, 2));
    lemma_field_4(file, header, 40, wav::le_bytes(n, 4));
    if 0 <= i < samples.len() {
        assert((2 * i) / 2 == i && (2 * i + 1) / 2 == i);
        assert(file[44 + 2 * i] == wav::sample_bytes(samples)[2 * i]);
        assert(file[44 + 2 * i + 1] == wav::sample_bytes(samples)[2 * i + 1]);
        assert(wav::sample_code(samples[i]) < 0x1_0000);
    }
}

proof fn lemma_field_4(file: Seq<u8>, header: Seq<u8>, at: int, field: Seq<u8>)
    requires
        0 <= at <= 40,
        header.len() == 44,
        field.len() == 4,
        header.subrange(at, at + 4) == field,
        forall|k: int| 0 <= k < 44 ==> #[trigger] file[k] == header[k],
    ensures
        number_in_four(file, at) == field[0] + 0x100 * field[1] + 0x1_0000 * field[2] + 0x100_0000
            * field[3],
{
    let sub = header.subrange(at, at + 4);
    assert(sub[0] == header[at] && sub[1] == header[at + 1] && sub[2] == header[at + 2] && sub[3]
        == header[at + 3]);
}

proof fn lemma_field_2(file: Seq<u8>, header: Seq<u8>, at: int, field: Seq<u8>)
    requires
        0 <= at <= 42,
        header.len() == 44,
        field.len() == 2,
        header.subrange(at, at + 2) == field,
        forall|k: int| 0 <= k < 44 ==> #[trigger] file[k] == header[k],
    ensures
        number_in_two(file, at) == field[0] + 0x100 * field[1],
{
    let sub = header.subrange(at, at + 2);
    assert(sub[0] == header[at] && sub[1] == header[at + 1]);
}

/// As many samples are taken as a file can count the bytes of, and no more.
pub proof fn the_most_samples_fill_the_count()
    ensures
        2 * wav::MAX_SAMPLES + 36 <= 0xffff_ffff,
        2 * (wav::MAX_SAMPLES + 1) + 36 > 0xffff_ffff,
{
}

/// A body is the head of the file part, the audio, the end of the file part, the language
/// part where there is a language, and the closing boundary; each of these is exactly this
/// text in UTF-8.
pub proof fn bodies_are_made_of_these_lines(
    audio: Seq<u8>,
    boundary: Seq<char>,
    filename: Seq<char>,
    content_type: Seq<char>,
    language: Seq<char>,
)
    ensures
        ({
            let head = vstd::utf8::encode_utf8("--"@ + boundary + "\r\n"@)
                + vstd::utf8::encode_utf8(
                "Content-Disposition: form-data; name=\"file\"; filename=\""@ + filename
                    + "\"\r\n"@,
            ) + vstd::utf8::encode_utf8("Content-Type: "@ + content_type + "\r\n"@)
                + vstd::utf8::encode_utf8("\r\n"@);
            let end = vstd::utf8::encode_utf8("\r\n"@);
            let named = vstd::utf8::encode_utf8("--"@ + boundary + "\r\n"@)
                + vstd::utf8::encode_utf8(
                "Content-Disposition: form-data; name=\"language\"\r\n"@,
            ) + vstd::utf8::encode_utf8("\r\n"@) + vstd::utf8::encode_utf8(language + "\r\n"@);
            let closing = vstd::utf8::encode_utf8("--"@ + boundary + "--\r\n"@);
            &&& multipart::multipart_body(audio, boundary, filename, content_type, Some(language))
                == head + audio + end + named + closing
            &&& multipart::multipart_body(audio, boundary, filename, content_type, None) == head
                + audio + end + closing
        }),
{
}

/// What every request of a transcription uploads: the WAV file of its samples at 16 kHz
/// and, directly after it, the language where there is one, between the boundaries of this
/// transcription; and nothing else.
pub proof fn requests_carry_audio_and_language(
    samples: Seq<i16>,
    language: Option<Seq<char>>,
    url: Seq<char>,
    id: Seq<char>,
    s: transcribe_laws::Surroundings,
    i: int,
)
    requires
        0 <= i < transcribe_laws::run(samples, language, url, id, s).requests.len(),
    ensures
        ({
            let request = transcribe_laws::run(samples, language, url, id, s).requests[i];
            let boundary = "----codex-transcribe-"@ + id;
            let head = vstd::utf8::encode_utf8("--"@ + boundary + "\r\n"@)
                + vstd::utf8::encode_utf8(
                "Content-Disposition: form-data; name=\"file\"; filename=\""@ + "codex.wav"@
                    + "\"\r\n"@,
            ) + vstd::utf8::encode_utf8("Content-Type: "@ + "audio/wav"@ + "\r\n"@)
                + vstd::utf8::encode_utf8("\r\n"@);
            let audio = wav::wav_file(1, 16000, 16, samples);
            let end = vstd::utf8::encode_utf8("\r\n"@);
            let closing = vstd::utf8::encode_utf8("--"@ + boundary + "--\r\n"@);
            &&& language is None ==> request.body == head + audio + end + closing
            &&& language matches Some(lang) ==> request.body == head + audio + end + (
            vstd::utf8::encode_utf8("--"@ + boundary + "\r\n"@) + vstd::utf8::encode_utf8(
                "Content-Disposition: form-data; name=\"language\"\r\n"@,
            ) + vstd::utf8::encode_utf8("\r\n"@) + vstd::utf8::encode_utf8(lang + "\r\n"@))
                + closing
            &&& request.url == url
        }),
{
    transcribe_laws::one_retry_with_identical_audio(samples, language, url, id, s);
    let o = transcribe_laws::run(samples, language, url, id, s);
    let upload = transcribe::upload_of(samples, language, url, id);
    assert(o.requests[i].body == upload.body);
}

/// How a transcription begins: without audio it is over, with an empty transcript; else it
/// goes to the given place, with a boundary of its own and a body of the audio and the
/// language.
pub proof fn transcriptions_begin_with_the_audio(
    samples: Seq<i16>,
    language: Option<Seq<char>>,
    url: Seq<char>,
    id: Seq<char>,
)
    ensures
        samples.len() == 0 ==> transcribe::start(samples, language, url, id)
            == transcribe::StartStepView::Finished(Ok(Seq::<char>::empty())),
        ({
            let boundary = "----codex-transcribe-"@ + id;
            let upload = transcribe::UploadView {
                url,
                boundary,
                body: multipart::multipart_body(
                    wav::wav_file(1, 16000, 16, samples),
                    boundary,
                    "codex.wav"@,
                    "audio/wav"@,
                    language,
                ),
            };
            &&& transcribe::upload_of(samples, language, url, id) == upload
            &&& samples.len() > 0 ==> transcribe::start(samples, language, url, id)
                == transcribe::StartStepView::BuildClient(upload)
        }),
{
    reveal_strlit("");
    assert(""@ == Seq::<char>::empty());
}

/// The audio is posted to the path `/transcribe` below the base URL.
pub proof fn audio_goes_below_the_base_url(base: Seq<char>)
    ensures
        transcribe::transcribe_url(base) == base + "/transcribe"@,
{
}

/// A configured base URL is used without its trailing slashes, whatever the endpoint says.
pub proof fn a_configured_base_url_is_used(
    url: Seq<char>,
    slashes: Seq<char>,
    endpoint: Option<Seq<char>>,
)
    requires
        url.len() > 0,
        url.last() != '/',
        forall|i: int| 0 <= i < slashes.len() ==> #[trigger] slashes[i] == '/',
    ensures
        codex_api::base_url(Some(url + slashes), endpoint) == url,
{
    text::stripping_removes_exactly_the_run(url, slashes, '/');
}

/// Without a base URL, or with one of slashes only, a server on this machine is used where
/// the endpoint says `localhost` in any case, and the provider otherwise.
pub proof fn without_a_base_url_the_endpoint_decides(
    slashes: Seq<char>,
    base: Option<Seq<char>>,
    endpoint: Option<Seq<char>>,
)
    requires
        forall|i: int| 0 <= i < slashes.len() ==> #[trigger] slashes[i] == '/',
        base is None || base == Some(slashes),
    ensures
        ({
            let local = endpoint is Some && endpoint->0.len() == 9 && forall|i: int|
                0 <= i < 9 ==> text::one_letter(#[trigger] endpoint->0[i], "localhost"@[i]);
            &&& local ==> codex_api::base_url(base, endpoint) == "http://localhost:8000/api"@
            &&& !local ==> codex_api::base_url(base, endpoint) == "https://chatgpt.com/backend-api"@
        }),
{
    reveal_strlit("localhost");
    text::stripping_removes_exactly_the_run(seq![], slashes, '/');
    assert(Seq::<char>::empty() + slashes == slashes);
    if endpoint is Some {
        text::only_the_case_of_ascii_letters_is_ignored(endpoint->0, "localhost"@);
    }
}

/// The user agent names the application, its version, the system and the processor.
pub proof fn user_agents_name_version_system_and_processor(os: Seq<char>, arch: Seq<char>)
    ensures
        codex_api::user_agent(os, arch) == "Codex Desktop/1.0.4 ("@ + codex_api::platform_name(os)
            + "; "@ + codex_api::arch_name(arch) + ")"@,
        os == "macos"@ ==> codex_api::platform_name(os) == "darwin"@,
        os == "windows"@ ==> codex_api::platform_name(os) == "win32"@,
        os != "macos"@ && os != "windows"@ ==> codex_api::platform_name(os) == "linux"@,
        arch == "aarch64"@ ==> codex_api::arch_name(arch) == "arm64"@,
        arch == "x86_64"@ ==> codex_api::arch_name(arch) == "x64"@,
        arch != "aarch64"@ && arch != "x86_64"@ ==> codex_api::arch_name(arch) == "unknown"@,
{
    reveal_strlit("Codex Desktop/");
    reveal_strlit("1.0.4");
    reveal_strlit(" (");
    reveal_strlit("Codex Desktop/1.0.4 (");
    reveal_strlit("macos");
    reveal_strlit("windows");
    reveal_strlit("aarch64");
    reveal_strlit("x86_64");
    assert("macos"@ != "windows"@) by {
        assert("macos"@.len() == 5 && "windows"@.len() == 7);
    }
    assert("aarch64"@ != "x86_64"@) by {
        assert("aarch64"@.len() == 7 && "x86_64"@.len() == 6);
    }
    assert("Codex Desktop/"@ + "1.0.4"@ + " ("@ == "Codex Desktop/1.0.4 ("@);
}

/// A request names its token as the bearer, the application, the user agent and, where
/// there is one, the account; and nothing else.
pub proof fn auth_headers_are_these(
    token: Seq<char>,
    account: Seq<char>,
    agent: Seq<char>,
)
    ensures
        codex_api::auth_headers(token, None, agent) == seq![
            ("Authorization"@, "Bearer "@ + token),
            ("originator"@, "Codex Desktop"@),
            ("User-Agent"@, agent),
        ],
        codex_api::auth_headers(token, Some(account), agent) == seq![
            ("Authorization"@, "Bearer "@ + token),
            ("originator"@, "Codex Desktop"@),
            ("User-Agent"@, agent),
            ("ChatGPT-Account-Id"@, account),
        ],
{
}

/// A request posts the body of the upload, unchanged, to its place, with the type of the
/// body before the headers that authenticate it.
pub proof fn requests_post_the_upload(
    upload: transcribe::UploadView,
    token: Seq<char>,
    account_id: Option<Seq<char>>,
    agent: Seq<char>,
)
    ensures
        ({
            let request = upload.request(token, account_id, agent);
            &&& request.url == upload.url
            &&& request.body == upload.body
            &&& request.headers.len() == 1 + codex_api::auth_headers(token, account_id, agent).len()
            &&& request.headers[0] == (
                "Content-Type"@,
                "multipart/form-data; boundary="@ + upload.boundary,
            )
            &&& request.headers.skip(1) == codex_api::auth_headers(token, account_id, agent)
        }),
{
    let request = upload.request(token, account_id, agent);
    assert(request.headers.skip(1) == codex_api::auth_headers(token, account_id, agent));
}

/// The upload goes on to a token with a client, and is over without one.
pub proof fn uploads_need_a_client(upload: transcribe::UploadView, e: Seq<char>)
    ensures
        upload.after_client(Ok(())) == transcribe::ClientStepView::GetToken(upload),
        upload.after_client(Err(e)) == transcribe::ClientStepView::Finished(
            Err("Failed to build transcription client: "@ + e),
        ),
{
}

/// The first and the second request are sent with the token and the account that were
/// given for them; without a token the caller learns why.
pub proof fn tokens_are_sent_with_the_upload(
    upload: transcribe::UploadView,
    token: Seq<char>,
    account_id: Option<Seq<char>>,
    agent: Seq<char>,
    e: Seq<char>,
)
    ensures
        upload.after_token(Ok((token, account_id)), agent) == transcribe::SendStepView::Send(
            upload.request(token, account_id, agent),
            transcribe::FirstAttemptView { upload, token },
        ),
        upload.after_token(Err(e), agent) == transcribe::SendStepView::Finished(Err(e)),
        upload.after_new_token(Ok((token, account_id)), agent) == transcribe::ResendStepView::Send(
            upload.request(token, account_id, agent),
        ),
        upload.after_new_token(Err(e), agent) == transcribe::ResendStepView::Finished(Err(e)),
{
}

/// How replies are taken. The first of status 401 asks for another token than the one it
/// was sent with, for the same upload; a second 401 is an error like any other. From 200 to
/// 299 the transcript is read; any other status is shown as an error; and without an answer
/// the caller learns why.
pub proof fn replies_are_taken_by_their_status(
    attempt: transcribe::FirstAttemptView,
    status: u16,
    e: Seq<char>,
)
    ensures
        ({
            let first = attempt.after_reply(transcribe::ReplyView::Answered(status));
            let second = transcribe::after_second_reply(transcribe::ReplyView::Answered(status));
            &&& status == 401 ==> first == transcribe::FirstReplyStepView::RefreshToken(
                attempt.token,
                attempt.upload,
            )
            &&& 200 <= status <= 299 ==> first is ReadTranscript && second is ReadTranscript
            &&& status != 401 && (status < 200 || status > 299) ==> first is ReadError
            &&& status < 200 || status > 299 ==> second is ReadError
        }),
        attempt.after_reply(transcribe::ReplyView::Unanswered(e))
            == transcribe::FirstReplyStepView::Finished(
            Err("Transcription request failed: "@ + e),
        ),
        transcribe::after_second_reply(transcribe::ReplyView::Unanswered(e))
            == transcribe::SecondReplyStepView::Finished(
            Err("Transcription request failed: "@ + e),
        ),
{
}

/// A refusal is shown by its status and by the first 500 characters of its body, all of
/// them where there are no more.
pub proof fn refusals_show_status_and_beginning(
    status_text: Seq<char>,
    shown: Seq<char>,
    rest: Seq<char>,
)
    requires
        shown.len() <= 500,
        shown.len() < 500 ==> rest.len() == 0,
    ensures
        transcribe::preview(shown + rest) == shown,
        transcribe::refusal(status_text, shown + rest) == "Transcription failed: HTTP "@
            + status_text + " — "@ + shown,
{
    let all = shown + rest;
    assert(all.take(shown.len() as int) == shown);
    if rest.len() == 0 {
        assert(all == shown);
    }
    assert(transcribe::preview(all) == shown);
}

/// A transcript that cannot be read is reported with the reason; one that can be read is
/// never an error.
pub proof fn unreadable_transcripts_are_reported(said: Seq<char>, e: Seq<char>)
    ensures
        transcribe::transcript(Err(e)) == Err::<Seq<char>, Seq<char>>(
            "Failed to parse transcription response: "@ + e,
        ),
        transcribe::transcript(Ok(said)) is Ok,
{
}

/// What ended in time is what a deadline leaves; what did not is reported with the seconds
/// of the deadline.
pub proof fn deadlines_leave_what_ended_in_time(
    result: Result<Seq<char>, Seq<char>>,
    seconds: nat,
)
    ensures
        transcribe::within_deadline(Some(result), seconds) == result,
        transcribe::within_deadline(None, seconds) == Err::<Seq<char>, Seq<char>>(
            "Codex transcription timed out after "@ + text::decimal(seconds)
                + " seconds. The recording can be retried from History."@,
        ),
{
}

/// What came of a request is told whole: an answer within time by its transcript, without
/// the white space around it and otherwise as it was said.
pub proof fn a_transcription_returns_what_was_said(
    samples: Seq<i16>,
    language: Option<Seq<char>>,
    url: Seq<char>,
    id: Seq<char>,
    s: transcribe_laws::Surroundings,
    before: Seq<char>,
    said: Seq<char>,
    after: Seq<char>,
    status: u16,
)
    requires
        samples.len() > 0,
        s.client is Ok,
        s.token is Ok,
        200 <= status <= 299,
        forall|i: int| 0 <= i < before.len() ==> text::white_space(#[trigger] before[i]),
        forall|i: int| 0 <= i < after.len() ==> text::white_space(#[trigger] after[i]),
        said.len() > 0 ==> !text::white_space(said.first()) && !text::white_space(said.last()),
        s.first.reply == transcribe::ReplyView::Answered(status) && s.first.said == Ok::<
            Seq<char>,
            Seq<char>,
        >(before + said + after) || s.first.reply == transcribe::ReplyView::Answered(401)
            && s.new_token is Ok && s.second.reply == transcribe::ReplyView::Answered(status)
            && s.second.said == Ok::<Seq<char>, Seq<char>>(before + said + after),
    ensures
        transcribe_laws::run(samples, language, url, id, s).result == Ok::<Seq<char>, Seq<char>>(
            said,
        ),
{
    text::trimming_removes_exactly_the_padding(before, said, after);
}

/// A random identifier has the form of a version 4 UUID.
pub proof fn random_identifiers_are_uuids(s: Seq<char>, i: int)
    requires
        transcribe::random_uuid(s),
        0 <= i < 36,
    ensures
        s.len() == 36,
        i == 8 || i == 13 || i == 18 || i == 23 <==> s[i] == '-',
        s[i] == '-' || '0' <= s[i] <= '9' || 'a' <= s[i] <= 'f',
        s[14] == '4',
        s[19] == '8' || s[19] == '9' || s[19] == 'a' || s[19] == 'b',
{
    assert(s[i] == '-' || transcribe::hex_digit(s[i]));
}

/// The time limits, in seconds, and the time between two looks at the cancellation flag, in
/// milliseconds.
pub proof fn time_limits_are_these()
    ensures
        transcribe::TRANSCRIPTION_TIMEOUT_SECS == 30,
        transcribe::CONNECT_TIMEOUT_SECS == 10,
        crate::refresh::REFRESH_TIMEOUT_SECS == 15,
        crate::auth_file::LOCK_TIMEOUT_SECS == 10,
        crate::pipeline::CANCELLATION_POLL_MILLIS == 25,
{
}

/// What uploads, requests and replies show is all that they hold.
pub proof fn uploads_show_what_they_hold(
    upload: Upload,
    request: TranscribeRequest,
    attempt: FirstAttempt,
    retry: Retry,
    reply: Reply,
    i: int,
)
    ensures
        upload@.url == upload.url@,
        upload@.boundary == upload.boundary@,
        upload@.body == upload.body@,
        request@.url == request.url@,
        request@.body == request.body@,
        request@.headers.len() == request.headers@.len(),
        0 <= i < request.headers@.len() ==> request@.headers[i] == (
            request.headers@[i].0@,
            request.headers@[i].1@,
        ),
        attempt@.upload == attempt.upload@,
        attempt@.token == attempt.token@,
        retry@ == retry.upload@,
        reply matches Reply::Unanswered(e) ==> reply@ == transcribe::ReplyView::Unanswered(e@),
        reply matches Reply::Answered(status) ==> reply@ == transcribe::ReplyView::Answered(status),
{
}

/// What a list of headers shows is all that it holds.
pub proof fn headers_show_what_they_hold(headers: Seq<(String, String)>, i: int)
    ensures
        codex_api::headers_of(headers).len() == headers.len(),
        0 <= i < headers.len() ==> codex_api::headers_of(headers)[i] == (
            headers[i].0@,
            headers[i].1@,
        ),
{
}

/// What results of a transcription show is all that they hold.
pub proof fn results_show_what_they_hold(
    result: Result<String, String>,
    body: Result<TranscribeResponse, String>,
)
    ensures
        result matches Ok(said) ==> transcribe::text_result_of(result) == Ok::<
            Seq<char>,
            Seq<char>,
        >(said@),
        result matches Err(e) ==> transcribe::text_result_of(result) == Err::<
            Seq<char>,
            Seq<char>,
        >(e@),
        body matches Ok(response) ==> transcribe::response_of(body) == Ok::<Seq<char>, Seq<char>>(
            response.text@,
        ),
        body matches Err(e) ==> transcribe::response_of(body) == Err::<Seq<char>, Seq<char>>(e@),
        transcribe::outcome_text_of(Some(result)) == Some(transcribe::text_result_of(result)),
        transcribe::outcome_text_of(None::<Result<String, String>>) is None,
{
}

/// What the steps of a transcription show is all that they hold.
pub proof fn transcription_steps_show_what_they_hold(
    start: StartStep,
    client: ClientStep,
    send: SendStep,
    first: FirstReplyStep,
    resend: ResendStep,
    second: SecondReplyStep,
)
    ensures
        start matches StartStep::Finished(r) ==> start@ == transcribe::StartStepView::Finished(
            transcribe::text_result_of(r),
        ),
        start matches StartStep::BuildClient(u) ==> start@
            == transcribe::StartStepView::BuildClient(u@),
        client matches ClientStep::Finished(r) ==> client@ == transcribe::ClientStepView::Finished(
            transcribe::text_result_of(r),
        ),
        client matches ClientStep::GetToken(u) ==> client@ == transcribe::ClientStepView::GetToken(
            u@,
        ),
        send matches SendStep::Finished(r) ==> send@ == transcribe::SendStepView::Finished(
            transcribe::text_result_of(r),
        ),
        send matches SendStep::Send(q, attempt) ==> send@ == transcribe::SendStepView::Send(
            q@,
            attempt@,
        ),
        first matches FirstReplyStep::Finished(r) ==> first@
            == transcribe::FirstReplyStepView::Finished(transcribe::text_result_of(r)),
        first matches FirstReplyStep::RefreshToken(token, retry) ==> first@
            == transcribe::FirstReplyStepView::RefreshToken(token@, retry@),
        first is ReadError <==> first@ is ReadError,
        first is ReadTranscript <==> first@ is ReadTranscript,
        resend matches ResendStep::Finished(r) ==> resend@ == transcribe::ResendStepView::Finished(
            transcribe::text_result_of(r),
        ),
        resend matches ResendStep::Send(q) ==> resend@ == transcribe::ResendStepView::Send(q@),
        second matches SecondReplyStep::Finished(r) ==> second@
            == transcribe::SecondReplyStepView::Finished(transcribe::text_result_of(r)),
        second is ReadError <==> second@ is ReadError,
        second is ReadTranscript <==> second@ is ReadTranscript,
{
}

} // verus!
