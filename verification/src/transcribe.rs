//! One transcription: encode the audio, upload it, and retry once with a new token
//! where the server rejects the first.
//!
//! The client, the tokens and the requests are outside; what each came to is handed
//! to the value that waits for it, which says what to do next.

use vstd::prelude::*;

use crate::codex_api;
use crate::manager;
use crate::manager::{CodexAuthManager, TokenResult};
use crate::multipart;
use crate::refresh;
use crate::text;
use crate::wav;

verus! {

/// How long a transcription may take, credentials and retry included, in seconds.
pub const TRANSCRIPTION_TIMEOUT_SECS: u64 = 30;

/// How long connecting may take, in seconds.
pub const CONNECT_TIMEOUT_SECS: u64 = 10;

/// The sample rate of the audio.
pub const SAMPLE_RATE: u32 = 16000;

/// How many characters of an error body are shown.
pub const PREVIEW_CHARS: usize = 500;

/// The status code of a rejected token.
pub const UNAUTHORIZED: u16 = 401;

/// The beginning of a text that is shown of an error.
pub open spec fn preview(shown: Seq<char>) -> Seq<char> {
    if shown.len() <= PREVIEW_CHARS {
        shown
    } else {
        shown.take(PREVIEW_CHARS as int)
    }
}

/// Limits error text by Unicode scalar values, never by a byte offset.
pub fn error_preview(text: &str) -> (r: String)
    ensures
        r@ == preview(text@),
{
    let len = text.unicode_len();
    let end: usize = if len <= PREVIEW_CHARS {
        len
    } else {
        PREVIEW_CHARS
    };
    let shown = text.substring_char(0, end);
    assert(shown@ == preview(text@));
    shown.to_owned()
}

/// A digit of a hexadecimal numeral, in small letters.
pub open spec fn hex_digit(c: char) -> bool {
    '0' <= c <= '9' || 'a' <= c <= 'f'
}

/// A random UUID in its usual form: small hexadecimal digits in groups of 8, 4, 4, 4
/// and 12, of version 4 and the standard variant.
pub open spec fn random_uuid(s: Seq<char>) -> bool {
    &&& s.len() == 36
    &&& forall|i: int|
        0 <= i < 36 ==> if i == 8 || i == 13 || i == 18 || i == 23 {
            #[trigger] s[i] == '-'
        } else {
            hex_digit(s[i])
        }
    &&& s[14] == '4'
    &&& s[19] == '8' || s[19] == '9' || s[19] == 'a' || s[19] == 'b'
}

/// `uuid::Uuid::new_v4` in its `Display` form. Which UUID comes is left to chance;
/// its form is not.
#[verifier::external_body]
fn new_uuid() -> (r: String)
    ensures
        random_uuid(r@),
{
    uuid::Uuid::new_v4().to_string()
}

/// What an outcome with a text says.
pub open spec fn text_result_of(r: Result<String, String>) -> Result<Seq<char>, Seq<char>> {
    match r {
        Ok(s) => Ok(s@),
        Err(e) => Err(e@),
    }
}

/// What is uploaded, and where to.
pub struct Upload {
    pub url: String,
    pub boundary: String,
    pub body: Vec<u8>,
}

/// What an `Upload` holds.
pub ghost struct UploadView {
    pub url: Seq<char>,
    pub boundary: Seq<char>,
    pub body: Seq<u8>,
}

impl View for Upload {
    type V = UploadView;

    open spec fn view(&self) -> UploadView {
        UploadView { url: self.url@, boundary: self.boundary@, body: self.body@ }
    }
}

/// The upload of these samples, with a boundary made from `id`.
pub open spec fn upload_of(
    samples: Seq<i16>,
    language: Option<Seq<char>>,
    url: Seq<char>,
    id: Seq<char>,
) -> UploadView {
    let boundary = "----codex-transcribe-"@ + id;
    UploadView {
        url,
        boundary,
        body: multipart::multipart_body(
            wav::wav_file(1, SAMPLE_RATE as nat, 16, samples),
            boundary,
            "codex.wav"@,
            "audio/wav"@,
            language,
        ),
    }
}

/// An HTTP request: a `POST` of these headers and this body.
pub struct TranscribeRequest {
    pub url: String,
    pub headers: Vec<(String, String)>,
    pub body: Vec<u8>,
}

/// What a `TranscribeRequest` holds.
pub ghost struct TranscribeRequestView {
    pub url: Seq<char>,
    pub headers: Seq<(Seq<char>, Seq<char>)>,
    pub body: Seq<u8>,
}

impl View for TranscribeRequest {
    type V = TranscribeRequestView;

    open spec fn view(&self) -> TranscribeRequestView {
        TranscribeRequestView {
            url: self.url@,
            headers: codex_api::headers_of(self.headers@),
            body: self.body@,
        }
    }
}

impl UploadView {
    /// The request that uploads with a token, its account and a user agent.
    pub open spec fn request(
        self,
        token: Seq<char>,
        account_id: Option<Seq<char>>,
        agent: Seq<char>,
    ) -> TranscribeRequestView {
        TranscribeRequestView {
            url: self.url,
            headers: seq![("Content-Type"@, "multipart/form-data; boundary="@ + self.boundary)]
                + codex_api::auth_headers(token, account_id, agent),
            body: self.body,
        }
    }
}

/// An upload that was sent with `token` for the first time.
pub struct FirstAttempt {
    pub upload: Upload,
    pub token: String,
}

/// What a `FirstAttempt` holds.
pub ghost struct FirstAttemptView {
    pub upload: UploadView,
    pub token: Seq<char>,
}

impl View for FirstAttempt {
    type V = FirstAttemptView;

    open spec fn view(&self) -> FirstAttemptView {
        FirstAttemptView { upload: self.upload@, token: self.token@ }
    }
}

/// An upload that waits for another token.
pub struct Retry {
    pub upload: Upload,
}

impl View for Retry {
    type V = UploadView;

    open spec fn view(&self) -> UploadView {
        self.upload@
    }
}

/// How a transcription begins.
pub enum StartStep {
    Finished(Result<String, String>),
    /// Build an HTTP client.
    BuildClient(Upload),
}

/// What follows the client.
pub enum ClientStep {
    Finished(Result<String, String>),
    /// Ask for a valid token.
    GetToken(Upload),
}

/// What follows the first token.
pub enum SendStep {
    Finished(Result<String, String>),
    /// Send the request.
    Send(TranscribeRequest, FirstAttempt),
}

/// What follows the reply to the first request.
pub enum FirstReplyStep {
    Finished(Result<String, String>),
    /// Ask for another token than this one.
    RefreshToken(String, Retry),
    /// Show what the server said.
    ReadError,
    /// Read the transcript.
    ReadTranscript,
}

/// What follows the second token.
pub enum ResendStep {
    Finished(Result<String, String>),
    /// Send the request.
    Send(TranscribeRequest),
}

/// What follows the reply to the second request.
pub enum SecondReplyStep {
    Finished(Result<String, String>),
    /// Show what the server said.
    ReadError,
    /// Read the transcript.
    ReadTranscript,
}

/// What a `StartStep` holds.
pub ghost enum StartStepView {
    Finished(Result<Seq<char>, Seq<char>>),
    BuildClient(UploadView),
}

/// What a `ClientStep` holds.
pub ghost enum ClientStepView {
    Finished(Result<Seq<char>, Seq<char>>),
    GetToken(UploadView),
}

/// What a `SendStep` holds.
pub ghost enum SendStepView {
    Finished(Result<Seq<char>, Seq<char>>),
    Send(TranscribeRequestView, FirstAttemptView),
}

/// What a `FirstReplyStep` holds.
pub ghost enum FirstReplyStepView {
    Finished(Result<Seq<char>, Seq<char>>),
    RefreshToken(Seq<char>, UploadView),
    ReadError,
    ReadTranscript,
}

/// What a `ResendStep` holds.
pub ghost enum ResendStepView {
    Finished(Result<Seq<char>, Seq<char>>),
    Send(TranscribeRequestView),
}

/// What a `SecondReplyStep` holds.
pub ghost enum SecondReplyStepView {
    Finished(Result<Seq<char>, Seq<char>>),
    ReadError,
    ReadTranscript,
}

impl View for StartStep {
    type V = StartStepView;

    open spec fn view(&self) -> StartStepView {
        match self {
            StartStep::Finished(r) => StartStepView::Finished(text_result_of(*r)),
            StartStep::BuildClient(upload) => StartStepView::BuildClient(upload@),
        }
    }
}

impl View for ClientStep {
    type V = ClientStepView;

    open spec fn view(&self) -> ClientStepView {
        match self {
            ClientStep::Finished(r) => ClientStepView::Finished(text_result_of(*r)),
            ClientStep::GetToken(upload) => ClientStepView::GetToken(upload@),
        }
    }
}

impl View for SendStep {
    type V = SendStepView;

    open spec fn view(&self) -> SendStepView {
        match self {
            SendStep::Finished(r) => SendStepView::Finished(text_result_of(*r)),
            SendStep::Send(request, attempt) => SendStepView::Send(request@, attempt@),
        }
    }
}

impl View for FirstReplyStep {
    type V = FirstReplyStepView;

    open spec fn view(&self) -> FirstReplyStepView {
        match self {
            FirstReplyStep::Finished(r) => FirstReplyStepView::Finished(text_result_of(*r)),
            FirstReplyStep::RefreshToken(token, retry) => FirstReplyStepView::RefreshToken(
                token@,
                retry@,
            ),
            FirstReplyStep::ReadError => FirstReplyStepView::ReadError,
            FirstReplyStep::ReadTranscript => FirstReplyStepView::ReadTranscript,
        }
    }
}

impl View for ResendStep {
    type V = ResendStepView;

    open spec fn view(&self) -> ResendStepView {
        match self {
            ResendStep::Finished(r) => ResendStepView::Finished(text_result_of(*r)),
            ResendStep::Send(request) => ResendStepView::Send(request@),
        }
    }
}

impl View for SecondReplyStep {
    type V = SecondReplyStepView;

    open spec fn view(&self) -> SecondReplyStepView {
        match self {
            SecondReplyStep::Finished(r) => SecondReplyStepView::Finished(text_result_of(*r)),
            SecondReplyStep::ReadError => SecondReplyStepView::ReadError,
            SecondReplyStep::ReadTranscript => SecondReplyStepView::ReadTranscript,
        }
    }
}

/// How a transcription begins. Without audio it is over at once.
pub open spec fn start(
    samples: Seq<i16>,
    language: Option<Seq<char>>,
    url: Seq<char>,
    id: Seq<char>,
) -> StartStepView {
    if samples.len() == 0 {
        StartStepView::Finished(Ok(""@))
    } else {
        StartStepView::BuildClient(upload_of(samples, language, url, id))
    }
}

/// Begins the transcription of 16 kHz mono samples at `url`, with a boundary made
/// from `id`.
pub fn transcribe_with_id(samples: &[i16], language: Option<&str>, url: &str, id: &str) -> (r:
    StartStep)
    requires
        samples@.len() <= wav::MAX_SAMPLES,
    ensures
        r@ == start(samples@, text::str_of(language), url@, id@),
{
    if samples.len() == 0 {
        return StartStep::Finished(Ok("".to_owned()));
    }
    let audio = match wav::encode_wav(samples, SAMPLE_RATE) {
        Ok(bytes) => bytes,
        Err(e) => {
            return StartStep::Finished(Err(e));
        },
    };
    let boundary = text::join("----codex-transcribe-", id);
    let body = multipart::build_multipart_body(
        audio.as_slice(),
        boundary.as_str(),
        "codex.wav",
        "audio/wav",
        language,
    );
    StartStep::BuildClient(Upload { url: url.to_owned(), boundary, body })
}

/// Begins the transcription of 16 kHz mono samples at `url`, with a boundary of its
/// own.
pub fn transcribe_at(samples: &[i16], language: Option<&str>, url: &str) -> (r: StartStep)
    requires
        samples@.len() <= wav::MAX_SAMPLES,
    ensures
        samples@.len() == 0 ==> r@ == StartStepView::Finished(Ok(""@)),
        samples@.len() > 0 ==> exists|id: Seq<char>|
            #[trigger] random_uuid(id) && r@ == StartStepView::BuildClient(
                upload_of(samples@, text::str_of(language), url@, id),
            ),
{
    if samples.len() == 0 {
        return StartStep::Finished(Ok("".to_owned()));
    }
    let id = new_uuid();
    assert(random_uuid(id@));
    transcribe_with_id(samples, language, url, id.as_str())
}

/// The URL that audio is posted to, below a base URL.
pub open spec fn transcribe_url(base: Seq<char>) -> Seq<char> {
    base + "/transcribe"@
}

/// Begins the transcription of 16 kHz mono samples at the endpoint that the values
/// of `CODEX_API_BASE_URL` and `CODEX_API_ENDPOINT` name.
pub fn transcribe_samples(
    samples: &[i16],
    language: Option<&str>,
    base: Option<&str>,
    endpoint: Option<&str>,
) -> (r: StartStep)
    requires
        samples@.len() <= wav::MAX_SAMPLES,
    ensures
        samples@.len() == 0 ==> r@ == StartStepView::Finished(Ok(""@)),
        samples@.len() > 0 ==> exists|id: Seq<char>|
            #[trigger] random_uuid(id) && r@ == StartStepView::BuildClient(
                upload_of(
                    samples@,
                    text::str_of(language),
                    transcribe_url(
                        codex_api::base_url(text::str_of(base), text::str_of(endpoint)),
                    ),
                    id,
                ),
            ),
{
    let base_url = CodexAuthManager::api_base_url(base, endpoint);
    let url = text::join(base_url.as_str(), "/transcribe");
    transcribe_at(samples, language, url.as_str())
}

/// What came of a request.
pub enum Reply {
    /// It got no answer, for this reason.
    Unanswered(String),
    /// It got an answer of this status code.
    Answered(u16),
}

/// What a `Reply` holds.
pub ghost enum ReplyView {
    Unanswered(Seq<char>),
    Answered(u16),
}

impl View for Reply {
    type V = ReplyView;

    open spec fn view(&self) -> ReplyView {
        match self {
            Reply::Unanswered(e) => ReplyView::Unanswered(e@),
            Reply::Answered(status) => ReplyView::Answered(*status),
        }
    }
}

impl UploadView {
    /// What follows the client.
    pub open spec fn after_client(self, client: Result<(), Seq<char>>) -> ClientStepView {
        match client {
            Ok(()) => ClientStepView::GetToken(self),
            Err(e) => ClientStepView::Finished(
                Err("Failed to build transcription client: "@ + e),
            ),
        }
    }

    /// What follows the first token.
    pub open spec fn after_token(
        self,
        token: manager::TokenResultView,
        agent: Seq<char>,
    ) -> SendStepView {
        match token {
            Ok((token, account_id)) => SendStepView::Send(
                self.request(token, account_id, agent),
                FirstAttemptView { upload: self, token },
            ),
            Err(e) => SendStepView::Finished(Err(e)),
        }
    }

    /// What follows the second token.
    pub open spec fn after_new_token(
        self,
        token: manager::TokenResultView,
        agent: Seq<char>,
    ) -> ResendStepView {
        match token {
            Ok((token, account_id)) => ResendStepView::Send(
                self.request(token, account_id, agent),
            ),
            Err(e) => ResendStepView::Finished(Err(e)),
        }
    }
}

impl FirstAttemptView {
    /// What follows the reply to the first request. A rejected token is refreshed,
    /// once, rather than merely read again: an unexpired token can be rejected.
    pub open spec fn after_reply(self, reply: ReplyView) -> FirstReplyStepView {
        match reply {
            ReplyView::Unanswered(e) => FirstReplyStepView::Finished(
                Err("Transcription request failed: "@ + e),
            ),
            ReplyView::Answered(status) => if status == UNAUTHORIZED {
                FirstReplyStepView::RefreshToken(self.token, self.upload)
            } else if refresh::success(status) {
                FirstReplyStepView::ReadTranscript
            } else {
                FirstReplyStepView::ReadError
            },
        }
    }
}

/// What follows the reply to the second request.
pub open spec fn after_second_reply(reply: ReplyView) -> SecondReplyStepView {
    match reply {
        ReplyView::Unanswered(e) => SecondReplyStepView::Finished(
            Err("Transcription request failed: "@ + e),
        ),
        ReplyView::Answered(status) => if refresh::success(status) {
            SecondReplyStepView::ReadTranscript
        } else {
            SecondReplyStepView::ReadError
        },
    }
}

impl Upload {
    /// The request that uploads with a token and its account, sent from the operating
    /// system and the processor architecture that Rust calls by these names.
    pub fn do_transcribe_request(
        &self,
        token: &str,
        account_id: Option<&str>,
        target_os: &str,
        target_arch: &str,
    ) -> (r: TranscribeRequest)
        ensures
            r@ == self@.request(
                token@,
                text::str_of(account_id),
                codex_api::user_agent(target_os@, target_arch@),
            ),
    {
        let content_type = text::join("multipart/form-data; boundary=", self.boundary.as_str());
        let mut headers: Vec<(String, String)> = Vec::new();
        headers.push(("Content-Type".to_owned(), content_type));
        let mut auth = CodexAuthManager::build_auth_headers(
            token,
            account_id,
            target_os,
            target_arch,
        );
        let ghost auth_view = codex_api::headers_of(auth@);
        headers.append(&mut auth);
        assert(codex_api::headers_of(headers@) == seq![
            ("Content-Type"@, "multipart/form-data; boundary="@ + self.boundary@),
        ] + auth_view);
        let body = self.body.clone();
        assert(body@ == self.body@);
        TranscribeRequest { url: self.url.clone(), headers, body }
    }

    /// Goes on once the client is built, or could not be.
    pub fn client_built(self, client: Result<(), String>) -> (r: ClientStep)
        ensures
            r@ == self@.after_client(crate::credentials::outcome_of(client)),
    {
        match client {
            Ok(()) => ClientStep::GetToken(self),
            Err(e) => ClientStep::Finished(
                Err(text::join("Failed to build transcription client: ", e.as_str())),
            ),
        }
    }

    /// Goes on with the first token.
    pub fn token_received(self, token: TokenResult, target_os: &str, target_arch: &str) -> (r:
        SendStep)
        ensures
            r@ == self@.after_token(
                manager::token_result_of(token),
                codex_api::user_agent(target_os@, target_arch@),
            ),
    {
        match token {
            Ok((token, account_id)) => {
                let request = self.do_transcribe_request(
                    token.as_str(),
                    text::borrow_optional_text(&account_id),
                    target_os,
                    target_arch,
                );
                SendStep::Send(request, FirstAttempt { upload: self, token })
            },
            Err(e) => SendStep::Finished(Err(e)),
        }
    }
}

impl FirstAttempt {
    /// Goes on with the reply to the first request.
    pub fn reply_received(self, reply: Reply) -> (r: FirstReplyStep)
        ensures
            r@ == self@.after_reply(reply@),
    {
        match reply {
            Reply::Unanswered(e) => FirstReplyStep::Finished(
                Err(text::join("Transcription request failed: ", e.as_str())),
            ),
            Reply::Answered(status) => if status == UNAUTHORIZED {
                FirstReplyStep::RefreshToken(self.token, Retry { upload: self.upload })
            } else if refresh::is_success(status) {
                FirstReplyStep::ReadTranscript
            } else {
                FirstReplyStep::ReadError
            },
        }
    }
}

impl Retry {
    /// Goes on with the second token.
    pub fn token_received(self, token: TokenResult, target_os: &str, target_arch: &str) -> (r:
        ResendStep)
        ensures
            r@ == self@.after_new_token(
                manager::token_result_of(token),
                codex_api::user_agent(target_os@, target_arch@),
            ),
    {
        match token {
            Ok((token, account_id)) => ResendStep::Send(
                self.upload.do_transcribe_request(
                    token.as_str(),
                    text::borrow_optional_text(&account_id),
                    target_os,
                    target_arch,
                ),
            ),
            Err(e) => ResendStep::Finished(Err(e)),
        }
    }
}

/// Goes on with the reply to the second request. There is no third.
pub fn second_reply_received(reply: Reply) -> (r: SecondReplyStep)
    ensures
        r@ == after_second_reply(reply@),
{
    match reply {
        Reply::Unanswered(e) => SecondReplyStep::Finished(
            Err(text::join("Transcription request failed: ", e.as_str())),
        ),
        Reply::Answered(status) => if refresh::is_success(status) {
            SecondReplyStep::ReadTranscript
        } else {
            SecondReplyStep::ReadError
        },
    }
}

/// What the user is told of a request that the server refused.
pub open spec fn refusal(status_text: Seq<char>, body: Seq<char>) -> Seq<char> {
    "Transcription failed: HTTP "@ + status_text + " — "@ + preview(body)
}

/// Ends a transcription that the server refused with this status and this body.
pub fn error_read(status_text: &str, body: &str) -> (r: Result<String, String>)
    ensures
        text_result_of(r) == Err::<Seq<char>, Seq<char>>(refusal(status_text@, body@)),
{
    let mut message = "Transcription failed: HTTP ".to_owned();
    message.append(status_text);
    message.append(" — ");
    let shown = error_preview(body);
    message.append(shown.as_str());
    Err(message)
}

/// What the server returns.
#[derive(Debug)]
pub struct TranscribeResponse {
    pub text: String,
}

/// What the body of a reply holds.
pub open spec fn response_of(body: Result<TranscribeResponse, String>) -> Result<
    Seq<char>,
    Seq<char>,
> {
    match body {
        Ok(response) => Ok(response.text@),
        Err(e) => Err(e@),
    }
}

/// The transcript in the body of a reply, without surrounding white space.
pub open spec fn transcript(body: Result<Seq<char>, Seq<char>>) -> Result<Seq<char>, Seq<char>> {
    match body {
        Ok(said) => Ok(text::trimmed(said)),
        Err(e) => Err("Failed to parse transcription response: "@ + e),
    }
}

/// Ends a transcription with the body that the server returned.
pub fn transcript_read(body: Result<TranscribeResponse, String>) -> (r: Result<String, String>)
    ensures
        text_result_of(r) == transcript(response_of(body)),
{
    match body {
        Ok(response) => Ok(text::trim(response.text.as_str()).to_owned()),
        Err(e) => Err(text::join("Failed to parse transcription response: ", e.as_str())),
    }
}

/// What the user is told of a transcription that took too long.
pub open spec fn timeout_message(seconds: nat) -> Seq<char> {
    "Codex transcription timed out after "@ + text::decimal(seconds)
        + " seconds. The recording can be retried from History."@
}

/// What an outcome within a deadline says.
pub open spec fn within_deadline(
    outcome: Option<Result<Seq<char>, Seq<char>>>,
    seconds: nat,
) -> Result<Seq<char>, Seq<char>> {
    match outcome {
        Some(result) => result,
        None => Err(timeout_message(seconds)),
    }
}

/// What an optional outcome says.
pub open spec fn outcome_text_of(outcome: Option<Result<String, String>>) -> Option<
    Result<Seq<char>, Seq<char>>,
> {
    match outcome {
        Some(result) => Some(text_result_of(result)),
        None => None,
    }
}

/// Ends a transcription with a deadline of so many seconds: `outcome` is what it came
/// to, if it came to an end in time.
pub fn transcribe_with_deadline(outcome: Option<Result<String, String>>, seconds: u64) -> (r:
    Result<String, String>)
    ensures
        text_result_of(r) == within_deadline(outcome_text_of(outcome), seconds as nat),
{
    match outcome {
        Some(result) => result,
        None => {
            let mut message = "Codex transcription timed out after ".to_owned();
            let numeral = text::decimal_text(seconds);
            message.append(numeral.as_str());
            message.append(" seconds. The recording can be retried from History.");
            Err(message)
        },
    }
}

/// Ends what `transcribe_samples` began, with the one deadline that covers credentials,
/// upload, response body and the retry: `outcome` is what it came to, if it came to an
/// end in time.
pub fn transcribe_samples_ended(outcome: Option<Result<String, String>>) -> (r: Result<
    String,
    String,
>)
    ensures
        text_result_of(r) == within_deadline(
            outcome_text_of(outcome),
            TRANSCRIPTION_TIMEOUT_SECS as nat,
        ),
{
    transcribe_with_deadline(outcome, TRANSCRIPTION_TIMEOUT_SECS)
}

} // verus!
