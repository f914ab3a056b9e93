//! Audio, requests and transcripts.

use cloud_stt::auth_file::{AuthFileRead, CodexAuthFile, CodexTokens, RefreshResponse};
use cloud_stt::codex_api::build_user_agent;
use cloud_stt::events::{CloudSttStatusEvent, CloudTranscriptEvent};
use cloud_stt::manager::{CodexAuthManager, TokenResult, TokenStep};
use cloud_stt::multipart::build_multipart_body;
use cloud_stt::refresh::{GateStep, ReadStep, RefreshReply, ReplyStep, RereadStep};
use cloud_stt::transcribe::{
    error_preview, error_read, second_reply_received, transcribe_at, transcribe_samples,
    transcribe_samples_ended, transcribe_with_deadline, transcribe_with_id, transcript_read,
    ClientStep, FirstReplyStep, Reply, ResendStep, SecondReplyStep, SendStep, StartStep,
    TranscribeRequest, TranscribeResponse, Upload,
};
use cloud_stt::wav::encode_wav;

const NOW: u64 = 1_700_000_000;

/// Scales samples to 16 bits.
fn quantize(samples: &[f32]) -> Vec<i16> {
    samples
        .iter()
        .map(|sample| (sample.clamp(-1.0, 1.0) * 32767.0) as i16)
        .collect()
}

fn upload(samples: &[f32], language: Option<&str>) -> Upload {
    match transcribe_with_id(&quantize(samples), language, "http://server/transcribe", "id") {
        StartStep::BuildClient(upload) => upload,
        StartStep::Finished(_) => panic!("there is audio to upload"),
    }
}

fn header<'a>(request: &'a TranscribeRequest, name: &str) -> Option<&'a str> {
    request
        .headers
        .iter()
        .find(|(key, _)| key == name)
        .map(|(_, value)| value.as_str())
}

#[test]
fn error_previews_handle_ascii_cyrillic_emoji_and_empty_input() {
    for text in [
        String::new(),
        "short".into(),
        "a".repeat(600),
        format!("a{}", "я".repeat(600)),
        "🙂".repeat(600),
    ] {
        let preview = error_preview(&text);
        assert_eq!(preview, text.chars().take(500).collect::<String>());
    }
}

#[test]
fn wav_encoding_and_multipart_preserve_audio_and_language() {
    let wav = encode_wav(&quantize(&[-2.0, 0.0, 2.0]), 16_000).unwrap();
    let mut reader = hound::WavReader::new(std::io::Cursor::new(&wav)).unwrap();
    assert_eq!(reader.spec().sample_rate, 16_000);
    assert_eq!(reader.spec().channels, 1);
    assert_eq!(
        reader
            .samples::<i16>()
            .collect::<Result<Vec<_>, _>>()
            .unwrap(),
        vec![-32767, 0, 32767]
    );
    let body = build_multipart_body(&wav, "test-boundary", "codex.wav", "audio/wav", Some("ru"));
    assert!(body.windows(wav.len()).any(|part| part == wav));
    assert!(String::from_utf8_lossy(&body).contains("name=\"language\"\r\n\r\nru\r\n"));
    assert!(body.ends_with(b"--test-boundary--\r\n"));
}

#[test]
fn wav_files_have_the_stated_bytes() {
    let wav = encode_wav(&[1, -2, i16::MIN, i16::MAX], 16_000).unwrap();
    let expected: Vec<u8> = vec![
        b'R', b'I', b'F', b'F', 44, 0, 0, 0, b'W', b'A', b'V', b'E', // chunk
        b'f', b'm', b't', b' ', 16, 0, 0, 0, 1, 0, 1, 0, // format, mono
        0x80, 0x3e, 0, 0, 0, 0x7d, 0, 0, 2, 0, 16, 0, // rates, block, bits
        b'd', b'a', b't', b'a', 8, 0, 0, 0, // data
        1, 0, 0xfe, 0xff, 0x00, 0x80, 0xff, 0x7f,
    ];
    assert_eq!(wav, expected);
    assert_eq!(encode_wav(&[], 8_000).unwrap().len(), 44);
}

#[test]
fn multipart_bodies_have_the_stated_bytes() {
    let body = build_multipart_body(b"\x00\xffaudio", "b", "f.wav", "audio/wav", None);
    let mut expected: Vec<u8> = Vec::new();
    expected.extend_from_slice(b"--b\r\n");
    expected.extend_from_slice(
        b"Content-Disposition: form-data; name=\"file\"; filename=\"f.wav\"\r\n",
    );
    expected.extend_from_slice(b"Content-Type: audio/wav\r\n\r\n");
    expected.extend_from_slice(b"\x00\xffaudio\r\n");
    let file_part = expected.clone();
    expected.extend_from_slice(b"--b--\r\n");
    assert_eq!(body, expected);
    let body = build_multipart_body(b"\x00\xffaudio", "b", "f.wav", "audio/wav", Some("я"));
    let mut expected = file_part;
    expected.extend_from_slice(
        "--b\r\nContent-Disposition: form-data; name=\"language\"\r\n\r\nя\r\n--b--\r\n".as_bytes(),
    );
    assert_eq!(body, expected);
}

#[test]
fn unicode_success_is_returned_intact_including_the_old_panic_boundary() {
    let text = format!("a{}🙂", "я".repeat(100));
    let attempt = match upload(&[0.1; 1600], Some("ru")).token_received(
        Ok(("token".to_owned(), None)),
        "linux",
        "x86_64",
    ) {
        SendStep::Send(_, attempt) => attempt,
        SendStep::Finished(_) => panic!("the audio has to be sent"),
    };
    assert!(matches!(
        attempt.reply_received(Reply::Answered(200)),
        FirstReplyStep::ReadTranscript
    ));
    let body = TranscribeResponse {
        text: format!("  {text}  "),
    };
    assert_eq!(transcript_read(Ok(body)).unwrap(), text);
}

#[test]
fn unicode_http_errors_return_an_error_instead_of_panicking() {
    let attempt = match upload(&[0.1; 100], None).token_received(
        Ok(("token".to_owned(), None)),
        "linux",
        "x86_64",
    ) {
        SendStep::Send(_, attempt) => attempt,
        SendStep::Finished(_) => panic!("the audio has to be sent"),
    };
    assert!(matches!(
        attempt.reply_received(Reply::Answered(500)),
        FirstReplyStep::ReadError
    ));
    let error = error_read(
        "500 Internal Server Error",
        &format!("a{}", "я".repeat(600)),
    )
    .unwrap_err();
    assert!(error.starts_with("Transcription failed: HTTP 500"));
    assert_eq!(
        error,
        format!(
            "Transcription failed: HTTP 500 Internal Server Error — a{}",
            "я".repeat(499)
        )
    );
}

fn jwt(account: &str, tag: &str) -> String {
    let engine = base64::engine::general_purpose::URL_SAFE_NO_PAD;
    let payload = format!(
        "{{\"exp\":{},\"sub\":\"user-{account}\",\"nonce\":\"{tag}\",\"https://api.openai.com/auth\":{{\"chatgpt_account_id\":\"{account}\"}}}}",
        NOW + 3600
    );
    format!("e30.{}.fixture", base64::Engine::encode(&engine, payload))
}

/// A credential file that holds a token and a refresh token.
fn auth_file(token: &str, refresh: &str) -> AuthFileRead {
    AuthFileRead::Parsed(
        format!("{token} {refresh}"),
        CodexAuthFile {
            tokens: CodexTokens {
                access_token: token.to_owned(),
                refresh_token: Some(refresh.to_owned()),
                id_token: None,
                extra: serde_json::Map::new(),
            },
            extra: serde_json::Map::new(),
        },
    )
}

fn file_session(token: &str, refresh: &str) -> CodexAuthManager {
    let path = std::path::PathBuf::from("/home/user/.codex/auth.json");
    let read = auth_file(token, refresh);
    CodexAuthManager::with_config(Some(path), "http://server/oauth/token".into(), Some(read))
}

fn immediate(step: TokenStep) -> TokenResult {
    match step {
        TokenStep::Finished(result) => result,
        TokenStep::Refresh(_) => panic!("no refresh was expected"),
    }
}

/// Refreshes a session whose file holds `old`, with a reply that grants `new`.
fn rotate_session(manager: &mut CodexAuthManager, step: TokenStep, old: &str, new: &str) -> TokenResult {
    let task = match step {
        TokenStep::Finished(_) => panic!("a refresh was expected"),
        TokenStep::Refresh(task) => task,
    };
    let refresh = match task.gate_entered(manager, NOW) {
        GateStep::LockFile(refresh) => refresh,
        GateStep::Finished(_) => panic!("the file has to be locked"),
    };
    let step = refresh.file_read(manager, auth_file(old, "refresh-old"), NOW);
    let (request, pending) = match step {
        ReadStep::Request(request, pending) => (request, pending),
        ReadStep::Finished(_) => panic!("a request has to be sent"),
    };
    assert_eq!(request.url, "http://server/oauth/token");
    assert_eq!(request.refresh_token, "refresh-old");
    let reply = RefreshReply::Answered {
        status: 200,
        status_text: "200 OK".to_owned(),
        body: Ok(RefreshResponse {
            access_token: new.to_owned(),
            id_token: None,
            refresh_token: Some("refresh-new".to_owned()),
        }),
    };
    let pending = match pending.reply_received(reply, NOW) {
        ReplyStep::Reread(pending) => pending,
        ReplyStep::Finished(_) => panic!("the file has to be read again"),
    };
    match pending.file_reread(manager, auth_file(old, "refresh-old"), NOW) {
        RereadStep::Write(_, _, pending) => pending.file_written(manager, Ok(())),
        _ => panic!("the file has to be written"),
    }
}

#[test]
fn unexpired_401_refreshes_once_and_retries_identical_audio() {
    for retry_status in [200, 401] {
        let old = jwt("A", "old");
        let new = jwt("A", "new");
        let mut manager = file_session(&old, "refresh-old");
        let token = immediate(manager.get_valid_token(NOW));
        let step = upload(&[0.1; 100], Some("ru")).token_received(token, "linux", "x86_64");
        let (first, attempt) = match step {
            SendStep::Send(first, attempt) => (first, attempt),
            SendStep::Finished(_) => panic!("the audio has to be sent"),
        };
        let bearer = format!("Bearer {old}");
        assert_eq!(header(&first, "Authorization"), Some(bearer.as_str()));
        assert_eq!(header(&first, "ChatGPT-Account-Id"), Some("A"));
        let (rejected, retry) = match attempt.reply_received(Reply::Answered(401)) {
            FirstReplyStep::RefreshToken(rejected, retry) => (rejected, retry),
            _ => panic!("the token has to be refreshed"),
        };
        assert_eq!(rejected, old);
        let step = manager.refresh_after_rejection(&rejected, NOW);
        let token = rotate_session(&mut manager, step, &old, &new);
        let second = match retry.token_received(token, "linux", "x86_64") {
            ResendStep::Send(second) => second,
            ResendStep::Finished(_) => panic!("the audio has to be sent again"),
        };
        let bearer = format!("Bearer {new}");
        assert_eq!(header(&second, "Authorization"), Some(bearer.as_str()));
        assert_eq!(second.body, first.body);
        assert_eq!(second.url, first.url);
        assert_eq!(
            header(&second, "Content-Type"),
            header(&first, "Content-Type")
        );
        let result = match second_reply_received(Reply::Answered(retry_status)) {
            SecondReplyStep::ReadTranscript => transcript_read(Ok(TranscribeResponse {
                text: "done".to_owned(),
            })),
            SecondReplyStep::ReadError => error_read("401 Unauthorized", "{\"text\":\"done\"}"),
            SecondReplyStep::Finished(result) => result,
        };
        if retry_status == 200 {
            assert_eq!(result.unwrap(), "done");
        } else {
            assert!(result.unwrap_err().contains("HTTP 401"));
        }
    }
}

#[test]
fn manual_401_does_not_send_a_second_request_with_file_credentials() {
    let mut manager = file_session(&jwt("B", "file"), "refresh-B");
    manager.set_access_token(jwt("A", "manual")).unwrap();
    let token = immediate(manager.get_valid_token(NOW));
    let step = upload(&[0.1; 100], None).token_received(token, "linux", "x86_64");
    let attempt = match step {
        SendStep::Send(_, attempt) => attempt,
        SendStep::Finished(_) => panic!("the audio has to be sent"),
    };
    let (rejected, retry) = match attempt.reply_received(Reply::Answered(401)) {
        FirstReplyStep::RefreshToken(rejected, retry) => (rejected, retry),
        _ => panic!("another token has to be asked for"),
    };
    let refused = immediate(manager.refresh_after_rejection(&rejected, NOW));
    match retry.token_received(refused, "linux", "x86_64") {
        ResendStep::Finished(result) => {
            assert!(result.unwrap_err().contains("manually entered"))
        }
        ResendStep::Send(_) => panic!("nothing must be sent again"),
    }
}

#[test]
fn deadline_bounds_a_stalled_http_response() {
    let error = transcribe_with_deadline(None, 2).unwrap_err();
    assert!(error.contains("timed out"));
    assert_eq!(
        error,
        "Codex transcription timed out after 2 seconds. The recording can be retried from History."
    );
    assert_eq!(
        transcribe_samples_ended(None).unwrap_err(),
        "Codex transcription timed out after 30 seconds. The recording can be retried from History."
    );
    assert_eq!(
        transcribe_samples_ended(Some(Ok("text".to_owned()))).unwrap(),
        "text"
    );
    let in_time = transcribe_with_deadline(Some(Ok("text".to_owned())), 30);
    assert_eq!(in_time.unwrap(), "text");
    let failed = transcribe_with_deadline(Some(Err("why".to_owned())), 30);
    assert_eq!(failed.unwrap_err(), "why");
}

#[test]
fn empty_audio_never_performs_http_or_authentication() {
    match transcribe_at(&[], None, "http://server") {
        StartStep::Finished(result) => assert_eq!(result.unwrap(), ""),
        StartStep::BuildClient(_) => panic!("nothing must be uploaded"),
    }
}

#[test]
fn boundaries_are_random_uuids() {
    let boundary = || match transcribe_at(&[1, 2, 3], None, "http://server") {
        StartStep::BuildClient(upload) => {
            let body = String::from_utf8_lossy(&upload.body).into_owned();
            assert!(body.starts_with(&format!("--{}\r\n", upload.boundary)));
            assert!(body.ends_with(&format!("--{}--\r\n", upload.boundary)));
            upload.boundary
        }
        StartStep::Finished(_) => panic!("there is audio to upload"),
    };
    let (a, b) = (boundary(), boundary());
    assert_ne!(a, b);
    let id = a.strip_prefix("----codex-transcribe-").unwrap();
    assert_eq!(id.len(), 36);
    for (i, c) in id.chars().enumerate() {
        match i {
            8 | 13 | 18 | 23 => assert_eq!(c, '-'),
            14 => assert_eq!(c, '4'),
            19 => assert!("89ab".contains(c)),
            _ => assert!(c.is_ascii_digit() || ('a'..='f').contains(&c)),
        }
    }
}

#[test]
fn uploads_go_to_the_transcribe_path() {
    let url = |base: Option<&str>, endpoint: Option<&str>| {
        match transcribe_samples(&[1], None, base, endpoint) {
            StartStep::BuildClient(upload) => upload.url,
            StartStep::Finished(_) => panic!("there is audio to upload"),
        }
    };
    assert_eq!(
        url(None, None),
        "https://chatgpt.com/backend-api/transcribe"
    );
    assert_eq!(
        url(Some("http://server/v1//"), Some("localhost")),
        "http://server/v1/transcribe"
    );
    assert_eq!(
        url(None, Some("LocalHost")),
        "http://localhost:8000/api/transcribe"
    );
}

#[test]
fn base_urls_come_from_the_environment() {
    let base = CodexAuthManager::api_base_url;
    assert_eq!(base(Some("///"), None), "https://chatgpt.com/backend-api");
    assert_eq!(base(Some(""), Some("LOCALHOST")), "http://localhost:8000/api");
    assert_eq!(base(None, Some("localhost ")), "https://chatgpt.com/backend-api");
    assert_eq!(base(Some("http://a/"), None), "http://a");
    assert_eq!(base(Some("/a/b"), None), "/a/b");
}

#[test]
fn user_agents_name_the_system() {
    assert_eq!(
        build_user_agent("macos", "aarch64"),
        "Codex Desktop/1.0.4 (darwin; arm64)"
    );
    assert_eq!(
        build_user_agent("windows", "x86_64"),
        "Codex Desktop/1.0.4 (win32; x64)"
    );
    assert_eq!(
        build_user_agent("linux", "riscv64"),
        "Codex Desktop/1.0.4 (linux; unknown)"
    );
    assert_eq!(
        build_user_agent("freebsd", "x86"),
        "Codex Desktop/1.0.4 (linux; unknown)"
    );
}

#[test]
fn auth_headers_name_token_and_account() {
    let pair = |k: &str, v: &str| (k.to_owned(), v.to_owned());
    let mut expected = vec![
        pair("Authorization", "Bearer t"),
        pair("originator", "Codex Desktop"),
        pair("User-Agent", "Codex Desktop/1.0.4 (linux; x64)"),
    ];
    assert_eq!(
        CodexAuthManager::build_auth_headers("t", None, "linux", "x86_64"),
        expected
    );
    expected.push(pair("ChatGPT-Account-Id", "A"));
    assert_eq!(
        CodexAuthManager::build_auth_headers("t", Some("A"), "linux", "x86_64"),
        expected
    );
}

#[test]
fn requests_carry_the_content_type_first() {
    let request = upload(&[0.5], None).do_transcribe_request("t", None, "linux", "x86_64");
    assert_eq!(
        request.headers[0],
        (
            "Content-Type".to_owned(),
            "multipart/form-data; boundary=----codex-transcribe-id".to_owned()
        )
    );
    assert_eq!(request.headers.len(), 4);
    assert_eq!(request.url, "http://server/transcribe");
    let wav = encode_wav(&quantize(&[0.5]), 16_000).unwrap();
    assert_eq!(
        request.body,
        build_multipart_body(
            &wav,
            "----codex-transcribe-id",
            "codex.wav",
            "audio/wav",
            None
        )
    );
}

#[test]
fn failures_on_the_way_are_reported() {
    match upload(&[0.5], None).client_built(Err("no TLS".to_owned())) {
        ClientStep::Finished(result) => assert_eq!(
            result.unwrap_err(),
            "Failed to build transcription client: no TLS"
        ),
        ClientStep::GetToken(_) => panic!("there is no client"),
    }
    assert!(matches!(
        upload(&[0.5], None).client_built(Ok(())),
        ClientStep::GetToken(_)
    ));
    match upload(&[0.5], None).token_received(Err("not logged in".to_owned()), "linux", "x86") {
        SendStep::Finished(result) => assert_eq!(result.unwrap_err(), "not logged in"),
        SendStep::Send(_, _) => panic!("there is no token"),
    }
    let step = upload(&[0.5], None).token_received(Ok(("t".to_owned(), None)), "linux", "x86");
    let attempt = match step {
        SendStep::Send(_, attempt) => attempt,
        SendStep::Finished(_) => panic!("the audio has to be sent"),
    };
    match attempt.reply_received(Reply::Unanswered("reset".to_owned())) {
        FirstReplyStep::Finished(result) => {
            assert_eq!(result.unwrap_err(), "Transcription request failed: reset")
        }
        _ => panic!("there is no answer"),
    }
    match second_reply_received(Reply::Unanswered("reset".to_owned())) {
        SecondReplyStep::Finished(result) => {
            assert_eq!(result.unwrap_err(), "Transcription request failed: reset")
        }
        _ => panic!("there is no answer"),
    }
    assert!(matches!(
        second_reply_received(Reply::Answered(401)),
        SecondReplyStep::ReadError
    ));
    assert_eq!(
        transcript_read(Err("EOF".to_owned())).unwrap_err(),
        "Failed to parse transcription response: EOF"
    );
}

#[test]
fn events_can_be_copied() {
    let event = CloudTranscriptEvent {
        text: "said".to_owned(),
        is_final: true,
    };
    let copy = event.clone();
    assert_eq!((copy.text.as_str(), copy.is_final), ("said", true));
    let event = CloudSttStatusEvent {
        status: "error".to_owned(),
        message: Some("why".to_owned()),
    };
    let copy = event.clone();
    assert_eq!(copy.status, "error");
    assert_eq!(copy.message.as_deref(), Some("why"));
}
