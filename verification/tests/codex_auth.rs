//! Sessions, credential files and refreshes.

use std::path::PathBuf;

use cloud_stt::auth_file::{
    auth_file_path, file_credentials, lock_auth_file, read_auth_file, rotate,
    write_auth_file_atomically, AuthFileRead, CodexAuthFile, CodexTokens, LockEvent,
    LockStep, RefreshResponse, WriteStage, WriteStep, LOCK_FILE_NAME, LOCK_TIMEOUT_SECS,
};
use cloud_stt::credentials::{
    require_same_account, require_same_identity, CredentialSource, Credentials,
};
use cloud_stt::jwt::{
    decode_jwt_payload, extract_chatgpt_account_id, is_expiry_passed, is_token_expired,
    read_claims, token_claims,
};
use cloud_stt::manager::{
    refresh_joined, CodexAuthManager, TokenResult, TokenStep, AUTH_TOKEN_URL,
};
use cloud_stt::refresh::{
    check_reply, is_success, GateStep, LockedStep, ReadStep, RefreshReply, RefreshRequest,
    RefreshTask, ReplyStep, RereadStep,
};

const NOW: u64 = 1_700_000_000;

type Object = serde_json::Map<String, serde_json::Value>;

fn object(text: &str) -> Object {
    serde_json::from_str(text).unwrap()
}

fn encode(payload: &str) -> String {
    let engine = base64::engine::general_purpose::URL_SAFE_NO_PAD;
    format!("e30.{}.fixture", base64::Engine::encode(&engine, payload))
}

fn jwt(account: &str, tag: &str, valid: bool) -> String {
    let exp = if valid { NOW + 3600 } else { 1 };
    encode(&format!(
        "{{\"exp\":{exp},\"sub\":\"user-{account}\",\"nonce\":\"{tag}\",\"https://api.openai.com/auth\":{{\"chatgpt_account_id\":\"{account}\"}}}}"
    ))
}

fn auth_json(token: &str, refresh: &str) -> String {
    format!(
        "{{\"auth_mode\":\"chatgpt\",\"unrelated\":{{\"keep\":true}},\"tokens\":{{\"access_token\":\"{token}\",\"refresh_token\":\"{refresh}\",\"id_token\":\"id\",\"unknown_token_field\":123}}}}"
    )
}

fn take_text(members: &mut Object, key: &str) -> Option<String> {
    members
        .remove(key)
        .and_then(|value| value.as_str().map(str::to_owned))
}

/// Reads a credential file from its contents.
fn read(contents: &str) -> AuthFileRead {
    let mut extra = object(contents);
    let mut tokens = match extra.remove("tokens") {
        Some(serde_json::Value::Object(tokens)) => tokens,
        _ => return AuthFileRead::Unparsable("missing field `tokens`".to_owned()),
    };
    let file = CodexAuthFile {
        tokens: CodexTokens {
            access_token: take_text(&mut tokens, "access_token").unwrap(),
            refresh_token: take_text(&mut tokens, "refresh_token"),
            id_token: take_text(&mut tokens, "id_token"),
            extra: tokens,
        },
        extra,
    };
    AuthFileRead::Parsed(contents.to_owned(), file)
}

/// Writes a credential file to its contents.
fn store(file: CodexAuthFile) -> String {
    let mut tokens = file.tokens.extra;
    tokens.insert("access_token".to_owned(), file.tokens.access_token.into());
    tokens.insert("refresh_token".to_owned(), file.tokens.refresh_token.into());
    tokens.insert("id_token".to_owned(), file.tokens.id_token.into());
    let mut members = file.extra;
    members.insert("tokens".to_owned(), serde_json::Value::Object(tokens));
    serde_json::Value::Object(members).to_string()
}

fn path() -> PathBuf {
    PathBuf::from("/home/user/.codex/auth.json")
}

fn session(contents: &str, url: &str) -> CodexAuthManager {
    CodexAuthManager::with_config(Some(path()), url.to_owned(), Some(read(contents)))
}

fn granted(token: &str, refresh: Option<&str>) -> RefreshReply {
    RefreshReply::Answered {
        status: 200,
        status_text: "200 OK".to_owned(),
        body: Ok(RefreshResponse {
            access_token: token.to_owned(),
            id_token: None,
            refresh_token: refresh.map(str::to_owned),
        }),
    }
}

fn finished(step: TokenStep) -> TokenResult {
    match step {
        TokenStep::Finished(result) => result,
        TokenStep::Refresh(_) => panic!("no refresh was expected"),
    }
}

fn refresh_task(step: TokenStep) -> RefreshTask {
    match step {
        TokenStep::Finished(_) => panic!("a refresh was expected"),
        TokenStep::Refresh(task) => task,
    }
}

/// Takes a refresh to its end. `reply` answers the request, and may change the session
/// or the file on disk before it does. Returns the requests that were sent.
fn run_refresh(
    manager: &mut CodexAuthManager,
    task: RefreshTask,
    disk: &mut String,
    reply: impl FnOnce(&mut CodexAuthManager, &mut String) -> RefreshReply,
) -> (TokenResult, Vec<RefreshRequest>) {
    let refresh = match task.gate_entered(manager, NOW) {
        GateStep::Finished(result) => return (result, vec![]),
        GateStep::LockFile(refresh) => refresh,
    };
    let refresh = match refresh.lock_tried(Ok(())) {
        LockedStep::Finished(result) => return (result, vec![]),
        LockedStep::ReadFile(refresh) => refresh,
    };
    let (request, pending) = match refresh.file_read(manager, read(disk), NOW) {
        ReadStep::Finished(result) => return (result, vec![]),
        ReadStep::Request(request, pending) => (request, pending),
    };
    let reply = reply(manager, disk);
    let pending = match pending.reply_received(reply, NOW) {
        ReplyStep::Finished(result) => return (result, vec![request]),
        ReplyStep::Reread(pending) => pending,
    };
    let (target, file, pending) = match pending.file_reread(manager, read(disk), NOW) {
        RereadStep::Finished(result) => return (result, vec![request]),
        RereadStep::Declined(e) => return (Err(e), vec![request]),
        RereadStep::Write(target, file, pending) => (target, file, pending),
    };
    assert_eq!(target, path());
    *disk = store(file);
    (pending.file_written(manager, Ok(())), vec![request])
}

fn never(_: &mut CodexAuthManager, _: &mut String) -> RefreshReply {
    panic!("no request was expected")
}

#[test]
fn empty_manual_token_is_rejected_without_discarding_a_session() {
    let mut manager = CodexAuthManager::with_config(None, AUTH_TOKEN_URL.into(), None);
    assert!(manager.set_access_token(" \n".into()).is_err());
    let token = jwt("A", "manual", true);
    manager.set_access_token(token.clone()).unwrap();
    assert!(manager.set_access_token(String::new()).is_err());
    assert_eq!(manager.credentials.as_ref().unwrap().access_token, token);
}

#[test]
fn manual_tokens_never_adopt_the_account_in_auth_json() {
    let mut disk = auth_json(&jwt("B", "file", true), "refresh-B");
    let file = disk.clone();
    let mut manager = session(&disk, "http://127.0.0.1:1/must-not-call");
    for valid in [false, true] {
        let token = jwt("A", "manual", valid);
        manager.set_access_token(token.clone()).unwrap();
        let step = if valid {
            manager.refresh_after_rejection(&token, NOW)
        } else {
            manager.get_valid_token(NOW)
        };
        assert!(finished(step).unwrap_err().contains("manually entered"));
        let credentials = manager.credentials.as_ref().unwrap();
        assert_eq!(credentials.account_id.as_deref(), Some("A"));
        assert_eq!(disk, file);
    }
    let task = RefreshTask {
        revision: manager.revision,
        initial: manager.credentials.clone().unwrap(),
        rejected: Some(jwt("A", "manual", true)),
    };
    let (result, requests) = run_refresh(&mut manager, task, &mut disk, never);
    assert_eq!(
        result.unwrap_err(),
        "Manual tokens cannot be refreshed from a file"
    );
    assert!(requests.is_empty());
}

#[test]
fn rejection_forces_refresh_of_an_unexpired_token_and_preserves_json() {
    let old = jwt("A", "old", true);
    let new = jwt("A", "new", true);
    let mut disk = auth_json(&old, "refresh-old");
    let mut manager = session(&disk, "http://127.0.0.1/oauth/token");
    let task = refresh_task(manager.refresh_after_rejection(&old, NOW));
    let (result, requests) = run_refresh(&mut manager, task, &mut disk, |_, _| {
        granted(&new, Some("refresh-new"))
    });
    assert_eq!(requests.len(), 1);
    assert_eq!(requests[0].url, "http://127.0.0.1/oauth/token");
    assert_eq!(requests[0].refresh_token, "refresh-old");
    assert_eq!(requests[0].grant_type, "refresh_token");
    assert_eq!(requests[0].client_id, "app_EMoamEEZ73f0CkXaXp7hrann");
    assert_eq!(result.unwrap(), (new.clone(), Some("A".to_owned())));
    let file: serde_json::Value = serde_json::from_str(&disk).unwrap();
    assert_eq!(file["tokens"]["access_token"], new.as_str());
    assert_eq!(file["tokens"]["refresh_token"], "refresh-new");
    assert_eq!(file["tokens"]["id_token"], "id");
    assert_eq!(file["tokens"]["unknown_token_field"], 123);
    assert_eq!(file["unrelated"]["keep"], true);
    assert_eq!(file["auth_mode"], "chatgpt");
}

#[test]
fn two_managers_share_a_file_lock_and_do_not_rotate_twice() {
    let mut disk = auth_json(&jwt("A", "expired", false), "refresh-old");
    let mut first = session(&disk, "http://127.0.0.1");
    let mut second = session(&disk, "http://127.0.0.1");
    let a = refresh_task(first.get_valid_token(NOW));
    let b = refresh_task(second.get_valid_token(NOW));
    let token = jwt("A", "fresh", true);
    let (result, requests) = run_refresh(&mut first, a, &mut disk, |_, _| granted(&token, None));
    assert_eq!(result.unwrap().0, token);
    assert_eq!(requests.len(), 1);
    let (result, requests) = run_refresh(&mut second, b, &mut disk, never);
    assert_eq!(result.unwrap().0, token);
    assert!(requests.is_empty());
}

#[test]
fn a_second_refresh_of_one_session_finds_the_work_done_at_the_gate() {
    let mut disk = auth_json(&jwt("A", "expired", false), "refresh-old");
    let mut manager = session(&disk, "http://127.0.0.1");
    let a = refresh_task(manager.get_valid_token(NOW));
    let b = refresh_task(manager.get_valid_token(NOW));
    let token = jwt("A", "fresh", true);
    let (result, _) = run_refresh(&mut manager, a, &mut disk, |_, _| granted(&token, None));
    assert_eq!(result.unwrap().0, token);
    match b.gate_entered(&manager, NOW) {
        GateStep::Finished(result) => assert_eq!(result.unwrap().0, token),
        GateStep::LockFile(_) => panic!("the file must not be locked"),
    }
}

#[test]
fn externally_refreshed_file_is_reused_but_different_account_is_rejected() {
    for account in ["A", "B"] {
        let mut manager = session(&auth_json(&jwt("A", "expired", false), "old"), "");
        let replacement = jwt(account, "external", true);
        let mut disk = auth_json(&replacement, "external-refresh");
        let file = disk.clone();
        let task = refresh_task(manager.get_valid_token(NOW));
        let (result, requests) = run_refresh(&mut manager, task, &mut disk, never);
        if account == "A" {
            assert_eq!(result.unwrap().0, replacement);
        } else {
            assert!(result.unwrap_err().contains("account changed"));
        }
        assert_eq!(disk, file);
        assert!(requests.is_empty());
    }
}

#[test]
fn concurrent_external_write_is_never_overwritten() {
    let mut disk = auth_json(&jwt("A", "expired", false), "old");
    let mut manager = session(&disk, "");
    let task = refresh_task(manager.get_valid_token(NOW));
    let external = auth_json(&jwt("B", "external-account", true), "external-refresh");
    let (result, _) = run_refresh(&mut manager, task, &mut disk, |_, disk| {
        *disk = external.clone();
        granted(&jwt("A", "rotated", true), None)
    });
    assert!(result.unwrap_err().contains("account changed"));
    assert_eq!(disk, external);
    let credentials = manager.credentials.as_ref().unwrap();
    assert_eq!(credentials.account_id.as_deref(), Some("A"));
}

#[test]
fn external_writes_of_the_same_account_are_taken_or_left() {
    for valid in [true, false] {
        let mut disk = auth_json(&jwt("A", "expired", false), "old");
        let mut manager = session(&disk, "");
        let task = refresh_task(manager.get_valid_token(NOW));
        let latest = jwt("A", "external", valid);
        let external = auth_json(&latest, "external-refresh");
        let (result, _) = run_refresh(&mut manager, task, &mut disk, |_, disk| {
            *disk = external.clone();
            granted(&jwt("A", "rotated", true), None)
        });
        if valid {
            assert_eq!(result.unwrap().0, latest);
            assert_eq!(manager.credentials.as_ref().unwrap().access_token, latest);
        } else {
            assert_eq!(
                result.unwrap_err(),
                "Codex credentials changed during refresh. Import credentials again."
            );
        }
        assert_eq!(disk, external);
    }
}

#[test]
fn logout_or_manual_switch_during_refresh_is_not_undone() {
    for switch_to_manual in [false, true] {
        let mut disk = auth_json(&jwt("A", "expired", false), "old");
        let mut manager = session(&disk, "");
        let task = refresh_task(manager.get_valid_token(NOW));
        let refreshed = jwt("A", "refreshed", true);
        let (result, _) = run_refresh(&mut manager, task, &mut disk, |manager, _| {
            if switch_to_manual {
                manager.set_access_token(jwt("B", "manual", true)).unwrap();
            } else {
                manager.logout();
            }
            granted(&refreshed, Some("rotated"))
        });
        assert!(result.unwrap_err().contains("login changed"));
        if switch_to_manual {
            let (_, account) = finished(manager.get_valid_token(NOW)).unwrap();
            assert_eq!(account.as_deref(), Some("B"));
        } else {
            assert!(!manager.get_state(true).is_logged_in);
        }
        // A rotation that has begun is persisted without restoring the session.
        let (_, file) = read_auth_file(read(&disk)).unwrap();
        assert_eq!(file.tokens.access_token, refreshed);
        assert_eq!(file.tokens.refresh_token.as_deref(), Some("rotated"));
    }
}

#[test]
fn a_login_that_changed_before_the_gate_is_left_alone() {
    let disk = auth_json(&jwt("A", "expired", false), "old");
    let mut manager = session(&disk, "");
    let task = refresh_task(manager.get_valid_token(NOW));
    manager.logout();
    match task.gate_entered(&manager, NOW) {
        GateStep::Finished(result) => assert_eq!(
            result.unwrap_err(),
            "Codex login changed during refresh; try again"
        ),
        GateStep::LockFile(_) => panic!("the file must not be locked"),
    }
}

#[test]
fn cancelled_transcription_does_not_drop_rotated_refresh_credentials() {
    let mut disk = auth_json(&jwt("A", "expired", false), "old");
    let mut manager = session(&disk, "");
    let task = refresh_task(manager.get_valid_token(NOW));
    let refreshed = jwt("A", "refreshed", true);
    // Nobody waits for the result any more; the refresh itself goes on.
    let _ = run_refresh(&mut manager, task, &mut disk, |_, _| {
        granted(&refreshed, Some("rotated"))
    });
    let (_, file) = read_auth_file(read(&disk)).unwrap();
    assert_eq!(file.tokens.refresh_token.as_deref(), Some("rotated"));
    assert_eq!(
        finished(manager.get_valid_token(NOW)).unwrap().0,
        refreshed
    );
}

#[test]
fn refresh_errors_and_invalid_responses_leave_the_original_file_intact() {
    let response = |token: &str| RefreshResponse {
        access_token: token.to_owned(),
        id_token: None,
        refresh_token: None,
    };
    for (status, body, message) in [
        (
            500,
            Err("я".repeat(600)),
            "Token refresh failed: HTTP 500 Internal Server Error. Sign in to Codex again.",
        ),
        (
            200,
            Ok(response("")),
            "Token refresh returned an empty, invalid or expired token",
        ),
        (
            200,
            Ok(response(&jwt("B", "wrong-account", true))),
            "Codex account changed. Import credentials again to confirm the new account.",
        ),
        (
            200,
            Err("expected value".to_owned()),
            "Invalid token refresh response: expected value",
        ),
    ] {
        let mut disk = auth_json(&jwt("A", "expired", false), "old");
        let before = disk.clone();
        let mut manager = session(&disk, "");
        let task = refresh_task(manager.get_valid_token(NOW));
        let status_text = if status == 200 {
            "200 OK"
        } else {
            "500 Internal Server Error"
        };
        let (result, _) = run_refresh(&mut manager, task, &mut disk, |_, _| {
            RefreshReply::Answered {
                status,
                status_text: status_text.to_owned(),
                body,
            }
        });
        assert_eq!(result.unwrap_err(), message);
        assert_eq!(disk, before);
    }
}

#[test]
fn unanswered_refresh_reports_the_reason() {
    let reply = RefreshReply::Unanswered("connection refused".to_owned());
    match check_reply(reply, NOW) {
        Err(e) => assert_eq!(e, "Token refresh request failed: connection refused"),
        Ok(_) => panic!("nothing was granted"),
    }
}

#[test]
fn failed_lock_ends_the_refresh() {
    let manager = session(&auth_json(&jwt("A", "expired", false), "old"), "");
    let task = refresh_task(manager.get_valid_token(NOW));
    let refresh = match task.gate_entered(&manager, NOW) {
        GateStep::LockFile(refresh) => refresh,
        GateStep::Finished(_) => panic!("the file has to be locked"),
    };
    assert_eq!(refresh.path, path());
    match refresh.lock_tried(Err("locked out".to_owned())) {
        LockedStep::Finished(result) => assert_eq!(result.unwrap_err(), "locked out"),
        LockedStep::ReadFile(_) => panic!("the file must not be read"),
    }
}

#[test]
fn failed_write_reports_the_reason_and_installs_nothing() {
    let expired = jwt("A", "expired", false);
    let disk = auth_json(&expired, "old");
    let mut manager = session(&disk, "");
    let task = refresh_task(manager.get_valid_token(NOW));
    let refresh = match task.gate_entered(&manager, NOW) {
        GateStep::LockFile(refresh) => refresh,
        GateStep::Finished(_) => panic!("the file has to be locked"),
    };
    let pending = match refresh.file_read(&mut manager, read(&disk), NOW) {
        ReadStep::Request(_, pending) => pending,
        ReadStep::Finished(_) => panic!("a request has to be sent"),
    };
    let pending = match pending.reply_received(granted(&jwt("A", "new", true), None), NOW) {
        ReplyStep::Reread(pending) => pending,
        ReplyStep::Finished(_) => panic!("the file has to be read again"),
    };
    let pending = match pending.file_reread(&mut manager, read(&disk), NOW) {
        RereadStep::Write(_, _, pending) => pending,
        _ => panic!("the file has to be written"),
    };
    let result = pending.file_written(&mut manager, Err("disk full".to_owned()));
    assert_eq!(result.unwrap_err(), "disk full");
    assert_eq!(manager.credentials.as_ref().unwrap().access_token, expired);
}

#[test]
fn a_file_without_a_refresh_token_asks_to_sign_in_again() {
    for refresh in ["", "null"] {
        let token = jwt("A", "expired", false);
        let disk = if refresh.is_empty() {
            auth_json(&token, "")
        } else {
            format!("{{\"tokens\":{{\"access_token\":\"{token}\"}}}}")
        };
        let mut manager = session(&disk, "");
        let task = refresh_task(manager.get_valid_token(NOW));
        let (result, requests) = run_refresh(&mut manager, task, &mut disk.clone(), never);
        assert_eq!(
            result.unwrap_err(),
            "No refresh token in Codex credentials; sign in again"
        );
        assert!(requests.is_empty());
    }
}

#[test]
fn missing_file_clears_file_session_but_does_not_discard_manual_credentials() {
    let missing = || Some(AuthFileRead::Unreadable("No such file".to_owned()));
    let mut manager = session(&auth_json(&jwt("A", "file", true), "refresh"), AUTH_TOKEN_URL);
    assert!(manager.get_state(true).is_logged_in);
    assert!(!manager.reload_from_file(missing()));
    assert!(!manager.get_state(false).is_logged_in);
    manager.set_access_token(jwt("A", "manual", true)).unwrap();
    assert!(!manager.reload_from_file(missing()));
    assert!(manager.get_state(false).is_logged_in);
}

#[test]
fn revisions_count_explicit_changes_only() {
    let mut manager = session(&auth_json(&jwt("A", "file", true), "refresh"), "");
    assert_eq!(manager.revision, 1);
    manager.logout();
    assert_eq!(manager.revision, 2);
    assert!(manager.set_access_token("\u{2003}".to_owned()).is_err());
    assert_eq!(manager.revision, 2);
    manager.set_access_token("token".to_owned()).unwrap();
    assert_eq!(manager.revision, 3);
    assert!(!manager.reload_from_file(None));
    assert_eq!(manager.revision, 3);
    manager.revision = u64::MAX;
    manager.logout();
    assert_eq!(manager.revision, 0);
    let credentials = Credentials {
        access_token: "t".to_owned(),
        account_id: None,
        source: CredentialSource::Manual,
    };
    assert!(manager.install_refreshed(u64::MAX, credentials.clone()).is_err());
    assert!(manager.credentials.is_none());
    assert_eq!(
        manager.install_refreshed(0, credentials).unwrap(),
        ("t".to_owned(), None)
    );
    assert_eq!(manager.revision, 0);
}

#[test]
fn new_sessions_use_the_provider() {
    let manager = CodexAuthManager::new(None, None);
    assert_eq!(manager.refresh_url, "https://auth.openai.com/oauth/token");
    let state = manager.get_state(true).clone();
    assert!(!state.is_logged_in);
    assert!(!state.has_auth_file);
    assert_eq!(
        finished(manager.get_valid_token(NOW)).unwrap_err(),
        "Not logged in to Codex"
    );
}

#[test]
fn entered_tokens_are_trimmed() {
    let mut manager = CodexAuthManager::new(None, None);
    let token = jwt("A", "manual", true);
    manager.set_access_token(format!("\n {token}\t")).unwrap();
    assert_eq!(
        finished(manager.get_valid_token(NOW)).unwrap(),
        (token, Some("A".to_owned()))
    );
}

#[test]
fn files_without_a_usable_token_are_refused() {
    let refused = |outcome: Result<(String, CodexAuthFile), String>| match outcome {
        Ok(_) => panic!("the file must be refused"),
        Err(e) => e,
    };
    assert_eq!(
        refused(read_auth_file(AuthFileRead::Unreadable("gone".to_owned()))),
        "Failed to read Codex credentials: gone"
    );
    assert_eq!(
        refused(read_auth_file(AuthFileRead::Unparsable("EOF".to_owned()))),
        "Failed to parse Codex credentials: EOF"
    );
    assert_eq!(
        refused(read_auth_file(read(&auth_json(" \\n", "r")))),
        "Codex credentials contain an empty access token"
    );
    let mut manager = session(&auth_json(&jwt("A", "file", true), "r"), "");
    assert!(!manager.reload_from_file(Some(read(&auth_json("", "r")))));
    assert!(manager.credentials.is_none());
}

#[test]
fn the_account_comes_from_the_token_and_else_from_the_file() {
    let file = |token: &str| CodexAuthFile {
        tokens: CodexTokens {
            access_token: token.to_owned(),
            refresh_token: None,
            id_token: None,
            extra: object("{\"account_id\":\"listed\"}"),
        },
        extra: object("{}"),
    };
    let claimed = file_credentials(&file(&jwt("A", "x", true)), &path());
    assert_eq!(claimed.account_id.as_deref(), Some("A"));
    let listed = file_credentials(&file("opaque"), &path());
    assert_eq!(listed.account_id.as_deref(), Some("listed"));
    assert_eq!(listed.access_token, "opaque");
    assert!(matches!(listed.source, CredentialSource::CodexFile(p) if p == path()));
    let mut unlisted = file("opaque");
    unlisted.tokens.extra = object("{\"account_id\":7}");
    assert_eq!(file_credentials(&unlisted, &path()).account_id, None);
}

#[test]
fn rotation_renews_what_the_reply_returns() {
    let file = || match read(&auth_json("a", "r")) {
        AuthFileRead::Parsed(_, file) => file,
        _ => panic!("the file is well formed"),
    };
    let response = |id: Option<&str>, refresh: Option<&str>| RefreshResponse {
        access_token: "b".to_owned(),
        id_token: id.map(str::to_owned),
        refresh_token: refresh.map(str::to_owned),
    };
    let kept = rotate(file(), response(None, None));
    assert_eq!(kept.tokens.access_token, "b");
    assert_eq!(kept.tokens.refresh_token.as_deref(), Some("r"));
    assert_eq!(kept.tokens.id_token.as_deref(), Some("id"));
    let renewed = rotate(file(), response(Some("i"), Some("s")));
    assert_eq!(renewed.tokens.refresh_token.as_deref(), Some("s"));
    assert_eq!(renewed.tokens.id_token.as_deref(), Some("i"));
    assert_eq!(renewed.tokens.extra, object("{\"unknown_token_field\":123}"));
}

#[test]
fn accounts_and_users_are_compared() {
    let credentials = |token: &str, account: Option<&str>| Credentials {
        access_token: token.to_owned(),
        account_id: account.map(str::to_owned),
        source: CredentialSource::Manual,
    };
    let a = jwt("A", "x", true);
    let b = jwt("B", "x", true);
    let same = credentials(&a, Some("A"));
    assert!(require_same_account(&same, &credentials(&jwt("A", "y", false), Some("A"))).is_ok());
    assert_eq!(
        require_same_account(&same, &credentials(&a, None)).unwrap_err(),
        "Codex account changed. Import credentials again to confirm the new account."
    );
    assert_eq!(
        require_same_account(&credentials(&a, None), &credentials(&b, None)).unwrap_err(),
        "Codex user changed. Import credentials again to confirm the new user."
    );
    assert!(require_same_account(&credentials("x", None), &credentials("y", None)).is_ok());
    let text = |s: &str| Some(s.to_owned());
    assert!(require_same_identity(&text("A"), &text("A"), &None, &None).is_ok());
    assert!(require_same_identity(&text("A"), &text("A"), &None, &text("u")).is_err());
    assert!(require_same_identity(&text("A"), &None, &None, &None).is_err());
}

#[test]
fn payloads_are_decoded_with_and_without_padding() {
    let token = encode("{\"exp\":5,\"sub\":\"me\"}");
    let payload = decode_jwt_payload(&token).unwrap();
    assert_eq!(payload["sub"], "me");
    assert_eq!(payload["exp"], 5);
    let claims = read_claims(&payload);
    assert_eq!(claims.expiry, Some(5));
    assert_eq!(claims.subject.as_deref(), Some("me"));
    assert_eq!(claims.account_id, None);
    let padded = token.replace(".fixture", "==.fixture");
    assert_eq!(decode_jwt_payload(&padded).unwrap()["sub"], "me");
    let unsigned = token.trim_end_matches(".fixture");
    assert_eq!(decode_jwt_payload(unsigned).unwrap()["sub"], "me");
    assert!(decode_jwt_payload("no dots").is_none());
    assert!(decode_jwt_payload("e30.!!!.x").is_none());
    assert!(decode_jwt_payload("e30.YWJj.x").is_none());
    assert!(decode_jwt_payload("").is_none());
    assert!(token_claims("e30.YWJj.x").expiry.is_none());
}

#[test]
fn claims_of_other_types_are_not_read() {
    let token = encode("{\"exp\":\"5\",\"sub\":5,\"https://api.openai.com/auth\":[]}");
    let claims = token_claims(&token);
    assert_eq!(claims.expiry, None);
    assert_eq!(claims.subject, None);
    assert_eq!(claims.account_id, None);
    assert_eq!(token_claims(&encode("{\"exp\":-5}")).expiry, None);
    assert_eq!(token_claims(&encode("{\"exp\":5.5}")).expiry, None);
    assert_eq!(token_claims(&encode("[1]")).expiry, None);
    assert_eq!(extract_chatgpt_account_id(&jwt("A", "x", false)).as_deref(), Some("A"));
    assert_eq!(extract_chatgpt_account_id(&encode("{}")), None);
}

#[test]
fn tokens_expire_a_margin_before_their_expiry() {
    let token = encode("{\"exp\":1000}");
    assert!(!is_token_expired(&token, 699));
    assert!(is_token_expired(&token, 700));
    assert!(is_token_expired(&token, 701));
    assert!(is_token_expired("opaque", 0));
    assert!(is_token_expired(&encode("{\"exp\":300}"), 0));
    assert!(!is_token_expired(&encode("{\"exp\":301}"), 0));
    assert!(!is_expiry_passed(Some(u64::MAX), 0));
    assert!(is_expiry_passed(Some(u64::MAX), u64::MAX - 300));
    assert!(is_expiry_passed(None, 0));
}

#[test]
fn a_rejected_token_is_not_given_out_again() {
    let token = jwt("A", "file", true);
    let manager = session(&auth_json(&token, "r"), "");
    assert_eq!(finished(manager.get_valid_token(NOW)).unwrap().0, token);
    let other = finished(manager.refresh_after_rejection("other", NOW)).unwrap();
    assert_eq!(other, (token.clone(), Some("A".to_owned())));
    let task = refresh_task(manager.refresh_after_rejection(&token, NOW));
    assert_eq!(task.rejected.as_deref(), Some(token.as_str()));
    assert_eq!(task.revision, manager.revision);
}

#[test]
fn the_lock_is_waited_for() {
    let message = |event: LockEvent| match lock_auth_file(event) {
        LockStep::GiveUp(e) => e,
        LockStep::Held => "held".to_owned(),
        LockStep::RetryAfter(millis) => format!("retry after {millis}"),
    };
    assert_eq!(
        message(LockEvent::OpenFailed("denied".to_owned())),
        "Failed to open credential lock: denied"
    );
    assert_eq!(message(LockEvent::Acquired), "held");
    assert_eq!(message(LockEvent::WouldBlock), "retry after 25");
    assert_eq!(
        message(LockEvent::Failed("io".to_owned())),
        "Failed to lock credentials: io"
    );
    assert_eq!(
        message(LockEvent::TimedOut),
        "Timed out waiting for Codex credential refresh"
    );
    assert_eq!(LOCK_FILE_NAME, "auth.json.handy.lock");
    assert_eq!(LOCK_TIMEOUT_SECS, 10);
}

#[test]
fn the_file_is_replaced_step_by_step() {
    let mut stages = vec![WriteStage::FindDirectory];
    loop {
        match write_auth_file_atomically(stages[stages.len() - 1], Ok(())) {
            WriteStep::Continue(next) => stages.push(next),
            WriteStep::Done => break,
            WriteStep::GiveUp(e) => panic!("{}", e),
        }
    }
    let messages: Vec<String> = stages
        .iter()
        .map(|stage| match write_auth_file_atomically(*stage, Err("why".to_owned())) {
            WriteStep::GiveUp(e) => e,
            _ => panic!("a failed step ends the replacement"),
        })
        .collect();
    assert_eq!(
        messages,
        vec![
            "Codex credential directory is missing",
            "Failed to create credential update: why",
            "Failed to serialize credentials: why",
            "Failed to flush credentials: why",
            "Failed to replace credentials: why",
            "Failed to sync credential directory: why",
        ]
    );
}

#[test]
fn the_file_is_looked_for_in_three_places() {
    let (home, profile) = (Some("/home/user"), Some("C:/Users/user"));
    assert_eq!(
        auth_file_path(Some(("/codex", 6)), home, profile),
        Some(("/codex", "auth.json"))
    );
    // An empty CODEX_HOME counts as unset.
    for codex_home in [None, Some(("", 0))] {
        assert_eq!(
            auth_file_path(codex_home, home, profile),
            Some(("/home/user", ".codex/auth.json"))
        );
        assert_eq!(
            auth_file_path(codex_home, None, profile),
            Some(("C:/Users/user", ".codex/auth.json"))
        );
        assert_eq!(auth_file_path(codex_home, None, None), None);
    }
    // An empty HOME counts all the same.
    assert_eq!(
        auth_file_path(None, Some(""), profile),
        Some(("", ".codex/auth.json"))
    );
}

#[test]
fn failed_refresh_tasks_are_reported() {
    assert_eq!(
        refresh_joined(Err("task 7 panicked".to_owned())).unwrap_err(),
        "Credential refresh task failed: task 7 panicked"
    );
    let grant = ("t".to_owned(), Some("A".to_owned()));
    assert_eq!(refresh_joined(Ok(Ok(grant.clone()))).unwrap(), grant);
    assert_eq!(
        refresh_joined(Ok(Err("refused".to_owned()))).unwrap_err(),
        "refused"
    );
}

#[test]
fn success_is_the_two_hundreds() {
    assert!(!is_success(199));
    assert!(is_success(200));
    assert!(is_success(299));
    assert!(!is_success(300));
}

#[test]
fn failed_imports_say_why() {
    let mut manager = session(&auth_json(&jwt("A", "file", true), "r"), "");
    assert_eq!(
        manager.import_file(Some(AuthFileRead::Unreadable("gone".to_owned()))),
        Err(Some("Failed to read Codex credentials: gone".to_owned()))
    );
    assert!(manager.credentials.is_none());
    assert_eq!(manager.import_file(None), Err(None));
    let token = jwt("A", "file", true);
    assert_eq!(manager.import_file(Some(read(&auth_json(&token, "r")))), Ok(()));
    assert_eq!(manager.credentials.as_ref().unwrap().access_token, token);
    let mut unconfigured = CodexAuthManager::new(None, None);
    assert_eq!(
        unconfigured.import_file(Some(read(&auth_json(&token, "r")))),
        Err(None)
    );
}

#[test]
fn a_session_imports_the_same_at_construction_and_after_it() {
    let contents = auth_json(&jwt("A", "file", true), "r");
    let at_once = session(&contents, "http://server");
    let url = "http://server".to_owned();
    let mut later = CodexAuthManager::with_config(Some(path()), url, None);
    assert_eq!(later.import_file(Some(read(&contents))), Ok(()));
    assert_eq!(at_once.revision, later.revision);
    assert_eq!(
        at_once.credentials.unwrap().to_grant(),
        later.credentials.unwrap().to_grant()
    );
}

#[test]
fn one_login_keeps_one_account_over_refreshes() {
    let first = jwt("A", "0", true);
    let mut disk = auth_json(&first, "refresh-0");
    let mut manager = session(&disk, "");
    let mut token = finished(manager.get_valid_token(NOW)).unwrap().0;
    assert_eq!(token, first);
    for tag in ["1", "2", "3"] {
        let early = refresh_task(manager.refresh_after_rejection(&token, NOW));
        let late = refresh_task(manager.refresh_after_rejection(&token, NOW));
        let next = jwt("A", tag, true);
        let (result, requests) =
            run_refresh(&mut manager, early, &mut disk, |_, _| granted(&next, None));
        assert_eq!(requests.len(), 1);
        assert_eq!(result.unwrap(), (next.clone(), Some("A".to_owned())));
        // The other refresh ends at the refresh gate, with the token of the session.
        let (result, requests) = run_refresh(&mut manager, late, &mut disk, never);
        assert!(requests.is_empty());
        assert_eq!(result.unwrap(), (next.clone(), Some("A".to_owned())));
        assert_ne!(next, token);
        token = next;
        // A grant of another account changes nothing.
        let task = refresh_task(manager.refresh_after_rejection(&token, NOW));
        let (result, _) = run_refresh(&mut manager, task, &mut disk, |_, _| {
            granted(&jwt("B", tag, true), None)
        });
        assert!(result.unwrap_err().contains("account changed"));
        assert_eq!(
            finished(manager.get_valid_token(NOW)).unwrap(),
            (token.clone(), Some("A".to_owned()))
        );
    }
    assert_eq!(manager.revision, 1);
}
