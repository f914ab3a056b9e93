//! The credential file: where it is, how it is read, rotated, locked and replaced.

use std::path::PathBuf;

use vstd::prelude::*;

use crate::credentials::{CredentialSource, Credentials};
use crate::json;
use crate::jwt;
use crate::text;

verus! {

/// The tokens of a credential file.
pub struct CodexTokens {
    pub access_token: String,
    pub refresh_token: Option<String>,
    pub id_token: Option<String>,
    /// Every other member of the object.
    pub extra: serde_json::Map<String, serde_json::Value>,
}

/// A credential file.
pub struct CodexAuthFile {
    pub tokens: CodexTokens,
    /// Every other member of the document.
    pub extra: serde_json::Map<String, serde_json::Value>,
}

/// What a token refresh returned.
pub struct RefreshResponse {
    pub access_token: String,
    pub id_token: Option<String>,
    pub refresh_token: Option<String>,
}

/// What came of reading the credential file.
pub enum AuthFileRead {
    /// The file could not be read, for this reason.
    Unreadable(String),
    /// The contents are no credential file, for this reason.
    Unparsable(String),
    /// The contents, and the file that they hold.
    Parsed(String, CodexAuthFile),
}

/// What `CodexTokens` hold.
pub ghost struct TokensView {
    pub access_token: Seq<char>,
    pub refresh_token: Option<Seq<char>>,
    pub id_token: Option<Seq<char>>,
    pub extra: serde_json::Map<String, serde_json::Value>,
}

/// What a `CodexAuthFile` holds.
pub ghost struct AuthFileView {
    pub tokens: TokensView,
    pub extra: serde_json::Map<String, serde_json::Value>,
}

/// What a `RefreshResponse` holds.
pub ghost struct ResponseView {
    pub access_token: Seq<char>,
    pub id_token: Option<Seq<char>>,
    pub refresh_token: Option<Seq<char>>,
}

/// What an `AuthFileRead` holds.
pub ghost enum ReadView {
    Unreadable(Seq<char>),
    Unparsable(Seq<char>),
    Parsed(Seq<char>, AuthFileView),
}

impl View for CodexAuthFile {
    type V = AuthFileView;

    open spec fn view(&self) -> AuthFileView {
        AuthFileView {
            tokens: TokensView {
                access_token: self.tokens.access_token@,
                refresh_token: text::text_of(self.tokens.refresh_token),
                id_token: text::text_of(self.tokens.id_token),
                extra: self.tokens.extra,
            },
            extra: self.extra,
        }
    }
}

impl View for RefreshResponse {
    type V = ResponseView;

    open spec fn view(&self) -> ResponseView {
        ResponseView {
            access_token: self.access_token@,
            id_token: text::text_of(self.id_token),
            refresh_token: text::text_of(self.refresh_token),
        }
    }
}

impl View for AuthFileRead {
    type V = ReadView;

    open spec fn view(&self) -> ReadView {
        match self {
            AuthFileRead::Unreadable(e) => ReadView::Unreadable(e@),
            AuthFileRead::Unparsable(e) => ReadView::Unparsable(e@),
            AuthFileRead::Parsed(contents, file) => ReadView::Parsed(contents@, file@),
        }
    }
}

/// What an optional read holds.
pub open spec fn read_of(read: Option<AuthFileRead>) -> Option<ReadView> {
    match read {
        Some(r) => Some(r@),
        None => None,
    }
}

/// The contents and the file that a read gives, or what to tell the user. A file
/// whose access token is blank is not accepted.
pub open spec fn accepted(read: ReadView) -> Result<(Seq<char>, AuthFileView), Seq<char>> {
    match read {
        ReadView::Unreadable(e) => Err("Failed to read Codex credentials: "@ + e),
        ReadView::Unparsable(e) => Err("Failed to parse Codex credentials: "@ + e),
        ReadView::Parsed(contents, file) => if text::trimmed(file.tokens.access_token).len() == 0 {
            Err("Codex credentials contain an empty access token"@)
        } else {
            Ok((contents, file))
        },
    }
}

/// What an accepted read holds.
pub open spec fn read_result_of(r: Result<(String, CodexAuthFile), String>) -> Result<
    (Seq<char>, AuthFileView),
    Seq<char>,
> {
    match r {
        Ok((contents, file)) => Ok((contents@, file@)),
        Err(e) => Err(e@),
    }
}

/// Accepts or refuses what was read from the credential file.
pub fn read_auth_file(read: AuthFileRead) -> (r: Result<(String, CodexAuthFile), String>)
    ensures
        read_result_of(r) == accepted(read@),
{
    match read {
        AuthFileRead::Unreadable(e) => Err(
            text::join("Failed to read Codex credentials: ", e.as_str()),
        ),
        AuthFileRead::Unparsable(e) => Err(
            text::join("Failed to parse Codex credentials: ", e.as_str()),
        ),
        AuthFileRead::Parsed(contents, file) => if text::trim(
            file.tokens.access_token.as_str(),
        ).is_empty() {
            Err("Codex credentials contain an empty access token".to_owned())
        } else {
            Ok((contents, file))
        },
    }
}

/// The first of two optional texts that is there.
pub open spec fn first_of(a: Option<Seq<char>>, b: Option<Seq<char>>) -> Option<Seq<char>> {
    match a {
        Some(_) => a,
        None => b,
    }
}

/// The credentials that a file holds, where its access token claims the account
/// `claimed` and its `account_id` member names the account `listed`: the claim counts,
/// and the member where there is no claim.
pub open spec fn credentials_with(
    file: AuthFileView,
    path: PathBuf,
    claimed: Option<Seq<char>>,
    listed: Option<Seq<char>>,
) -> crate::credentials::CredentialsView {
    crate::credentials::CredentialsView {
        access_token: file.tokens.access_token,
        account_id: first_of(claimed, listed),
        source: CredentialSource::CodexFile(path),
    }
}

/// The credentials that a file holds.
pub open spec fn credentials_in(
    file: AuthFileView,
    path: PathBuf,
) -> crate::credentials::CredentialsView {
    credentials_with(
        file,
        path,
        jwt::claims(file.tokens.access_token).account_id,
        json::text_member(
            Some(json::JsonContent::Object(json::json_members(file.tokens.extra))),
            "account_id"@,
        ),
    )
}

/// Takes the credentials from a file, where its access token claims the account
/// `claimed` and its `account_id` member names the account `listed`.
pub fn file_credentials_with(
    file: &CodexAuthFile,
    path: &PathBuf,
    claimed: Option<String>,
    listed: Option<String>,
) -> (r: Credentials)
    ensures
        r@ == credentials_with(file@, *path, text::text_of(claimed), text::text_of(listed)),
{
    let account_id = match claimed {
        Some(account) => Some(account),
        None => listed,
    };
    Credentials {
        access_token: file.tokens.access_token.clone(),
        account_id,
        source: CredentialSource::CodexFile(path.clone()),
    }
}

/// Takes the credentials from a file.
pub fn file_credentials(file: &CodexAuthFile, path: &PathBuf) -> (r: Credentials)
    ensures
        r@ == credentials_in(file@, *path),
{
    let claimed = jwt::extract_chatgpt_account_id(file.tokens.access_token.as_str());
    let listed = json::map_text(&file.tokens.extra, "account_id");
    file_credentials_with(file, path, claimed, listed)
}

/// A file after a refresh: the new access token, the new id and refresh tokens
/// where the refresh returned any, and everything else as it was.
pub open spec fn rotated(file: AuthFileView, response: ResponseView) -> AuthFileView {
    AuthFileView {
        tokens: TokensView {
            access_token: response.access_token,
            refresh_token: first_of(response.refresh_token, file.tokens.refresh_token),
            id_token: first_of(response.id_token, file.tokens.id_token),
            extra: file.tokens.extra,
        },
        extra: file.extra,
    }
}

/// Puts refreshed tokens into a file.
pub fn rotate(file: CodexAuthFile, response: RefreshResponse) -> (r: CodexAuthFile)
    ensures
        r@ == rotated(file@, response@),
{
    let mut file = file;
    file.tokens.access_token = response.access_token;
    if let Some(token) = response.id_token {
        file.tokens.id_token = Some(token);
    }
    if let Some(token) = response.refresh_token {
        file.tokens.refresh_token = Some(token);
    }
    file
}

/// The name of the lock file beside the credential file. It survives replacement of
/// the credential file, and is not deleted on unlock.
pub const LOCK_FILE_NAME: &'static str = "auth.json.handy.lock";

/// How long the lock is waited for, in seconds.
pub const LOCK_TIMEOUT_SECS: u64 = 10;

/// How long to wait between two attempts to lock, in milliseconds.
pub const LOCK_POLL_MILLIS: u64 = 25;

/// What happened on the way to the lock.
pub enum LockEvent {
    /// The lock file could not be opened, for this reason.
    OpenFailed(String),
    /// The lock is held.
    Acquired,
    /// Another process holds the lock.
    WouldBlock,
    /// The attempt failed, for this reason.
    Failed(String),
    /// The time to wait for the lock is over.
    TimedOut,
}

/// What to do next on the way to the lock.
pub enum LockStep {
    /// Go on; the lock is held.
    Held,
    /// Try again after this many milliseconds.
    RetryAfter(u64),
    /// Give up, and tell the user this.
    GiveUp(String),
}

/// What a `LockStep` says.
pub ghost enum LockStepView {
    Held,
    RetryAfter(u64),
    GiveUp(Seq<char>),
}

impl View for LockStep {
    type V = LockStepView;

    open spec fn view(&self) -> LockStepView {
        match self {
            LockStep::Held => LockStepView::Held,
            LockStep::RetryAfter(millis) => LockStepView::RetryAfter(*millis),
            LockStep::GiveUp(e) => LockStepView::GiveUp(e@),
        }
    }
}

/// How the wait for the lock goes on: it is over once the lock is held, goes on while
/// another process holds it, and is given up with the reason otherwise.
pub open spec fn lock_decision(event: LockEvent) -> LockStepView {
    match event {
        LockEvent::OpenFailed(e) => LockStepView::GiveUp("Failed to open credential lock: "@ + e@),
        LockEvent::Acquired => LockStepView::Held,
        LockEvent::WouldBlock => LockStepView::RetryAfter(LOCK_POLL_MILLIS),
        LockEvent::Failed(e) => LockStepView::GiveUp("Failed to lock credentials: "@ + e@),
        LockEvent::TimedOut => LockStepView::GiveUp(
            "Timed out waiting for Codex credential refresh"@,
        ),
    }
}

/// Decides how the wait for the lock goes on.
pub fn lock_auth_file(event: LockEvent) -> (r: LockStep)
    ensures
        r@ == lock_decision(event),
        r@ == (match event {
            LockEvent::OpenFailed(e) => LockStepView::GiveUp(
                "Failed to open credential lock: "@ + e@,
            ),
            LockEvent::Acquired => LockStepView::Held,
            LockEvent::WouldBlock => LockStepView::RetryAfter(LOCK_POLL_MILLIS),
            LockEvent::Failed(e) => LockStepView::GiveUp("Failed to lock credentials: "@ + e@),
            LockEvent::TimedOut => LockStepView::GiveUp(
                "Timed out waiting for Codex credential refresh"@,
            ),
        }),
{
    match event {
        LockEvent::OpenFailed(e) => LockStep::GiveUp(
            text::join("Failed to open credential lock: ", e.as_str()),
        ),
        LockEvent::Acquired => LockStep::Held,
        LockEvent::WouldBlock => LockStep::RetryAfter(LOCK_POLL_MILLIS),
        LockEvent::Failed(e) => LockStep::GiveUp(
            text::join("Failed to lock credentials: ", e.as_str()),
        ),
        LockEvent::TimedOut => LockStep::GiveUp(
            "Timed out waiting for Codex credential refresh".to_owned(),
        ),
    }
}

/// The steps by which the credential file is replaced as a whole.
#[derive(Clone, Copy, PartialEq, Eq, Structural)]
pub enum WriteStage {
    /// Find the directory of the file.
    FindDirectory,
    /// Create a temporary file there, readable by the owner only.
    CreateTemporary,
    /// Write the credentials into it as JSON.
    Serialize,
    /// End it with a newline and force it to disk.
    Flush,
    /// Let it take the place of the credential file.
    Replace,
    /// Force the directory to disk.
    SyncDirectory,
}

/// What to do after a step.
pub enum WriteStep {
    /// Take the next step.
    Continue(WriteStage),
    /// The file is replaced.
    Done,
    /// Give up, and tell the user this.
    GiveUp(String),
}

/// What a `WriteStep` says.
pub ghost enum WriteStepView {
    Continue(WriteStage),
    Done,
    GiveUp(Seq<char>),
}

impl View for WriteStep {
    type V = WriteStepView;

    open spec fn view(&self) -> WriteStepView {
        match self {
            WriteStep::Continue(stage) => WriteStepView::Continue(*stage),
            WriteStep::Done => WriteStepView::Done,
            WriteStep::GiveUp(e) => WriteStepView::GiveUp(e@),
        }
    }
}

/// What to tell the user when a step fails for the reason `e`.
pub open spec fn write_failure(stage: WriteStage, e: Seq<char>) -> Seq<char> {
    match stage {
        WriteStage::FindDirectory => "Codex credential directory is missing"@,
        WriteStage::CreateTemporary => "Failed to create credential update: "@ + e,
        WriteStage::Serialize => "Failed to serialize credentials: "@ + e,
        WriteStage::Flush => "Failed to flush credentials: "@ + e,
        WriteStage::Replace => "Failed to replace credentials: "@ + e,
        WriteStage::SyncDirectory => "Failed to sync credential directory: "@ + e,
    }
}

/// The step after `stage`, if there is one.
pub open spec fn stage_after(stage: WriteStage) -> Option<WriteStage> {
    match stage {
        WriteStage::FindDirectory => Some(WriteStage::CreateTemporary),
        WriteStage::CreateTemporary => Some(WriteStage::Serialize),
        WriteStage::Serialize => Some(WriteStage::Flush),
        WriteStage::Flush => Some(WriteStage::Replace),
        WriteStage::Replace => Some(WriteStage::SyncDirectory),
        WriteStage::SyncDirectory => None,
    }
}

/// What to do after a step came to `outcome`.
pub open spec fn after_stage(stage: WriteStage, outcome: Result<(), Seq<char>>) -> WriteStepView {
    match outcome {
        Err(e) => WriteStepView::GiveUp(write_failure(stage, e)),
        Ok(()) => match stage_after(stage) {
            Some(next) => WriteStepView::Continue(next),
            None => WriteStepView::Done,
        },
    }
}

/// Decides how the replacement of the credential file goes on after a step.
pub fn write_auth_file_atomically(stage: WriteStage, outcome: Result<(), String>) -> (r: WriteStep)
    ensures
        r@ == after_stage(stage, crate::credentials::outcome_of(outcome)),
{
    match outcome {
        Ok(()) => match stage {
            WriteStage::FindDirectory => WriteStep::Continue(WriteStage::CreateTemporary),
            WriteStage::CreateTemporary => WriteStep::Continue(WriteStage::Serialize),
            WriteStage::Serialize => WriteStep::Continue(WriteStage::Flush),
            WriteStage::Flush => WriteStep::Continue(WriteStage::Replace),
            WriteStage::Replace => WriteStep::Continue(WriteStage::SyncDirectory),
            WriteStage::SyncDirectory => WriteStep::Done,
        },
        Err(e) => WriteStep::GiveUp(
            match stage {
                WriteStage::FindDirectory => "Codex credential directory is missing".to_owned(),
                WriteStage::CreateTemporary => text::join(
                    "Failed to create credential update: ",
                    e.as_str(),
                ),
                WriteStage::Serialize => text::join(
                    "Failed to serialize credentials: ",
                    e.as_str(),
                ),
                WriteStage::Flush => text::join("Failed to flush credentials: ", e.as_str()),
                WriteStage::Replace => text::join("Failed to replace credentials: ", e.as_str()),
                WriteStage::SyncDirectory => text::join(
                    "Failed to sync credential directory: ",
                    e.as_str(),
                ),
            },
        ),
    }
}

/// The stages that a replacement takes from `stage` on, where the outcomes of the
/// stages are those of `outcome`.
pub open spec fn stages_from(
    stage: WriteStage,
    outcome: spec_fn(WriteStage) -> Result<(), Seq<char>>,
) -> Seq<WriteStage>
    decreases stages_left(stage),
{
    match after_stage(stage, outcome(stage)) {
        WriteStepView::Continue(next) => seq![stage] + stages_from(next, outcome),
        _ => seq![stage],
    }
}

/// How many stages there are from `stage` on.
pub open spec fn stages_left(stage: WriteStage) -> nat {
    match stage {
        WriteStage::FindDirectory => 6,
        WriteStage::CreateTemporary => 5,
        WriteStage::Serialize => 4,
        WriteStage::Flush => 3,
        WriteStage::Replace => 2,
        WriteStage::SyncDirectory => 1,
    }
}

/// The credential file is replaced at most as a whole: the replacement is only
/// attempted once the new contents were written and forced to disk.
pub proof fn replacement_follows_the_flush(outcome: spec_fn(WriteStage) -> Result<(), Seq<char>>)
    ensures
        stages_from(WriteStage::FindDirectory, outcome).contains(WriteStage::Replace) <==> {
            &&& outcome(WriteStage::FindDirectory) is Ok
            &&& outcome(WriteStage::CreateTemporary) is Ok
            &&& outcome(WriteStage::Serialize) is Ok
            &&& outcome(WriteStage::Flush) is Ok
        },
{
    reveal_with_fuel(stages_from, 7);
    let all = stages_from(WriteStage::FindDirectory, outcome);
    if outcome(WriteStage::FindDirectory) is Ok && outcome(WriteStage::CreateTemporary) is Ok
        && outcome(WriteStage::Serialize) is Ok && outcome(WriteStage::Flush) is Ok {
        assert(all[4] == WriteStage::Replace);
    }
}

/// Where the credential file is: a directory, and the path of the file below it. The
/// directory is the value of `CODEX_HOME`, given with its length, of `HOME` or of
/// `USERPROFILE`, whichever is set first; an empty `CODEX_HOME` counts as unset.
pub open spec fn file_location<P>(
    codex_home: Option<(P, usize)>,
    home: Option<P>,
    user_profile: Option<P>,
) -> Option<(P, Seq<char>)> {
    match (codex_home, home, user_profile) {
        (Some((directory, len)), _, _) if len > 0 => Some((directory, "auth.json"@)),
        (_, Some(directory), _) => Some((directory, ".codex/auth.json"@)),
        (_, None, Some(directory)) => Some((directory, ".codex/auth.json"@)),
        (_, None, None) => None,
    }
}

/// What a location says.
pub open spec fn location_of<P>(location: Option<(P, &'static str)>) -> Option<(P, Seq<char>)> {
    match location {
        Some((directory, below)) => Some((directory, below@)),
        None => None,
    }
}

/// Where the credential file is, given the values of `CODEX_HOME`, with its length, of
/// `HOME` and of `USERPROFILE`, each where it is set. The directory is handed back as
/// it came: how a path is joined depends on the platform.
pub fn auth_file_path<P>(
    codex_home: Option<(P, usize)>,
    home: Option<P>,
    user_profile: Option<P>,
) -> (r: Option<(P, &'static str)>)
    ensures
        location_of(r) == file_location(codex_home, home, user_profile),
{
    if let Some((directory, len)) = codex_home {
        if len > 0 {
            return Some((directory, "auth.json"));
        }
    }
    if let Some(directory) = home {
        return Some((directory, ".codex/auth.json"));
    }
    match user_profile {
        Some(directory) => Some((directory, ".codex/auth.json")),
        None => None,
    }
}

/// An empty `CODEX_HOME` is as good as none, and a filled one counts before everything
/// else, without a `.codex` directory below it.
pub proof fn empty_codex_home_counts_as_unset<P>(
    directory: P,
    len: usize,
    home: Option<P>,
    user_profile: Option<P>,
)
    ensures
        len == 0 ==> file_location(Some((directory, len)), home, user_profile) == file_location(
            None,
            home,
            user_profile,
        ),
        len > 0 ==> file_location(Some((directory, len)), home, user_profile) == Some(
            (directory, "auth.json"@),
        ),
{
}

} // verus!
