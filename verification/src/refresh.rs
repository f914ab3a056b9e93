//! Refreshing the tokens of a credential file, one outside step at a time.
//!
//! A refresh waits for the refresh gate that serialises refreshes, locks the file, reads
//! it, asks the provider for new tokens, reads the file again and replaces it.
//! Each of these is done outside; what it came to is handed to the value that
//! waits for it, which says what to do next.

use std::path::PathBuf;

use vstd::prelude::*;

use crate::auth_file;
use crate::auth_file::{AuthFileRead, CodexAuthFile, RefreshResponse};
use crate::credentials;
use crate::credentials::{CredentialSource, Credentials};
use crate::jwt;
use crate::manager;
use crate::manager::{CodexAuthManager, TokenResult};
use crate::text;

verus! {

/// The client that the provider knows this application by.
pub const CLIENT_ID: &'static str = "app_EMoamEEZ73f0CkXaXp7hrann";

/// How long a refresh request may take, in seconds.
pub const REFRESH_TIMEOUT_SECS: u64 = 15;

/// Whether an HTTP status code reports success.
pub open spec fn success(status: u16) -> bool {
    200 <= status < 300
}

/// Whether an HTTP status code reports success.
pub fn is_success(status: u16) -> (r: bool)
    ensures
        r == success(status),
{
    200 <= status && status < 300
}

/// A refresh that waits for the refresh gate.
pub struct RefreshTask {
    /// The revision of the session that asked for the refresh.
    pub revision: u64,
    /// The credentials of that session.
    pub initial: Credentials,
    /// The token that the server has rejected.
    pub rejected: Option<String>,
}

/// What a `RefreshTask` holds.
pub ghost struct TaskView {
    pub revision: u64,
    pub initial: credentials::CredentialsView,
    pub rejected: Option<Seq<char>>,
}

impl View for RefreshTask {
    type V = TaskView;

    open spec fn view(&self) -> TaskView {
        TaskView {
            revision: self.revision,
            initial: self.initial@,
            rejected: text::text_of(self.rejected),
        }
    }
}

/// A refresh of the file at `path`, which waits for its lock and its contents.
pub struct FileRefresh {
    pub task: RefreshTask,
    pub path: PathBuf,
}

/// What a `FileRefresh` holds.
pub ghost struct FileRefreshView {
    pub task: TaskView,
    pub path: PathBuf,
}

impl View for FileRefresh {
    type V = FileRefreshView;

    open spec fn view(&self) -> FileRefreshView {
        FileRefreshView { task: self.task@, path: self.path }
    }
}

/// A request for new tokens: a JSON object of these members, posted to `url`.
pub struct RefreshRequest {
    pub url: String,
    pub grant_type: String,
    pub refresh_token: String,
    pub client_id: String,
}

/// What a `RefreshRequest` holds.
pub ghost struct RequestView {
    pub url: Seq<char>,
    pub grant_type: Seq<char>,
    pub refresh_token: Seq<char>,
    pub client_id: Seq<char>,
}

impl View for RefreshRequest {
    type V = RequestView;

    open spec fn view(&self) -> RequestView {
        RequestView {
            url: self.url@,
            grant_type: self.grant_type@,
            refresh_token: self.refresh_token@,
            client_id: self.client_id@,
        }
    }
}

/// What came of a refresh request.
pub enum RefreshReply {
    /// It got no answer, for this reason.
    Unanswered(String),
    /// It got an answer.
    Answered {
        /// The status code, and the text that shows it.
        status: u16,
        status_text: String,
        /// The body, or why it is none. It is only looked at on success.
        body: Result<RefreshResponse, String>,
    },
}

/// What a `RefreshReply` holds.
pub ghost enum ReplyView {
    Unanswered(Seq<char>),
    Answered {
        status: u16,
        status_text: Seq<char>,
        body: Result<auth_file::ResponseView, Seq<char>>,
    },
}

/// What the body of a reply holds.
pub open spec fn body_of(body: Result<RefreshResponse, String>) -> Result<
    auth_file::ResponseView,
    Seq<char>,
> {
    match body {
        Ok(response) => Ok(response@),
        Err(e) => Err(e@),
    }
}

impl View for RefreshReply {
    type V = ReplyView;

    open spec fn view(&self) -> ReplyView {
        match self {
            RefreshReply::Unanswered(e) => ReplyView::Unanswered(e@),
            RefreshReply::Answered { status, status_text, body } => ReplyView::Answered {
                status: *status,
                status_text: status_text@,
                body: body_of(*body),
            },
        }
    }
}

/// A refresh that waits for the provider's reply.
pub struct PendingReply {
    pub refresh: FileRefresh,
    /// The contents of the file, and the file that they hold.
    pub contents: String,
    pub file: CodexAuthFile,
}

/// What a `PendingReply` holds.
pub ghost struct PendingReplyView {
    pub refresh: FileRefreshView,
    pub contents: Seq<char>,
    pub file: auth_file::AuthFileView,
}

impl View for PendingReply {
    type V = PendingReplyView;

    open spec fn view(&self) -> PendingReplyView {
        PendingReplyView {
            refresh: self.refresh@,
            contents: self.contents@,
            file: self.file@,
        }
    }
}

/// A refresh that has new tokens, and waits for a second look at the file.
pub struct PendingReread {
    pub refresh: FileRefresh,
    /// The contents of the file before the request.
    pub contents: String,
    /// The file with the new tokens, and the credentials that it holds.
    pub file: CodexAuthFile,
    pub credentials: Credentials,
}

/// What a `PendingReread` holds.
pub ghost struct PendingRereadView {
    pub refresh: FileRefreshView,
    pub contents: Seq<char>,
    pub file: auth_file::AuthFileView,
    pub credentials: credentials::CredentialsView,
}

impl View for PendingReread {
    type V = PendingRereadView;

    open spec fn view(&self) -> PendingRereadView {
        PendingRereadView {
            refresh: self.refresh@,
            contents: self.contents@,
            file: self.file@,
            credentials: self.credentials@,
        }
    }
}

/// A refresh that waits for the file to be replaced.
pub struct PendingWrite {
    pub revision: u64,
    pub credentials: Credentials,
}

/// What a `PendingWrite` holds.
pub ghost struct PendingWriteView {
    pub revision: u64,
    pub credentials: credentials::CredentialsView,
}

impl View for PendingWrite {
    type V = PendingWriteView;

    open spec fn view(&self) -> PendingWriteView {
        PendingWriteView { revision: self.revision, credentials: self.credentials@ }
    }
}

/// What follows the refresh gate.
pub enum GateStep {
    Finished(TokenResult),
    /// Lock the file at the path of the refresh.
    LockFile(FileRefresh),
}

/// What follows the attempt to lock the file.
pub enum LockedStep {
    Finished(TokenResult),
    /// Read the file at the path of the refresh.
    ReadFile(FileRefresh),
}

/// What follows the first look at the file.
pub enum ReadStep {
    Finished(TokenResult),
    /// Send the request.
    Request(RefreshRequest, PendingReply),
}

/// What follows the reply.
pub enum ReplyStep {
    Finished(TokenResult),
    /// Read the file at the path of the refresh once more.
    Reread(PendingReread),
}

/// What follows the second look at the file.
pub enum RereadStep {
    Finished(TokenResult),
    /// Leave the file as another program has written it, and tell the user this.
    Declined(String),
    /// Replace the file at the path.
    Write(PathBuf, CodexAuthFile, PendingWrite),
}

/// What a `GateStep` holds.
pub ghost enum GateStepView {
    Finished(manager::TokenResultView),
    LockFile(FileRefreshView),
}

/// What a `LockedStep` holds.
pub ghost enum LockedStepView {
    Finished(manager::TokenResultView),
    ReadFile(FileRefreshView),
}

/// What a `ReadStep` holds.
pub ghost enum ReadStepView {
    Finished(manager::TokenResultView),
    Request(RequestView, PendingReplyView),
}

/// What a `ReplyStep` holds.
pub ghost enum ReplyStepView {
    Finished(manager::TokenResultView),
    Reread(PendingRereadView),
}

/// What a `RereadStep` holds.
pub ghost enum RereadStepView {
    Finished(manager::TokenResultView),
    Declined(Seq<char>),
    Write(PathBuf, auth_file::AuthFileView, PendingWriteView),
}

impl View for GateStep {
    type V = GateStepView;

    open spec fn view(&self) -> GateStepView {
        match self {
            GateStep::Finished(r) => GateStepView::Finished(manager::token_result_of(*r)),
            GateStep::LockFile(refresh) => GateStepView::LockFile(refresh@),
        }
    }
}

impl View for LockedStep {
    type V = LockedStepView;

    open spec fn view(&self) -> LockedStepView {
        match self {
            LockedStep::Finished(r) => LockedStepView::Finished(manager::token_result_of(*r)),
            LockedStep::ReadFile(refresh) => LockedStepView::ReadFile(refresh@),
        }
    }
}

impl View for ReadStep {
    type V = ReadStepView;

    open spec fn view(&self) -> ReadStepView {
        match self {
            ReadStep::Finished(r) => ReadStepView::Finished(manager::token_result_of(*r)),
            ReadStep::Request(request, pending) => ReadStepView::Request(request@, pending@),
        }
    }
}

impl View for ReplyStep {
    type V = ReplyStepView;

    open spec fn view(&self) -> ReplyStepView {
        match self {
            ReplyStep::Finished(r) => ReplyStepView::Finished(manager::token_result_of(*r)),
            ReplyStep::Reread(pending) => ReplyStepView::Reread(pending@),
        }
    }
}

impl View for RereadStep {
    type V = RereadStepView;

    open spec fn view(&self) -> RereadStepView {
        match self {
            RereadStep::Finished(r) => RereadStepView::Finished(manager::token_result_of(*r)),
            RereadStep::Declined(e) => RereadStepView::Declined(e@),
            RereadStep::Write(path, file, pending) => RereadStepView::Write(
                *path,
                file@,
                pending@,
            ),
        }
    }
}

impl TaskView {
    /// What follows the refresh gate, where `usable` says whether the session's token can be
    /// used. Another refresh may have done the work meanwhile; a session that changed
    /// meanwhile is left alone.
    pub open spec fn gate_decision(
        self,
        session: manager::ManagerView,
        usable: bool,
    ) -> GateStepView {
        if session.revision != self.revision {
            GateStepView::Finished(Err("Codex login changed during refresh; try again"@))
        } else if session.credentials is Some && usable {
            GateStepView::Finished(Ok(session.credentials->0.grant()))
        } else {
            match self.initial.source {
                CredentialSource::Manual => GateStepView::Finished(
                    Err("Manual tokens cannot be refreshed from a file"@),
                ),
                CredentialSource::CodexFile(path) => GateStepView::LockFile(
                    FileRefreshView { task: self, path },
                ),
            }
        }
    }

    /// What follows the refresh gate at the second `now`.
    pub open spec fn after_gate(self, session: manager::ManagerView, now: u64) -> GateStepView {
        self.gate_decision(session, session.has_usable_token(self.rejected, now))
    }
}

impl FileRefreshView {
    /// What follows the attempt to lock the file.
    pub open spec fn after_lock(self, lock: Result<(), Seq<char>>) -> LockedStepView {
        match lock {
            Ok(()) => LockedStepView::ReadFile(self),
            Err(e) => LockedStepView::Finished(Err(e)),
        }
    }

    /// The session and what follows after the first look at the file. It holds the
    /// credentials `current`; `same` is what comparing their account came to, and
    /// `usable` says whether their token can be used. A file of another account is
    /// refused; a token that another program has refreshed already is taken; else the
    /// refresh token of the file is used.
    pub open spec fn read_decision(
        self,
        session: manager::ManagerView,
        contents: Seq<char>,
        file: auth_file::AuthFileView,
        current: credentials::CredentialsView,
        same: Result<(), Seq<char>>,
        usable: bool,
    ) -> (manager::ManagerView, ReadStepView) {
        match same {
            Err(e) => (session, ReadStepView::Finished(Err(e))),
            Ok(()) => if usable {
                let (after, result) = session.installed(self.task.revision, current);
                (after, ReadStepView::Finished(result))
            } else if file.tokens.refresh_token matches Some(t) && t.len() > 0 {
                (
                    session,
                    ReadStepView::Request(
                        RequestView {
                            url: session.refresh_url,
                            grant_type: "refresh_token"@,
                            refresh_token: file.tokens.refresh_token->0,
                            client_id: CLIENT_ID@,
                        },
                        PendingReplyView { refresh: self, contents, file },
                    ),
                )
            } else {
                (
                    session,
                    ReadStepView::Finished(
                        Err("No refresh token in Codex credentials; sign in again"@),
                    ),
                )
            },
        }
    }

    /// The session and what follows after the first look at the file.
    pub open spec fn after_read(
        self,
        session: manager::ManagerView,
        read: auth_file::ReadView,
        now: u64,
    ) -> (manager::ManagerView, ReadStepView) {
        match auth_file::accepted(read) {
            Err(e) => (session, ReadStepView::Finished(Err(e))),
            Ok((contents, file)) => {
                let current = auth_file::credentials_in(file, self.path);
                self.read_decision(
                    session,
                    contents,
                    file,
                    current,
                    credentials::account_check(self.task.initial, current),
                    current.usable(self.task.rejected, now),
                )
            },
        }
    }
}

/// The tokens in a reply, or what to tell the user. The body of a refusal may echo
/// secrets, and is not shown.
pub open spec fn returned(reply: ReplyView) -> Result<auth_file::ResponseView, Seq<char>> {
    match reply {
        ReplyView::Unanswered(e) => Err("Token refresh request failed: "@ + e),
        ReplyView::Answered { status, status_text, body } => if !success(status) {
            Err("Token refresh failed: HTTP "@ + status_text + ". Sign in to Codex again."@)
        } else {
            match body {
                Err(e) => Err("Invalid token refresh response: "@ + e),
                Ok(response) => Ok(response),
            }
        },
    }
}

/// The tokens of a response whose access token claims an expiry, or what to tell the
/// user: an expired token is none.
pub open spec fn unexpired(
    response: auth_file::ResponseView,
    expiry: Option<u64>,
    now: u64,
) -> Result<auth_file::ResponseView, Seq<char>> {
    if jwt::expired_by(expiry, now) {
        Err("Token refresh returned an empty, invalid or expired token"@)
    } else {
        Ok(response)
    }
}

/// The tokens that a reply grants at the second `now`, or what to tell the user.
pub open spec fn granted(reply: ReplyView, now: u64) -> Result<
    auth_file::ResponseView,
    Seq<char>,
> {
    match returned(reply) {
        Err(e) => Err(e),
        Ok(response) => unexpired(response, jwt::claims(response.access_token).expiry, now),
    }
}

impl FileRefreshView {
    /// What follows tokens that were granted, where the file had these contents before.
    /// `file` is the file with the new tokens, `c` the credentials that it holds, and
    /// `same` what comparing their account came to. New tokens of another account are
    /// refused.
    pub open spec fn grant_decision(
        self,
        contents: Seq<char>,
        file: auth_file::AuthFileView,
        c: credentials::CredentialsView,
        same: Result<(), Seq<char>>,
    ) -> ReplyStepView {
        match same {
            Err(e) => ReplyStepView::Finished(Err(e)),
            Ok(()) => ReplyStepView::Reread(
                PendingRereadView { refresh: self, contents, file, credentials: c },
            ),
        }
    }
}

impl PendingReplyView {
    /// What follows the reply.
    pub open spec fn after_reply(self, reply: ReplyView, now: u64) -> ReplyStepView {
        match granted(reply, now) {
            Err(e) => ReplyStepView::Finished(Err(e)),
            Ok(response) => {
                let file = auth_file::rotated(self.file, response);
                let c = auth_file::credentials_in(file, self.refresh.path);
                self.refresh.grant_decision(
                    self.contents,
                    file,
                    c,
                    credentials::account_check(self.refresh.task.initial, c),
                )
            },
        }
    }
}

impl PendingRereadView {
    /// The session and what follows after the second look at the file. It has these
    /// contents and holds the credentials `latest`; `same` is what comparing their
    /// account came to, and `usable` says whether their token can be used. A file that
    /// another program has written meanwhile is never overwritten: what it holds now is
    /// taken, or nothing is.
    pub open spec fn reread_decision(
        self,
        session: manager::ManagerView,
        contents: Seq<char>,
        latest: credentials::CredentialsView,
        same: Result<(), Seq<char>>,
        usable: bool,
    ) -> (manager::ManagerView, RereadStepView) {
        if contents == self.contents {
            (
                session,
                RereadStepView::Write(
                    self.refresh.path,
                    self.file,
                    PendingWriteView {
                        revision: self.refresh.task.revision,
                        credentials: self.credentials,
                    },
                ),
            )
        } else {
            match same {
                Err(e) => (session, RereadStepView::Finished(Err(e))),
                Ok(()) => if usable {
                    let (after, result) = session.installed(self.refresh.task.revision, latest);
                    (after, RereadStepView::Finished(result))
                } else {
                    (
                        session,
                        RereadStepView::Declined(
                            "Codex credentials changed during refresh. Import credentials again."@,
                        ),
                    )
                },
            }
        }
    }

    /// The session and what follows after the second look at the file.
    pub open spec fn after_reread(
        self,
        session: manager::ManagerView,
        read: auth_file::ReadView,
        now: u64,
    ) -> (manager::ManagerView, RereadStepView) {
        match auth_file::accepted(read) {
            Err(e) => (session, RereadStepView::Finished(Err(e))),
            Ok((contents, file)) => {
                let latest = auth_file::credentials_in(file, self.refresh.path);
                self.reread_decision(
                    session,
                    contents,
                    latest,
                    credentials::account_check(self.refresh.task.initial, latest),
                    latest.usable(self.refresh.task.rejected, now),
                )
            },
        }
    }
}

impl PendingWriteView {
    /// The session and the answer after the file was replaced, or was not.
    pub open spec fn after_write(
        self,
        session: manager::ManagerView,
        outcome: Result<(), Seq<char>>,
    ) -> (manager::ManagerView, manager::TokenResultView) {
        match outcome {
            Err(e) => (session, Err(e)),
            Ok(()) => session.installed(self.revision, self.credentials),
        }
    }
}

impl RefreshTask {
    /// Goes on once the refresh gate is held.
    pub fn gate_entered(self, session: &CodexAuthManager, now: u64) -> (r: GateStep)
        ensures
            r@ == self@.after_gate(session@, now),
    {
        let usable = session.is_token_usable(&self.rejected, now);
        self.decide_at_gate(session, usable)
    }

    /// Decides what follows the refresh gate, where `usable` says whether the session's token
    /// can be used.
    pub fn decide_at_gate(self, session: &CodexAuthManager, usable: bool) -> (r: GateStep)
        ensures
            r@ == self@.gate_decision(session@, usable),
    {
        if session.revision != self.revision {
            return GateStep::Finished(
                Err("Codex login changed during refresh; try again".to_owned()),
            );
        }
        if let Some(c) = &session.credentials {
            if usable {
                return GateStep::Finished(Ok(c.to_grant()));
            }
        }
        let path = match &self.initial.source {
            CredentialSource::Manual => {
                return GateStep::Finished(
                    Err("Manual tokens cannot be refreshed from a file".to_owned()),
                );
            },
            CredentialSource::CodexFile(path) => path.clone(),
        };
        GateStep::LockFile(FileRefresh { task: self, path })
    }
}

impl FileRefresh {
    /// Goes on once the file is locked, or could not be.
    pub fn lock_tried(self, lock: Result<(), String>) -> (r: LockedStep)
        ensures
            r@ == self@.after_lock(credentials::outcome_of(lock)),
    {
        match lock {
            Ok(()) => LockedStep::ReadFile(self),
            Err(e) => LockedStep::Finished(Err(e)),
        }
    }

    /// Goes on with what was read from the file.
    pub fn file_read(
        self,
        session: &mut CodexAuthManager,
        read: AuthFileRead,
        now: u64,
    ) -> (r: ReadStep)
        ensures
            (final(session)@, r@) == self@.after_read(old(session)@, read@, now),
    {
        let (contents, file) = match auth_file::read_auth_file(read) {
            Ok(accepted) => accepted,
            Err(e) => {
                return ReadStep::Finished(Err(e));
            },
        };
        let current = auth_file::file_credentials(&file, &self.path);
        let same = credentials::require_same_account(&self.task.initial, &current);
        let usable = current.is_usable(&self.task.rejected, now);
        self.decide_on_file(session, contents, file, current, same, usable)
    }

    /// Decides what follows the first look at the file. It holds the credentials
    /// `current`; `same` is what comparing their account came to, and `usable` says
    /// whether their token can be used.
    pub fn decide_on_file(
        self,
        session: &mut CodexAuthManager,
        contents: String,
        file: CodexAuthFile,
        current: Credentials,
        same: Result<(), String>,
        usable: bool,
    ) -> (r: ReadStep)
        ensures
            (final(session)@, r@) == self@.read_decision(
                old(session)@,
                contents@,
                file@,
                current@,
                credentials::outcome_of(same),
                usable,
            ),
    {
        if let Err(e) = same {
            return ReadStep::Finished(Err(e));
        }
        if usable {
            return ReadStep::Finished(session.install_refreshed(self.task.revision, current));
        }
        let refresh_token = match &file.tokens.refresh_token {
            Some(token) => token.clone(),
            None => String::new(),
        };
        if refresh_token.as_str().is_empty() {
            return ReadStep::Finished(
                Err("No refresh token in Codex credentials; sign in again".to_owned()),
            );
        }
        ReadStep::Request(
            RefreshRequest {
                url: session.refresh_url.clone(),
                grant_type: "refresh_token".to_owned(),
                refresh_token,
                client_id: CLIENT_ID.to_owned(),
            },
            PendingReply { refresh: self, contents, file },
        )
    }
}

/// The tokens in a reply.
pub fn reply_body(reply: RefreshReply) -> (r: Result<RefreshResponse, String>)
    ensures
        body_of(r) == returned(reply@),
{
    match reply {
        RefreshReply::Unanswered(e) => Err(
            text::join("Token refresh request failed: ", e.as_str()),
        ),
        RefreshReply::Answered { status, status_text, body } => {
            if !is_success(status) {
                let shown = text::join("Token refresh failed: HTTP ", status_text.as_str());
                return Err(text::join(shown.as_str(), ". Sign in to Codex again."));
            }
            match body {
                Err(e) => Err(text::join("Invalid token refresh response: ", e.as_str())),
                Ok(response) => Ok(response),
            }
        },
    }
}

/// The tokens of a response whose access token claims an expiry.
pub fn accept_response(response: RefreshResponse, expiry: Option<u64>, now: u64) -> (r: Result<
    RefreshResponse,
    String,
>)
    ensures
        body_of(r) == unexpired(response@, expiry, now),
{
    if jwt::is_expiry_passed(expiry, now) {
        Err("Token refresh returned an empty, invalid or expired token".to_owned())
    } else {
        Ok(response)
    }
}

/// The tokens that a reply grants at the second `now`.
pub fn check_reply(reply: RefreshReply, now: u64) -> (r: Result<RefreshResponse, String>)
    ensures
        body_of(r) == granted(reply@, now),
{
    match reply_body(reply) {
        Err(e) => Err(e),
        Ok(response) => {
            let expiry = jwt::token_claims(response.access_token.as_str()).expiry;
            accept_response(response, expiry, now)
        },
    }
}

impl FileRefresh {
    /// Decides what follows tokens that were granted, where the file had these contents
    /// before. `file` is the file with the new tokens, `c` the credentials that it
    /// holds, and `same` what comparing their account came to.
    pub fn decide_on_grant(
        self,
        contents: String,
        file: CodexAuthFile,
        c: Credentials,
        same: Result<(), String>,
    ) -> (r: ReplyStep)
        ensures
            r@ == self@.grant_decision(contents@, file@, c@, credentials::outcome_of(same)),
    {
        match same {
            Err(e) => ReplyStep::Finished(Err(e)),
            Ok(()) => ReplyStep::Reread(
                PendingReread { refresh: self, contents, file, credentials: c },
            ),
        }
    }
}

impl PendingReply {
    /// Goes on with the provider's reply.
    pub fn reply_received(self, reply: RefreshReply, now: u64) -> (r: ReplyStep)
        ensures
            r@ == self@.after_reply(reply@, now),
    {
        let response = match check_reply(reply, now) {
            Ok(response) => response,
            Err(e) => {
                return ReplyStep::Finished(Err(e));
            },
        };
        let file = auth_file::rotate(self.file, response);
        let c = auth_file::file_credentials(&file, &self.refresh.path);
        let same = credentials::require_same_account(&self.refresh.task.initial, &c);
        self.refresh.decide_on_grant(self.contents, file, c, same)
    }
}

impl PendingReread {
    /// Goes on with what was read from the file the second time.
    pub fn file_reread(
        self,
        session: &mut CodexAuthManager,
        read: AuthFileRead,
        now: u64,
    ) -> (r: RereadStep)
        ensures
            (final(session)@, r@) == self@.after_reread(old(session)@, read@, now),
    {
        let (contents, latest_file) = match auth_file::read_auth_file(read) {
            Ok(accepted) => accepted,
            Err(e) => {
                return RereadStep::Finished(Err(e));
            },
        };
        let latest = auth_file::file_credentials(&latest_file, &self.refresh.path);
        let same = credentials::require_same_account(&self.refresh.task.initial, &latest);
        let usable = latest.is_usable(&self.refresh.task.rejected, now);
        self.decide_on_latest(session, contents, latest, same, usable)
    }

    /// Decides what follows the second look at the file. It has these contents and
    /// holds the credentials `latest`; `same` is what comparing their account came to,
    /// and `usable` says whether their token can be used.
    pub fn decide_on_latest(
        self,
        session: &mut CodexAuthManager,
        contents: String,
        latest: Credentials,
        same: Result<(), String>,
        usable: bool,
    ) -> (r: RereadStep)
        ensures
            (final(session)@, r@) == self@.reread_decision(
                old(session)@,
                contents@,
                latest@,
                credentials::outcome_of(same),
                usable,
            ),
    {
        if contents != self.contents {
            if let Err(e) = same {
                return RereadStep::Finished(Err(e));
            }
            if usable {
                return RereadStep::Finished(
                    session.install_refreshed(self.refresh.task.revision, latest),
                );
            }
            return RereadStep::Declined(
                "Codex credentials changed during refresh. Import credentials again.".to_owned(),
            );
        }
        RereadStep::Write(
            self.refresh.path,
            self.file,
            PendingWrite {
                revision: self.refresh.task.revision,
                credentials: self.credentials,
            },
        )
    }
}

impl PendingWrite {
    /// Ends the refresh once the file is replaced, or could not be.
    pub fn file_written(self, session: &mut CodexAuthManager, outcome: Result<(), String>) -> (r:
        TokenResult)
        ensures
            (final(session)@, manager::token_result_of(r)) == self@.after_write(
                old(session)@,
                credentials::outcome_of(outcome),
            ),
    {
        match outcome {
            Ok(()) => session.install_refreshed(self.revision, self.credentials),
            Err(e) => Err(e),
        }
    }
}

} // verus!
