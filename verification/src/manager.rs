//! The session: the credentials in use, and every way in which they change.

use std::path::PathBuf;

use vstd::prelude::*;

use crate::auth_file;
use crate::auth_file::AuthFileRead;
use crate::credentials;
use crate::credentials::{CredentialSource, Credentials};
use crate::jwt;
use crate::refresh::RefreshTask;
use crate::text;

verus! {

/// The endpoint that refreshes tokens.
pub const AUTH_TOKEN_URL: &'static str = "https://auth.openai.com/oauth/token";

/// What the user interface shows of the session.
#[derive(Debug)]
pub struct CodexAuthState {
    pub is_logged_in: bool,
    pub has_auth_file: bool,
}

impl Clone for CodexAuthState {
    fn clone(&self) -> (r: Self)
        ensures
            r == *self,
    {
        CodexAuthState { is_logged_in: self.is_logged_in, has_auth_file: self.has_auth_file }
    }
}

/// The session and its configuration.
pub struct CodexAuthManager {
    /// Changes only on an explicit import, manual input or logout, not on rotation.
    pub revision: u64,
    pub credentials: Option<Credentials>,
    pub file_path: Option<PathBuf>,
    pub refresh_url: String,
}

/// What a `CodexAuthManager` holds.
pub ghost struct ManagerView {
    pub revision: u64,
    pub credentials: Option<credentials::CredentialsView>,
    pub file_path: Option<PathBuf>,
    pub refresh_url: Seq<char>,
}

impl View for CodexAuthManager {
    type V = ManagerView;

    open spec fn view(&self) -> ManagerView {
        ManagerView {
            revision: self.revision,
            credentials: credentials::credentials_of(self.credentials),
            file_path: self.file_path,
            refresh_url: self.refresh_url@,
        }
    }
}

/// A token with its account, or what to tell the user.
pub type TokenResult = Result<(String, Option<String>), String>;

/// What a `TokenResult` holds.
pub type TokenResultView = Result<(Seq<char>, Option<Seq<char>>), Seq<char>>;

/// What a `TokenResult` holds.
pub open spec fn token_result_of(r: TokenResult) -> TokenResultView {
    match r {
        Ok((token, account_id)) => Ok((token@, text::text_of(account_id))),
        Err(e) => Err(e@),
    }
}

/// What the task that ran a refresh came to: what the refresh answered, or why the task
/// failed.
pub open spec fn task_answer(joined: Result<TokenResultView, Seq<char>>) -> TokenResultView {
    match joined {
        Ok(result) => result,
        Err(e) => Err("Credential refresh task failed: "@ + e),
    }
}

/// What the end of a task holds.
pub open spec fn joined_of(joined: Result<TokenResult, String>) -> Result<
    TokenResultView,
    Seq<char>,
> {
    match joined {
        Ok(result) => Ok(token_result_of(result)),
        Err(e) => Err(e@),
    }
}

/// Answers a request for a token with what the task that ran its refresh came to.
pub fn refresh_joined(joined: Result<TokenResult, String>) -> (r: TokenResult)
    ensures
        token_result_of(r) == task_answer(joined_of(joined)),
{
    match joined {
        Ok(result) => result,
        Err(e) => Err(text::join("Credential refresh task failed: ", e.as_str())),
    }
}

/// How a request for a token goes on.
pub enum TokenStep {
    /// It is answered.
    Finished(TokenResult),
    /// The credential file has to be refreshed first.
    Refresh(RefreshTask),
}

/// What a `TokenStep` holds.
pub ghost enum TokenStepView {
    Finished(TokenResultView),
    Refresh(crate::refresh::TaskView),
}

impl View for TokenStep {
    type V = TokenStepView;

    open spec fn view(&self) -> TokenStepView {
        match self {
            TokenStep::Finished(r) => TokenStepView::Finished(token_result_of(*r)),
            TokenStep::Refresh(task) => TokenStepView::Refresh(task@),
        }
    }
}

/// The revision after `r`.
pub open spec fn next_revision(r: u64) -> u64 {
    if r == u64::MAX {
        0
    } else {
        (r + 1) as u64
    }
}

impl ManagerView {
    /// The session after an explicit change to `credentials`.
    pub open spec fn changed_to(self, credentials: Option<credentials::CredentialsView>) -> Self {
        ManagerView { revision: next_revision(self.revision), credentials, ..self }
    }

    /// Whether the session was imported from a file.
    pub open spec fn has_file_session(self) -> bool {
        self.credentials matches Some(c) && c.source is CodexFile
    }

    /// The credentials that an import gives, if it gives any.
    pub open spec fn imported(self, read: Option<auth_file::ReadView>) -> Option<
        credentials::CredentialsView,
    > {
        match (self.file_path, read) {
            (Some(path), Some(read)) => match auth_file::accepted(read) {
                Ok((_, file)) => Some(auth_file::credentials_in(file, path)),
                Err(_) => None,
            },
            _ => None,
        }
    }

    /// Why an import of what was read gives nothing, if there was a file to import.
    pub open spec fn import_failure(self, read: Option<auth_file::ReadView>) -> Option<Seq<char>> {
        match (self.file_path, read) {
            (Some(_), Some(read)) => match auth_file::accepted(read) {
                Ok(_) => None,
                Err(e) => Some(e),
            },
            _ => None,
        }
    }

    /// The session after an import that gave `loaded`. A failed import does not leave
    /// a file session looking valid, nor does it discard a manually entered
    /// credential.
    pub open spec fn after_import(self, loaded: Option<credentials::CredentialsView>) -> Self {
        match loaded {
            Some(c) => self.changed_to(Some(c)),
            None => if self.has_file_session() {
                self.changed_to(None)
            } else {
                self
            },
        }
    }

    /// The session after an import of what was read.
    pub open spec fn reloaded(self, read: Option<auth_file::ReadView>) -> Self {
        self.after_import(self.imported(read))
    }

    /// The session after the user entered `token`, which claims an account, or what to
    /// tell the user.
    pub open spec fn after_entry(self, token: Seq<char>, account_id: Option<Seq<char>>) -> Result<
        Self,
        Seq<char>,
    > {
        if text::trimmed(token).len() == 0 {
            Err("Access token must not be empty"@)
        } else {
            Ok(
                self.changed_to(
                    Some(
                        credentials::CredentialsView {
                            access_token: text::trimmed(token),
                            account_id,
                            source: CredentialSource::Manual,
                        },
                    ),
                ),
            )
        }
    }

    /// The session after the user entered `token`, or what to tell the user.
    pub open spec fn entered(self, token: Seq<char>) -> Result<Self, Seq<char>> {
        self.after_entry(token, jwt::claims(text::trimmed(token)).account_id)
    }

    /// The session and the answer after a refresh that began at `revision` ended in
    /// `c`. A session that changed meanwhile is left alone.
    pub open spec fn installed(self, revision: u64, c: credentials::CredentialsView) -> (
        Self,
        TokenResultView,
    ) {
        if self.revision != revision {
            (self, Err("Codex login changed during refresh; try again"@))
        } else {
            (ManagerView { credentials: Some(c), ..self }, Ok(c.grant()))
        }
    }

    /// How a request for a token goes on, where `rejected` is the token that the server
    /// has just rejected, and `usable` says whether the session's token can be used.
    pub open spec fn token_decision(self, rejected: Option<Seq<char>>, usable: bool) -> TokenStepView {
        match self.credentials {
            None => TokenStepView::Finished(Err("Not logged in to Codex"@)),
            Some(c) => if usable {
                TokenStepView::Finished(Ok(c.grant()))
            } else if c.source is Manual {
                TokenStepView::Finished(
                    Err(
                        "The manually entered Codex token expired or was rejected. Enter a new token; file credentials will not be substituted."@,
                    ),
                )
            } else {
                TokenStepView::Refresh(
                    crate::refresh::TaskView { revision: self.revision, initial: c, rejected },
                )
            },
        }
    }

    /// Whether the session has a token that can be used at the second `now`.
    pub open spec fn has_usable_token(self, rejected: Option<Seq<char>>, now: u64) -> bool {
        self.credentials matches Some(c) && c.usable(rejected, now)
    }

    /// How a request for a token goes on at the second `now`, where `rejected` is
    /// the token that the server has just rejected.
    pub open spec fn token_step(self, rejected: Option<Seq<char>>, now: u64) -> TokenStepView {
        self.token_decision(rejected, self.has_usable_token(rejected, now))
    }
}

/// A session that begins with an import of what was read at `file_path`.
pub open spec fn opened(
    file_path: Option<PathBuf>,
    refresh_url: Seq<char>,
    read: Option<auth_file::ReadView>,
) -> ManagerView {
    (ManagerView { revision: 0, credentials: None, file_path, refresh_url }).reloaded(read)
}

/// What the user interface shows of a session, where `is_file` says whether there is a file
/// at the configured path.
pub open spec fn shown(session: ManagerView, is_file: bool) -> CodexAuthState {
    CodexAuthState {
        is_logged_in: session.credentials is Some,
        has_auth_file: session.file_path is Some && is_file,
    }
}

impl CodexAuthManager {
    /// A session with the given refresh endpoint, imported from what was read at
    /// `file_path`.
    pub fn with_config(
        file_path: Option<PathBuf>,
        refresh_url: String,
        read: Option<AuthFileRead>,
    ) -> (r: Self)
        ensures
            r@ == opened(file_path, refresh_url@, auth_file::read_of(read)),
            r@ == (ManagerView {
                revision: 0,
                credentials: None,
                file_path,
                refresh_url: refresh_url@,
            }).reloaded(auth_file::read_of(read)),
    {
        let mut manager = CodexAuthManager {
            revision: 0,
            credentials: None,
            file_path,
            refresh_url,
        };
        manager.reload_from_file(read);
        manager
    }

    /// A session with the provider's refresh endpoint, imported from what was read
    /// at `file_path`.
    pub fn new(file_path: Option<PathBuf>, read: Option<AuthFileRead>) -> (r: Self)
        ensures
            r@ == opened(file_path, AUTH_TOKEN_URL@, auth_file::read_of(read)),
            r@ == (ManagerView {
                revision: 0,
                credentials: None,
                file_path,
                refresh_url: AUTH_TOKEN_URL@,
            }).reloaded(auth_file::read_of(read)),
    {
        CodexAuthManager::with_config(file_path, AUTH_TOKEN_URL.to_owned(), read)
    }

    /// Imports what was read from the credential file. Returns whether it did.
    pub fn reload_from_file(&mut self, read: Option<AuthFileRead>) -> (r: bool)
        ensures
            final(self)@ == old(self)@.reloaded(auth_file::read_of(read)),
            r == old(self)@.imported(auth_file::read_of(read)) is Some,
    {
        self.import_file(read).is_ok()
    }

    /// Imports what was read from the credential file, or says why there is nothing to
    /// import, where there was a file.
    pub fn import_file(&mut self, read: Option<AuthFileRead>) -> (r: Result<(), Option<String>>)
        ensures
            final(self)@ == old(self)@.reloaded(auth_file::read_of(read)),
            match r {
                Ok(()) => old(self)@.imported(auth_file::read_of(read)) is Some,
                Err(reason) => {
                    &&& old(self)@.imported(auth_file::read_of(read)) is None
                    &&& text::text_of(reason) == old(self)@.import_failure(
                        auth_file::read_of(read),
                    )
                },
            },
    {
        let mut loaded: Option<Credentials> = None;
        let mut reason: Option<String> = None;
        if let (Some(path), Some(read)) = (&self.file_path, read) {
            match auth_file::read_auth_file(read) {
                Ok((_, file)) => {
                    loaded = Some(auth_file::file_credentials(&file, path));
                },
                Err(e) => {
                    reason = Some(e);
                },
            }
        }
        if self.finish_import(loaded) {
            Ok(())
        } else {
            Err(reason)
        }
    }

    /// Ends an import that gave `loaded`. Returns whether it gave anything.
    pub fn finish_import(&mut self, loaded: Option<Credentials>) -> (r: bool)
        ensures
            final(self)@ == old(self)@.after_import(credentials::credentials_of(loaded)),
            r == loaded is Some,
    {
        if loaded.is_some() {
            self.revision = self.revision.wrapping_add(1);
            self.credentials = loaded;
            true
        } else {
            let from_file = match &self.credentials {
                Some(c) => match c.source {
                    CredentialSource::CodexFile(_) => true,
                    CredentialSource::Manual => false,
                },
                None => false,
            };
            if from_file {
                self.revision = self.revision.wrapping_add(1);
                self.credentials = None;
            }
            false
        }
    }

    /// What the user interface shows, where `is_file` says whether there is a file
    /// at the configured path.
    pub fn get_state(&self, is_file: bool) -> (r: CodexAuthState)
        ensures
            r == shown(self@, is_file),
            r.is_logged_in == self@.credentials is Some,
            r.has_auth_file == (self@.file_path is Some && is_file),
    {
        CodexAuthState {
            is_logged_in: self.credentials.is_some(),
            has_auth_file: self.file_path.is_some() && is_file,
        }
    }

    /// Uses the token that the user entered.
    pub fn set_access_token(&mut self, token: String) -> (r: Result<(), String>)
        ensures
            match old(self)@.entered(token@) {
                Ok(session) => r is Ok && final(self)@ == session,
                Err(e) => r matches Err(text) && text@ == e && final(self)@ == old(self)@,
            },
    {
        let account_id = jwt::extract_chatgpt_account_id(text::trim(token.as_str()));
        self.enter_token(token, account_id)
    }

    /// Uses the token that the user entered, which claims an account.
    pub fn enter_token(&mut self, token: String, account_id: Option<String>) -> (r: Result<
        (),
        String,
    >)
        ensures
            match old(self)@.after_entry(token@, text::text_of(account_id)) {
                Ok(session) => r is Ok && final(self)@ == session,
                Err(e) => r matches Err(text) && text@ == e && final(self)@ == old(self)@,
            },
    {
        let token = text::trim(token.as_str()).to_owned();
        if token.as_str().is_empty() {
            return Err("Access token must not be empty".to_owned());
        }
        self.revision = self.revision.wrapping_add(1);
        self.credentials = Some(
            Credentials { access_token: token, account_id, source: CredentialSource::Manual },
        );
        Ok(())
    }

    /// Forgets the credentials.
    pub fn logout(&mut self)
        ensures
            final(self)@ == old(self)@.changed_to(None),
    {
        self.revision = self.revision.wrapping_add(1);
        self.credentials = None;
    }

    /// Asks for a token that is not expired at the second `now`.
    pub fn get_valid_token(&self, now: u64) -> (r: TokenStep)
        ensures
            r@ == self@.token_step(None, now),
    {
        self.get_token(None, now)
    }

    /// Asks for another token than the rejected one. A server rejection forces
    /// rotation even when the expiry is in the future.
    pub fn refresh_after_rejection(&self, rejected: &str, now: u64) -> (r: TokenStep)
        ensures
            r@ == self@.token_step(Some(rejected@), now),
    {
        self.get_token(Some(rejected.to_owned()), now)
    }

    fn get_token(&self, rejected: Option<String>, now: u64) -> (r: TokenStep)
        ensures
            r@ == self@.token_step(text::text_of(rejected), now),
    {
        let usable = self.is_token_usable(&rejected, now);
        self.decide_token(rejected, usable)
    }

    /// Whether the session has a token that can be used at the second `now`.
    pub fn is_token_usable(&self, rejected: &Option<String>, now: u64) -> (r: bool)
        ensures
            r == self@.has_usable_token(text::text_of(*rejected), now),
    {
        match &self.credentials {
            Some(c) => c.is_usable(rejected, now),
            None => false,
        }
    }

    /// Decides how a request for a token goes on, where `usable` says whether the
    /// session's token can be used.
    pub fn decide_token(&self, rejected: Option<String>, usable: bool) -> (r: TokenStep)
        ensures
            r@ == self@.token_decision(text::text_of(rejected), usable),
    {
        match &self.credentials {
            None => TokenStep::Finished(Err("Not logged in to Codex".to_owned())),
            Some(c) => {
                if usable {
                    return TokenStep::Finished(Ok(c.to_grant()));
                }
                match c.source {
                    CredentialSource::Manual => TokenStep::Finished(
                        Err(
                            "The manually entered Codex token expired or was rejected. Enter a new token; file credentials will not be substituted.".to_owned(),
                        ),
                    ),
                    CredentialSource::CodexFile(_) => TokenStep::Refresh(
                        RefreshTask { revision: self.revision, initial: c.clone(), rejected },
                    ),
                }
            },
        }
    }

    /// Ends a refresh that began at `revision` in `credentials`.
    pub fn install_refreshed(&mut self, revision: u64, credentials: Credentials) -> (r: TokenResult)
        ensures
            (final(self)@, token_result_of(r)) == old(self)@.installed(revision, credentials@),
    {
        if self.revision != revision {
            return Err("Codex login changed during refresh; try again".to_owned());
        }
        let grant = credentials.to_grant();
        self.credentials = Some(credentials);
        Ok(grant)
    }
}

/// The revision after `changes` explicit changes from `r` on.
pub open spec fn revision_after(r: u64, changes: nat) -> u64
    decreases changes,
{
    if changes == 0 {
        r
    } else {
        next_revision(revision_after(r, (changes - 1) as nat))
    }
}

proof fn lemma_revision_after(r: u64, changes: nat)
    ensures
        revision_after(r, changes) == (r + changes) % 0x1_0000_0000_0000_0000,
    decreases changes,
{
    if changes > 0 {
        lemma_revision_after(r, (changes - 1) as nat);
    }
}

/// A refresh that began before explicit changes of the session never undoes them:
/// after any number of them below the number of revisions, its revision is refused,
/// the session stays as it is, and the caller is told.
pub proof fn explicit_changes_are_not_undone(
    session: ManagerView,
    began_at: u64,
    changes: nat,
    c: credentials::CredentialsView,
)
    requires
        session.revision == revision_after(began_at, changes),
        0 < changes < 0x1_0000_0000_0000_0000,
    ensures
        session.installed(began_at, c) == (
            session,
            Err::<(Seq<char>, Option<Seq<char>>), Seq<char>>(
                "Codex login changed during refresh; try again"@,
            ),
        ),
{
    lemma_revision_after(began_at, changes);
}

/// Logging out, entering a token, importing a file and losing a file session each
/// move the session to the next revision; a refused token, and a failed import
/// without a file session, leave the session as it is.
pub proof fn explicit_changes_move_the_revision(
    session: ManagerView,
    token: Seq<char>,
    read: Option<auth_file::ReadView>,
)
    ensures
        session.changed_to(None).revision == next_revision(session.revision),
        session.entered(token) matches Ok(after) ==> after.revision == next_revision(
            session.revision,
        ),
        session.imported(read) is Some || session.has_file_session() ==> session.reloaded(
            read,
        ).revision == next_revision(session.revision),
        session.imported(read) is None && !session.has_file_session() ==> session.reloaded(read)
            == session,
{
}

/// Installing refreshed credentials is no explicit change: the revision stays.
pub proof fn rotation_keeps_the_revision(
    session: ManagerView,
    revision: u64,
    c: credentials::CredentialsView,
)
    ensures
        session.installed(revision, c).0.revision == session.revision,
        session.installed(revision, c).0.file_path == session.file_path,
        session.installed(revision, c).0.refresh_url == session.refresh_url,
{
}

/// A failed import ends a file session, and keeps a manually entered credential.
pub proof fn failed_import_ends_only_file_sessions(
    session: ManagerView,
    read: Option<auth_file::ReadView>,
)
    requires
        session.imported(read) is None,
    ensures
        session.credentials matches Some(c) && c.source is CodexFile ==> session.reloaded(
            read,
        ).credentials is None,
        session.credentials matches Some(c) && c.source is Manual ==> session.reloaded(read)
            == session,
{
}

/// A blank token is refused, whatever white space it is made of, and every other
/// token is taken.
pub proof fn only_blank_tokens_are_refused(session: ManagerView, token: Seq<char>)
    ensures
        session.entered(token) is Err <==> forall|i: int|
            0 <= i < token.len() ==> text::white_space(#[trigger] token[i]),
{
    text::trimmed_is_empty_iff_blank(token);
}

/// Manually entered credentials are never refreshed from a file, and never give out
/// another token or account than their own.
pub proof fn manual_credentials_stay_manual(
    session: ManagerView,
    rejected: Option<Seq<char>>,
    now: u64,
)
    requires
        session.credentials matches Some(c) && c.source is Manual,
    ensures
        session.token_step(rejected, now) is Finished,
        session.token_step(rejected, now) matches TokenStepView::Finished(Ok(grant)) ==> grant
            == session.credentials->0.grant(),
{
}

/// A token that a session gives out at once is not expired, and is not the one that
/// the server has just rejected.
pub proof fn immediate_tokens_are_usable(
    session: ManagerView,
    rejected: Option<Seq<char>>,
    now: u64,
)
    ensures
        session.token_step(rejected, now) matches TokenStepView::Finished(Ok(grant)) ==> {
            &&& !jwt::expired(grant.0, now)
            &&& rejected != Some(grant.0)
        },
{
}

/// Logging out leaves nothing to give out.
pub proof fn logout_leaves_no_token(session: ManagerView, rejected: Option<Seq<char>>, now: u64)
    ensures
        session.changed_to(None).token_step(rejected, now) == TokenStepView::Finished(
            Err("Not logged in to Codex"@),
        ),
{
}

/// A rejection forces a refresh of a file session even where its token is not expired,
/// and so does the expiry where nothing was rejected; a session without a file is
/// never refreshed.
pub proof fn rejection_and_expiry_force_a_refresh(
    session: ManagerView,
    rejected: Option<Seq<char>>,
    now: u64,
)
    ensures
        session.token_step(rejected, now) is Refresh <==> (session.credentials matches Some(c) && {
            &&& c.source is CodexFile
            &&& rejected == Some(c.access_token) || jwt::expired(c.access_token, now)
        }),
        session.token_step(rejected, now) matches TokenStepView::Refresh(task) ==> {
            &&& task.revision == session.revision
            &&& session.credentials == Some(task.initial)
            &&& task.rejected == rejected
        },
{
}

} // verus!
