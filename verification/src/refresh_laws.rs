//! What holds of a refresh as a whole, whatever the outside steps come to and
//! however the session changes between them.

use vstd::prelude::*;

use crate::auth_file;
use crate::credentials;
use crate::jwt;
use crate::manager;
use crate::refresh;

verus! {

/// What the outside steps of one refresh come to: at each step that looks at it,
/// the session and the second; and what the lock, the reads, the reply and the
/// replacement gave.
pub ghost struct Surroundings {
    pub gate_session: manager::ManagerView,
    pub gate_now: u64,
    pub lock: Result<(), Seq<char>>,
    pub read_session: manager::ManagerView,
    pub read: auth_file::ReadView,
    pub read_now: u64,
    pub reply: refresh::ReplyView,
    pub reply_now: u64,
    pub reread_session: manager::ManagerView,
    pub reread: auth_file::ReadView,
    pub reread_now: u64,
    pub write_session: manager::ManagerView,
    pub write: Result<(), Seq<char>>,
}

/// What one refresh comes to.
pub ghost struct Outcome {
    /// The answer to the caller.
    pub result: manager::TokenResultView,
    /// The request that was sent, if one was.
    pub request: Option<refresh::RequestView>,
    /// The file that was handed over to replace the one on disk, if one was.
    pub written: Option<auth_file::AuthFileView>,
    /// The session before and after the last step.
    pub before: manager::ManagerView,
    pub after: manager::ManagerView,
}

/// One refresh from the refresh gate to its end: the steps of `refresh` in their order.
pub open spec fn run(task: refresh::TaskView, s: Surroundings) -> Outcome {
    match task.after_gate(s.gate_session, s.gate_now) {
        refresh::GateStepView::Finished(result) => Outcome {
            result,
            request: None,
            written: None,
            before: s.gate_session,
            after: s.gate_session,
        },
        refresh::GateStepView::LockFile(file_refresh) => match file_refresh.after_lock(s.lock) {
            refresh::LockedStepView::Finished(result) => Outcome {
                result,
                request: None,
                written: None,
                before: s.gate_session,
                after: s.gate_session,
            },
            refresh::LockedStepView::ReadFile(file_refresh) => run_read(file_refresh, s),
        },
    }
}

/// A refresh from the first look at the file on.
pub open spec fn run_read(file_refresh: refresh::FileRefreshView, s: Surroundings) -> Outcome {
    let (after_read, step) = file_refresh.after_read(s.read_session, s.read, s.read_now);
    match step {
        refresh::ReadStepView::Finished(result) => Outcome {
            result,
            request: None,
            written: None,
            before: s.read_session,
            after: after_read,
        },
        refresh::ReadStepView::Request(request, pending) => match pending.after_reply(
            s.reply,
            s.reply_now,
        ) {
            refresh::ReplyStepView::Finished(result) => Outcome {
                result,
                request: Some(request),
                written: None,
                before: s.read_session,
                after: after_read,
            },
            refresh::ReplyStepView::Reread(pending) => run_reread(request, pending, s),
        },
    }
}

/// A refresh from the second look at the file on.
pub open spec fn run_reread(
    request: refresh::RequestView,
    pending: refresh::PendingRereadView,
    s: Surroundings,
) -> Outcome {
    let (after_reread, step) = pending.after_reread(s.reread_session, s.reread, s.reread_now);
    match step {
        refresh::RereadStepView::Finished(result) => Outcome {
            result,
            request: Some(request),
            written: None,
            before: s.reread_session,
            after: after_reread,
        },
        refresh::RereadStepView::Declined(e) => Outcome {
            result: Err(e),
            request: Some(request),
            written: None,
            before: s.reread_session,
            after: after_reread,
        },
        refresh::RereadStepView::Write(_, file, pending) => {
            let (after_write, result) = pending.after_write(s.write_session, s.write);
            Outcome {
                result,
                request: Some(request),
                written: Some(file),
                before: s.write_session,
                after: after_write,
            }
        },
    }
}

/// A login that changed during the refresh is not undone: where the last step finds
/// another revision than the refresh began with, the session stays as that step
/// found it, and no token is given out.
pub proof fn changed_login_is_not_undone(task: refresh::TaskView, s: Surroundings)
    ensures
        run(task, s).before.revision != task.revision ==> {
            &&& run(task, s).after == run(task, s).before
            &&& run(task, s).result is Err
        },
{
}

/// A refresh changes nothing of the session but its credentials, and those only to
/// credentials of the account and the user that it began with.
pub proof fn session_stays_with_its_account(task: refresh::TaskView, s: Surroundings)
    ensures
        ({
            let o = run(task, s);
            &&& o.after.revision == o.before.revision
            &&& o.after.file_path == o.before.file_path
            &&& o.after.refresh_url == o.before.refresh_url
            &&& o.after == o.before || {
                &&& o.before.revision == task.revision
                &&& o.after.credentials is Some
                &&& o.after.credentials->0.source == task.initial.source
                &&& credentials::account_check(task.initial, o.after.credentials->0) is Ok
                &&& o.result == Ok::<(Seq<char>, Option<Seq<char>>), Seq<char>>(
                    o.after.credentials->0.grant(),
                )
            }
        }),
{
}

/// A refresh gives out tokens of one account and one user only, those that it began
/// with: also where it ends at the refresh gate with the token of the session, as long
/// as that session is of this account.
pub proof fn given_tokens_belong_to_the_account(task: refresh::TaskView, s: Surroundings)
    requires
        s.gate_session.revision == task.revision ==> s.gate_session.credentials is Some
            && credentials::account_check(task.initial, s.gate_session.credentials->0) is Ok,
    ensures
        run(task, s).result matches Ok(grant) ==> {
            &&& grant.1 == task.initial.account_id
            &&& jwt::claims(grant.0).subject == jwt::claims(task.initial.access_token).subject
        },
{
}

/// A refresh of manually entered credentials reads no file, sends nothing, replaces
/// nothing and changes nothing.
pub proof fn manual_credentials_are_never_refreshed(task: refresh::TaskView, s: Surroundings)
    requires
        task.initial.source is Manual,
    ensures
        run(task, s).request is None,
        run(task, s).written is None,
        run(task, s).after == s.gate_session,
        run(task, s).result is Ok ==> s.gate_session.credentials is Some && run(task, s).result
            == Ok::<(Seq<char>, Option<Seq<char>>), Seq<char>>(
            s.gate_session.credentials->0.grant(),
        ),
{
}

/// Every token that a refresh gives out has been found unexpired. Where no request
/// was sent, or the file had been written by another program, it is not the token
/// that the server rejected either.
pub proof fn given_tokens_are_usable(task: refresh::TaskView, s: Surroundings)
    ensures
        run(task, s).result matches Ok(grant) ==> {
            ||| !jwt::expired(grant.0, s.gate_now) && task.rejected != Some(grant.0)
            ||| !jwt::expired(grant.0, s.read_now) && task.rejected != Some(grant.0)
            ||| !jwt::expired(grant.0, s.reread_now) && task.rejected != Some(grant.0)
            ||| !jwt::expired(grant.0, s.reply_now) && run(task, s).written is Some
        },
{
}

/// A refresh token is only spent where the file itself gives no usable token: what
/// another program or another session has refreshed already is used as it is.
pub proof fn a_fresh_file_is_not_rotated_again(task: refresh::TaskView, s: Surroundings)
    ensures
        run(task, s).request is Some ==> {
            &&& task.initial.source is CodexFile
            &&& auth_file::accepted(s.read) matches Ok((_, file)) && {
                let current = auth_file::credentials_in(file, task.initial.source->CodexFile_0);
                &&& !current.usable(task.rejected, s.read_now)
                &&& credentials::account_check(task.initial, current) is Ok
                &&& file.tokens.refresh_token == Some(run(task, s).request->0.refresh_token)
            }
        },
{
}

/// The file is only replaced after a granted request, only while its contents are
/// still those that were read before the request, and only by tokens of the account
/// and the user that the refresh began with.
pub proof fn a_changed_file_is_never_overwritten(task: refresh::TaskView, s: Surroundings)
    ensures
        run(task, s).written matches Some(written) ==> {
            &&& run(task, s).request is Some
            &&& refresh::granted(s.reply, s.reply_now) is Ok
            &&& auth_file::accepted(s.read) is Ok
            &&& auth_file::accepted(s.reread) is Ok
            &&& auth_file::accepted(s.read)->Ok_0.0 == auth_file::accepted(s.reread)->Ok_0.0
            &&& task.initial.source is CodexFile
            &&& credentials::account_check(
                task.initial,
                auth_file::credentials_in(written, task.initial.source->CodexFile_0),
            ) is Ok
        },
{
}

/// What replaces the file is what was read, with the granted tokens in it: members
/// that this library does not know, and tokens that the reply does not renew, are
/// kept.
pub proof fn rotation_preserves_the_file(task: refresh::TaskView, s: Surroundings)
    ensures
        run(task, s).written matches Some(written) ==> {
            let file = auth_file::accepted(s.read)->Ok_0.1;
            let response = refresh::granted(s.reply, s.reply_now)->Ok_0;
            &&& written.extra == file.extra
            &&& written.tokens.extra == file.tokens.extra
            &&& written.tokens.access_token == response.access_token
            &&& response.refresh_token is None ==> written.tokens.refresh_token
                == file.tokens.refresh_token
            &&& response.refresh_token is Some ==> written.tokens.refresh_token
                == response.refresh_token
            &&& response.id_token is None ==> written.tokens.id_token == file.tokens.id_token
            &&& response.id_token is Some ==> written.tokens.id_token == response.id_token
        },
{
}

/// A rotation that has been granted is persisted, whatever the session has become
/// meanwhile: once the reply is good, for the right account, and the file is still
/// what it was, the rotated file is written. Where the login has changed by then,
/// the caller is told and the session is not touched.
pub proof fn granted_rotation_is_persisted(task: refresh::TaskView, s: Surroundings)
    requires
        run(task, s).request is Some,
        refresh::granted(s.reply, s.reply_now) is Ok,
        credentials::account_check(
            task.initial,
            auth_file::credentials_in(
                auth_file::rotated(
                    auth_file::accepted(s.read)->Ok_0.1,
                    refresh::granted(s.reply, s.reply_now)->Ok_0,
                ),
                task.initial.source->CodexFile_0,
            ),
        ) is Ok,
        auth_file::accepted(s.reread) is Ok,
        auth_file::accepted(s.reread)->Ok_0.0 == auth_file::accepted(s.read)->Ok_0.0,
    ensures
        run(task, s).written == Some(
            auth_file::rotated(
                auth_file::accepted(s.read)->Ok_0.1,
                refresh::granted(s.reply, s.reply_now)->Ok_0,
            ),
        ),
        s.write_session.revision != task.revision ==> {
            &&& run(task, s).after == s.write_session
            &&& run(task, s).result is Err
        },
        s.write_session.revision == task.revision && s.write is Ok ==> run(task, s).result == Ok::<
            (Seq<char>, Option<Seq<char>>),
            Seq<char>,
        >(
            auth_file::credentials_in(
                run(task, s).written->0,
                task.initial.source->CodexFile_0,
            ).grant(),
        ),
{
}

/// A refusal is reported by its status alone: the body, which may echo secrets,
/// changes nothing.
pub proof fn refused_bodies_are_not_revealed(
    task: refresh::TaskView,
    s: Surroundings,
    status: u16,
    status_text: Seq<char>,
    body: Result<auth_file::ResponseView, Seq<char>>,
    other: Result<auth_file::ResponseView, Seq<char>>,
)
    requires
        !refresh::success(status),
    ensures
        run(
            task,
            (Surroundings {
                reply: refresh::ReplyView::Answered { status, status_text, body },
                ..s
            }),
        ) == run(
            task,
            (Surroundings {
                reply: refresh::ReplyView::Answered { status, status_text, body: other },
                ..s
            }),
        ),
{
}

/// A token that the server rejected is rotated though it is not expired: where the
/// session and the file still hold it, the refresh token of the file is spent,
/// whatever the expiry says.
pub proof fn a_rejected_token_is_rotated(task: refresh::TaskView, s: Surroundings)
    requires
        task.initial.source is CodexFile,
        s.gate_session.revision == task.revision,
        s.gate_session.credentials matches Some(c) && task.rejected == Some(c.access_token),
        s.lock is Ok,
        auth_file::accepted(s.read) matches Ok((_, file)) && {
            &&& task.rejected == Some(file.tokens.access_token)
            &&& credentials::account_check(
                task.initial,
                auth_file::credentials_in(file, task.initial.source->CodexFile_0),
            ) is Ok
            &&& file.tokens.refresh_token matches Some(t) && t.len() > 0
        },
    ensures
        run(task, s).request == Some(
            refresh::RequestView {
                url: s.read_session.refresh_url,
                grant_type: "refresh_token"@,
                refresh_token: auth_file::accepted(s.read)->Ok_0.1.tokens.refresh_token->0,
                client_id: refresh::CLIENT_ID@,
            },
        ),
{
}

/// Sessions that share a file do not rotate it twice: once a refresh has replaced the
/// file, a refresh of the same account in another session that finds that file takes
/// the new token from it, and sends nothing, as long as the token is good.
pub proof fn a_rotation_serves_every_session(
    first: refresh::TaskView,
    s: Surroundings,
    second: refresh::TaskView,
    t: Surroundings,
    contents: Seq<char>,
)
    requires
        run(first, s).written is Some,
        second.initial.source == first.initial.source,
        credentials::account_check(second.initial, first.initial) is Ok,
        t.read == auth_file::ReadView::Parsed(contents, run(first, s).written->0),
        !jwt::expired(run(first, s).written->0.tokens.access_token, t.read_now),
        second.rejected != Some(run(first, s).written->0.tokens.access_token),
    ensures
        run(second, t).request is None,
        run(second, t).written is None,
        second.after_gate(t.gate_session, t.gate_now) is LockFile && t.lock is Ok
            && t.read_session.revision == second.revision ==> run(second, t).result == Ok::<
            (Seq<char>, Option<Seq<char>>),
            Seq<char>,
        >(
            auth_file::credentials_in(
                run(first, s).written->0,
                first.initial.source->CodexFile_0,
            ).grant(),
        ),
{
    let written = run(first, s).written->0;
    jwt::unexpired_token_is_not_blank(written.tokens.access_token, t.read_now);
    a_changed_file_is_never_overwritten(first, s);
    credentials::same_account_is_an_equivalence(
        second.initial,
        first.initial,
        auth_file::credentials_in(written, first.initial.source->CodexFile_0),
    );
}

} // verus!
