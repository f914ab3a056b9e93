//! What each step of a refresh does, said of what goes in and what comes out.

use vstd::prelude::*;

use crate::auth_file;
use crate::auth_file::RefreshResponse;
use crate::credentials;
use crate::jwt;
use crate::manager;
use crate::refresh;
use crate::refresh::{
    FileRefresh, GateStep, LockedStep, PendingReply, PendingReread, PendingWrite, ReadStep,
    RefreshReply, RefreshRequest, RefreshTask, ReplyStep, RereadStep,
};
use crate::refresh_laws;
use crate::text;

verus! {

/// At the refresh gate, a session that has changed since is left alone; a token of the session that
/// can be used is given out with its account; else the file that the credentials came from
/// is locked, and manual credentials are refused.
pub proof fn the_refresh_gate_lets_through_what_has_to_be_refreshed(
    task: refresh::TaskView,
    session: manager::ManagerView,
    now: u64,
    usable: bool,
)
    ensures
        ({
            let step = task.after_gate(session, now);
            let held = session.credentials is Some && session.credentials->0.usable(
                task.rejected,
                now,
            );
            &&& session.revision != task.revision ==> step == refresh::GateStepView::Finished(
                Err("Codex login changed during refresh; try again"@),
            )
            &&& session.revision == task.revision && held ==> step
                == refresh::GateStepView::Finished(
                Ok((session.credentials->0.access_token, session.credentials->0.account_id)),
            )
            &&& session.revision == task.revision && !held && task.initial.source is Manual ==> step
                == refresh::GateStepView::Finished(
                Err("Manual tokens cannot be refreshed from a file"@),
            )
            &&& session.revision == task.revision && !held && task.initial.source is CodexFile
                ==> step == refresh::GateStepView::LockFile(
                refresh::FileRefreshView { task, path: task.initial.source->CodexFile_0 },
            )
        }),
        ({
            let step = task.gate_decision(session, usable);
            &&& session.revision != task.revision ==> step == refresh::GateStepView::Finished(
                Err("Codex login changed during refresh; try again"@),
            )
            &&& session.revision == task.revision && usable && session.credentials is Some ==> step
                == refresh::GateStepView::Finished(
                Ok((session.credentials->0.access_token, session.credentials->0.account_id)),
            )
            &&& session.revision == task.revision && !(usable && session.credentials is Some)
                && task.initial.source is Manual ==> step == refresh::GateStepView::Finished(
                Err("Manual tokens cannot be refreshed from a file"@),
            )
            &&& session.revision == task.revision && !(usable && session.credentials is Some)
                && task.initial.source is CodexFile ==> step == refresh::GateStepView::LockFile(
                refresh::FileRefreshView { task, path: task.initial.source->CodexFile_0 },
            )
        }),
{
}

/// The file is read exactly where it could be locked; else the caller learns why not.
pub proof fn only_a_locked_file_is_read(r: refresh::FileRefreshView, e: Seq<char>)
    ensures
        r.after_lock(Ok(())) == refresh::LockedStepView::ReadFile(r),
        r.after_lock(Err(e)) == refresh::LockedStepView::Finished(Err(e)),
{
}

/// A file that cannot be used ends the refresh with the reason, and leaves the session.
pub proof fn unusable_files_end_the_refresh(
    r: refresh::FileRefreshView,
    pending: refresh::PendingRereadView,
    session: manager::ManagerView,
    read: auth_file::ReadView,
    now: u64,
    e: Seq<char>,
)
    requires
        auth_file::accepted(read) == Err::<(Seq<char>, auth_file::AuthFileView), Seq<char>>(e),
    ensures
        r.after_read(session, read, now) == (session, refresh::ReadStepView::Finished(Err(e))),
        pending.after_reread(session, read, now) == (
            session,
            refresh::RereadStepView::Finished(Err(e)),
        ),
{
}

/// What follows the first look at a file that can be used. Another account or another user
/// ends the refresh; a token that can be used is installed and given out, unless the login
/// has changed; without a refresh token nothing can be asked for; else the refresh token of
/// the file is sent to the refresh endpoint of the session.
pub proof fn a_file_is_used_or_refreshed(
    r: refresh::FileRefreshView,
    session: manager::ManagerView,
    contents: Seq<char>,
    file: auth_file::AuthFileView,
    now: u64,
)
    requires
        auth_file::accepted(auth_file::ReadView::Parsed(contents, file)) is Ok,
    ensures
        ({
            let (after, step) = r.after_read(
                session,
                auth_file::ReadView::Parsed(contents, file),
                now,
            );
            let c = auth_file::credentials_in(file, r.path);
            let same = credentials::account_check(r.task.initial, c);
            let refresh_token = file.tokens.refresh_token;
            let has_refresh_token = refresh_token is Some && refresh_token->0.len() > 0;
            let usable = c.usable(r.task.rejected, now);
            &&& same is Err ==> after == session && step == refresh::ReadStepView::Finished(
                Err(same->Err_0),
            )
            &&& same is Ok && usable && session.revision == r.task.revision ==> {
                &&& after.credentials == Some(c)
                &&& after.revision == session.revision
                &&& after.file_path == session.file_path
                &&& after.refresh_url == session.refresh_url
                &&& step == refresh::ReadStepView::Finished(Ok((c.access_token, c.account_id)))
            }
            &&& same is Ok && usable && session.revision != r.task.revision ==> {
                &&& after == session
                &&& step == refresh::ReadStepView::Finished(
                    Err("Codex login changed during refresh; try again"@),
                )
            }
            &&& same is Ok && !usable && !has_refresh_token ==> {
                &&& after == session
                &&& step == refresh::ReadStepView::Finished(
                    Err("No refresh token in Codex credentials; sign in again"@),
                )
            }
            &&& same is Ok && !usable && has_refresh_token ==> {
                &&& after == session
                &&& step == refresh::ReadStepView::Request(
                    refresh::RequestView {
                        url: session.refresh_url,
                        grant_type: "refresh_token"@,
                        refresh_token: refresh_token->0,
                        client_id: "app_EMoamEEZ73f0CkXaXp7hrann"@,
                    },
                    refresh::PendingReplyView { refresh: r, contents, file },
                )
            }
        }),
{
}

/// The same where the credentials, the account check and whether the token can be used are
/// given.
pub proof fn a_file_is_used_or_refreshed_as_decided(
    r: refresh::FileRefreshView,
    session: manager::ManagerView,
    contents: Seq<char>,
    file: auth_file::AuthFileView,
    c: credentials::CredentialsView,
    same: Result<(), Seq<char>>,
    usable: bool,
)
    ensures
        ({
            let (after, step) = r.read_decision(session, contents, file, c, same, usable);
            let refresh_token = file.tokens.refresh_token;
            let has_refresh_token = refresh_token is Some && refresh_token->0.len() > 0;
            &&& same is Err ==> after == session && step == refresh::ReadStepView::Finished(
                Err(same->Err_0),
            )
            &&& same is Ok && usable && session.revision == r.task.revision ==> {
                &&& after.credentials == Some(c)
                &&& after.revision == session.revision
                &&& after.file_path == session.file_path
                &&& after.refresh_url == session.refresh_url
                &&& step == refresh::ReadStepView::Finished(Ok((c.access_token, c.account_id)))
            }
            &&& same is Ok && usable && session.revision != r.task.revision ==> {
                &&& after == session
                &&& step == refresh::ReadStepView::Finished(
                    Err("Codex login changed during refresh; try again"@),
                )
            }
            &&& same is Ok && !usable && !has_refresh_token ==> {
                &&& after == session
                &&& step == refresh::ReadStepView::Finished(
                    Err("No refresh token in Codex credentials; sign in again"@),
                )
            }
            &&& same is Ok && !usable && has_refresh_token ==> {
                &&& after == session
                &&& step == refresh::ReadStepView::Request(
                    refresh::RequestView {
                        url: session.refresh_url,
                        grant_type: "refresh_token"@,
                        refresh_token: refresh_token->0,
                        client_id: "app_EMoamEEZ73f0CkXaXp7hrann"@,
                    },
                    refresh::PendingReplyView { refresh: r, contents, file },
                )
            }
        }),
{
}

/// Every request that a refresh sends, whether the token was rejected or has expired, is a
/// refresh request: to the refresh endpoint of the session, with the refresh token of the
/// file that was read and the client that the provider knows.
pub proof fn requests_are_refresh_requests(
    task: refresh::TaskView,
    s: refresh_laws::Surroundings,
)
    ensures
        refresh_laws::run(task, s).request matches Some(q) ==> {
            &&& q.url == s.read_session.refresh_url
            &&& q.grant_type == "refresh_token"@
            &&& q.client_id == "app_EMoamEEZ73f0CkXaXp7hrann"@
            &&& s.read matches auth_file::ReadView::Parsed(_, file) && file.tokens.refresh_token
                == Some(q.refresh_token)
            &&& q.refresh_token.len() > 0
        },
{
}

/// A token that has expired is refreshed, rejected or not: where neither the session nor
/// the file has one that can be used, and the file is of the same account and user and has
/// a refresh token, that token is spent.
pub proof fn an_expired_token_is_refreshed(
    task: refresh::TaskView,
    s: refresh_laws::Surroundings,
    contents: Seq<char>,
    file: auth_file::AuthFileView,
)
    requires
        task.initial.source is CodexFile,
        s.gate_session.revision == task.revision,
        s.gate_session.credentials matches Some(c) ==> jwt::expired(c.access_token, s.gate_now),
        s.lock is Ok,
        s.read == auth_file::ReadView::Parsed(contents, file),
        auth_file::accepted(s.read) is Ok,
        jwt::expired(file.tokens.access_token, s.read_now),
        credentials::account_check(
            task.initial,
            auth_file::credentials_in(file, task.initial.source->CodexFile_0),
        ) is Ok,
        file.tokens.refresh_token matches Some(t) && t.len() > 0,
    ensures
        refresh_laws::run(task, s).request == Some(
            refresh::RequestView {
                url: s.read_session.refresh_url,
                grant_type: "refresh_token"@,
                refresh_token: file.tokens.refresh_token->0,
                client_id: "app_EMoamEEZ73f0CkXaXp7hrann"@,
            },
        ),
{
}

/// A status reports success exactly from 200 to 299.
pub proof fn the_two_hundreds_are_successes(status: u16)
    ensures
        refresh::success(status) <==> 200 <= status <= 299,
{
}

/// What a reply grants. Without an answer, with an answer other than success, with a body
/// that cannot be read, and with a token that is not good, it grants nothing, and the user
/// is told which it was; else it grants exactly the tokens in its body.
pub proof fn good_replies_are_granted_as_they_are(
    status: u16,
    status_text: Seq<char>,
    body: Result<auth_file::ResponseView, Seq<char>>,
    now: u64,
    e: Seq<char>,
)
    ensures
        refresh::returned(refresh::ReplyView::Unanswered(e)) == Err::<
            auth_file::ResponseView,
            Seq<char>,
        >("Token refresh request failed: "@ + e),
        refresh::granted(refresh::ReplyView::Unanswered(e), now) == Err::<
            auth_file::ResponseView,
            Seq<char>,
        >("Token refresh request failed: "@ + e),
        ({
            let reply = refresh::ReplyView::Answered { status, status_text, body };
            let returned = refresh::returned(reply);
            let granted = refresh::granted(reply, now);
            let refused = Err::<auth_file::ResponseView, Seq<char>>(
                "Token refresh failed: HTTP "@ + status_text + ". Sign in to Codex again."@,
            );
            &&& status < 200 || status > 299 ==> returned == refused && granted == refused
            &&& 200 <= status <= 299 && body is Err ==> {
                &&& returned == Err::<auth_file::ResponseView, Seq<char>>(
                    "Invalid token refresh response: "@ + body->Err_0,
                )
                &&& granted == returned
            }
            &&& 200 <= status <= 299 && body is Ok ==> {
                let expiry = jwt::claims(body->Ok_0.access_token).expiry;
                &&& returned == body
                &&& expiry is Some && expiry->0 > now + 300 ==> granted == body
                &&& expiry is None || expiry->0 <= now + 300 ==> granted == Err::<
                    auth_file::ResponseView,
                    Seq<char>,
                >("Token refresh returned an empty, invalid or expired token"@)
            }
        }),
{
}

/// The same of a response whose token claims an expiry.
pub proof fn good_responses_are_accepted_as_they_are(
    response: auth_file::ResponseView,
    expiry: Option<u64>,
    now: u64,
)
    ensures
        expiry is Some && expiry->0 > now + 300 ==> refresh::unexpired(response, expiry, now) == Ok::<
            auth_file::ResponseView,
            Seq<char>,
        >(response),
        expiry is None || expiry->0 <= now + 300 ==> refresh::unexpired(response, expiry, now)
            == Err::<auth_file::ResponseView, Seq<char>>(
            "Token refresh returned an empty, invalid or expired token"@,
        ),
{
}

/// What follows a reply. Where it grants nothing, the refresh ends with what it said. Where
/// it does, the file is rotated, and looked at again if it is still of the account and the
/// user that the refresh began with.
pub proof fn granted_tokens_are_put_into_the_file(
    pending: refresh::PendingReplyView,
    reply: refresh::ReplyView,
    now: u64,
)
    ensures
        ({
            let step = pending.after_reply(reply, now);
            let granted = refresh::granted(reply, now);
            &&& granted is Err ==> step == refresh::ReplyStepView::Finished(Err(granted->Err_0))
            &&& granted is Ok ==> {
                let file = auth_file::rotated(pending.file, granted->Ok_0);
                let c = auth_file::credentials_in(file, pending.refresh.path);
                let same = credentials::account_check(pending.refresh.task.initial, c);
                &&& same is Err ==> step == refresh::ReplyStepView::Finished(Err(same->Err_0))
                &&& same is Ok ==> step == refresh::ReplyStepView::Reread(
                    refresh::PendingRereadView {
                        refresh: pending.refresh,
                        contents: pending.contents,
                        file,
                        credentials: c,
                    },
                )
            }
        }),
{
}

/// The same where the rotated file and the account check are given.
pub proof fn granted_tokens_of_the_account_are_kept(
    r: refresh::FileRefreshView,
    contents: Seq<char>,
    file: auth_file::AuthFileView,
    c: credentials::CredentialsView,
    same: Result<(), Seq<char>>,
)
    ensures
        same is Err ==> r.grant_decision(contents, file, c, same)
            == refresh::ReplyStepView::Finished(Err(same->Err_0)),
        same is Ok ==> r.grant_decision(contents, file, c, same) == refresh::ReplyStepView::Reread(
            refresh::PendingRereadView { refresh: r, contents, file, credentials: c },
        ),
{
}

/// What follows the second look at the file. With the contents that were read before the
/// request, it is replaced by the rotated file, for the credentials in it. With any others
/// it is not: another account or user ends the refresh, a token that can be used is
/// installed and given out, unless the login has changed, and else the user has to import
/// again.
pub proof fn only_an_unchanged_file_is_replaced(
    pending: refresh::PendingRereadView,
    session: manager::ManagerView,
    contents: Seq<char>,
    file: auth_file::AuthFileView,
    now: u64,
)
    requires
        auth_file::accepted(auth_file::ReadView::Parsed(contents, file)) is Ok,
    ensures
        ({
            let (after, step) = pending.after_reread(
                session,
                auth_file::ReadView::Parsed(contents, file),
                now,
            );
            let c = auth_file::credentials_in(file, pending.refresh.path);
            let same = credentials::account_check(pending.refresh.task.initial, c);
            let usable = c.usable(pending.refresh.task.rejected, now);
            let revision = pending.refresh.task.revision;
            &&& contents == pending.contents ==> {
                &&& after == session
                &&& step == refresh::RereadStepView::Write(
                    pending.refresh.path,
                    pending.file,
                    refresh::PendingWriteView { revision, credentials: pending.credentials },
                )
            }
            &&& contents != pending.contents && same is Err ==> {
                &&& after == session
                &&& step == refresh::RereadStepView::Finished(Err(same->Err_0))
            }
            &&& contents != pending.contents && same is Ok && !usable ==> {
                &&& after == session
                &&& step == refresh::RereadStepView::Declined(
                    "Codex credentials changed during refresh. Import credentials again."@,
                )
            }
            &&& contents != pending.contents && same is Ok && usable && session.revision
                == revision ==> {
                &&& after.credentials == Some(c)
                &&& after.revision == session.revision
                &&& after.file_path == session.file_path
                &&& after.refresh_url == session.refresh_url
                &&& step == refresh::RereadStepView::Finished(Ok((c.access_token, c.account_id)))
            }
            &&& contents != pending.contents && same is Ok && usable && session.revision
                != revision ==> {
                &&& after == session
                &&& step == refresh::RereadStepView::Finished(
                    Err("Codex login changed during refresh; try again"@),
                )
            }
        }),
{
}

/// The same where the credentials, the account check and whether the token can be used are
/// given.
pub proof fn only_an_unchanged_file_is_replaced_as_decided(
    pending: refresh::PendingRereadView,
    session: manager::ManagerView,
    contents: Seq<char>,
    c: credentials::CredentialsView,
    same: Result<(), Seq<char>>,
    usable: bool,
)
    ensures
        ({
            let (after, step) = pending.reread_decision(session, contents, c, same, usable);
            let revision = pending.refresh.task.revision;
            &&& contents == pending.contents ==> {
                &&& after == session
                &&& step == refresh::RereadStepView::Write(
                    pending.refresh.path,
                    pending.file,
                    refresh::PendingWriteView { revision, credentials: pending.credentials },
                )
            }
            &&& contents != pending.contents && same is Err ==> {
                &&& after == session
                &&& step == refresh::RereadStepView::Finished(Err(same->Err_0))
            }
            &&& contents != pending.contents && same is Ok && !usable ==> {
                &&& after == session
                &&& step == refresh::RereadStepView::Declined(
                    "Codex credentials changed during refresh. Import credentials again."@,
                )
            }
            &&& contents != pending.contents && same is Ok && usable && session.revision
                == revision ==> {
                &&& after.credentials == Some(c)
                &&& after.revision == session.revision
                &&& after.file_path == session.file_path
                &&& after.refresh_url == session.refresh_url
                &&& step == refresh::RereadStepView::Finished(Ok((c.access_token, c.account_id)))
            }
            &&& contents != pending.contents && same is Ok && usable && session.revision
                != revision ==> {
                &&& after == session
                &&& step == refresh::RereadStepView::Finished(
                    Err("Codex login changed during refresh; try again"@),
                )
            }
        }),
{
}

/// What follows the replacement of the file. Where it failed, the caller learns why and
/// the session stays; else the new credentials are installed and given out, unless the
/// login has changed.
pub proof fn written_credentials_are_installed(
    pending: refresh::PendingWriteView,
    session: manager::ManagerView,
    e: Seq<char>,
)
    ensures
        pending.after_write(session, Err(e)) == (
            session,
            Err::<(Seq<char>, Option<Seq<char>>), Seq<char>>(e),
        ),
        ({
            let (after, result) = pending.after_write(session, Ok(()));
            let c = pending.credentials;
            &&& session.revision == pending.revision ==> {
                &&& after.credentials == Some(c)
                &&& after.revision == session.revision
                &&& after.file_path == session.file_path
                &&& after.refresh_url == session.refresh_url
                &&& result == Ok::<(Seq<char>, Option<Seq<char>>), Seq<char>>(
                    (c.access_token, c.account_id),
                )
            }
            &&& session.revision != pending.revision ==> {
                &&& after == session
                &&& result == Err::<(Seq<char>, Option<Seq<char>>), Seq<char>>(
                    "Codex login changed during refresh; try again"@,
                )
            }
        }),
{
}

/// What the waiting values of a refresh show is all that they hold.
pub proof fn waiting_refreshes_show_what_they_hold(
    task: RefreshTask,
    r: FileRefresh,
    request: RefreshRequest,
    reply: PendingReply,
    reread: PendingReread,
    write: PendingWrite,
)
    ensures
        task@.revision == task.revision,
        task@.initial == task.initial@,
        task@.rejected == text::text_of(task.rejected),
        r@.task == r.task@,
        r@.path == r.path,
        request@.url == request.url@,
        request@.grant_type == request.grant_type@,
        request@.refresh_token == request.refresh_token@,
        request@.client_id == request.client_id@,
        reply@.refresh == reply.refresh@,
        reply@.contents == reply.contents@,
        reply@.file == reply.file@,
        reread@.refresh == reread.refresh@,
        reread@.contents == reread.contents@,
        reread@.file == reread.file@,
        reread@.credentials == reread.credentials@,
        write@.revision == write.revision,
        write@.credentials == write.credentials@,
{
}

/// What replies of the provider show is all that they hold.
pub proof fn replies_show_what_they_hold(
    reply: RefreshReply,
    body: Result<RefreshResponse, String>,
)
    ensures
        reply matches RefreshReply::Unanswered(e) ==> reply@ == refresh::ReplyView::Unanswered(e@),
        reply matches RefreshReply::Answered { status, status_text, body: b } ==> reply@
            == (refresh::ReplyView::Answered {
            status,
            status_text: status_text@,
            body: refresh::body_of(b),
        }),
        body matches Ok(response) ==> refresh::body_of(body) == Ok::<
            auth_file::ResponseView,
            Seq<char>,
        >(response@),
        body matches Err(e) ==> refresh::body_of(body) == Err::<
            auth_file::ResponseView,
            Seq<char>,
        >(e@),
{
}

/// What the steps of a refresh show is all that they hold.
pub proof fn refresh_steps_show_what_they_hold(
    gate: GateStep,
    locked: LockedStep,
    read: ReadStep,
    reply: ReplyStep,
    reread: RereadStep,
)
    ensures
        gate matches GateStep::Finished(r) ==> gate@ == refresh::GateStepView::Finished(
            manager::token_result_of(r),
        ),
        gate matches GateStep::LockFile(r) ==> gate@ == refresh::GateStepView::LockFile(r@),
        locked matches LockedStep::Finished(r) ==> locked@ == refresh::LockedStepView::Finished(
            manager::token_result_of(r),
        ),
        locked matches LockedStep::ReadFile(r) ==> locked@ == refresh::LockedStepView::ReadFile(
            r@,
        ),
        read matches ReadStep::Finished(r) ==> read@ == refresh::ReadStepView::Finished(
            manager::token_result_of(r),
        ),
        read matches ReadStep::Request(q, pending) ==> read@ == refresh::ReadStepView::Request(
            q@,
            pending@,
        ),
        reply matches ReplyStep::Finished(r) ==> reply@ == refresh::ReplyStepView::Finished(
            manager::token_result_of(r),
        ),
        reply matches ReplyStep::Reread(pending) ==> reply@ == refresh::ReplyStepView::Reread(
            pending@,
        ),
        reread matches RereadStep::Finished(r) ==> reread@ == refresh::RereadStepView::Finished(
            manager::token_result_of(r),
        ),
        reread matches RereadStep::Declined(e) ==> reread@ == refresh::RereadStepView::Declined(
            e@,
        ),
        reread matches RereadStep::Write(path, file, pending) ==> reread@
            == refresh::RereadStepView::Write(path, file@, pending@),
{
}

} // verus!
