//! What holds of a login as a whole: of every refresh and every answer from one explicit
//! change of the session to the next.

use vstd::prelude::*;

use crate::auth_file;
use crate::credentials;
use crate::jwt;
use crate::manager;
use crate::refresh;
use crate::refresh_laws;

verus! {

/// One request for a token, from the question to the answer: what `get_valid_token`
/// comes to where nothing is `rejected`, and `refresh_after_rejection` where a token is.
/// The task that runs the refresh comes to its end; where it fails, the answer is the
/// error of `manager::task_answer`.
pub open spec fn ask(
    session: manager::ManagerView,
    rejected: Option<Seq<char>>,
    now: u64,
    s: refresh_laws::Surroundings,
) -> refresh_laws::Outcome {
    match session.token_step(rejected, now) {
        manager::TokenStepView::Finished(result) => refresh_laws::Outcome {
            result,
            request: None,
            written: None,
            before: session,
            after: session,
        },
        manager::TokenStepView::Refresh(task) => refresh_laws::run(task, s),
    }
}

/// A refresh, and when it was asked for.
pub ghost struct Refresh {
    pub task: refresh::TaskView,
    pub s: refresh_laws::Surroundings,
    /// Which of the sessions of a login it was asked of, and at what second.
    pub asked_at: int,
    pub asked_now: u64,
}

/// Whether the last step of a refresh finds the session in its state `i`. A refresh of
/// the revision of this session was asked for in this login, in that state or in an
/// earlier one; a refresh of another revision may come from anywhere.
pub open spec fn ends_at(sessions: Seq<manager::ManagerView>, r: Refresh, i: int) -> bool {
    &&& refresh_laws::run(r.task, r.s).before == sessions[i]
    &&& r.task.revision == sessions[i].revision ==> {
        &&& 0 <= r.asked_at <= i
        &&& sessions[r.asked_at].token_step(r.task.rejected, r.asked_now)
            == manager::TokenStepView::Refresh(r.task)
    }
}

/// A login: the states of the session from an explicit change on to the next. It begins
/// with credentials, and goes from state to state by the refreshes that end in it, of
/// which any number may be under way at once.
pub open spec fn one_login(
    sessions: Seq<manager::ManagerView>,
    refreshes: Seq<Refresh>,
) -> bool {
    &&& sessions.len() == refreshes.len() + 1
    &&& sessions[0].credentials is Some
    &&& forall|i: int|
        0 <= i < refreshes.len() ==> {
            &&& ends_at(sessions, #[trigger] refreshes[i], i)
            &&& sessions[i + 1] == refresh_laws::run(refreshes[i].task, refreshes[i].s).after
        }
}

/// Whether a token and its account are of the account and the user of credentials.
pub open spec fn belongs(
    c: credentials::CredentialsView,
    grant: (Seq<char>, Option<Seq<char>>),
) -> bool {
    &&& grant.1 == c.account_id
    &&& jwt::claims(grant.0).subject == jwt::claims(c.access_token).subject
}

/// The account stays until an explicit change: after any number of refreshes the session
/// is still logged in, at the same revision, from the same source, to the same account
/// and the same user.
pub proof fn the_account_stays_until_an_explicit_change(
    sessions: Seq<manager::ManagerView>,
    refreshes: Seq<Refresh>,
    i: int,
)
    requires
        one_login(sessions, refreshes),
        0 <= i < sessions.len(),
    ensures
        sessions[i].revision == sessions[0].revision,
        sessions[i].file_path == sessions[0].file_path,
        sessions[i].refresh_url == sessions[0].refresh_url,
        sessions[i].credentials is Some,
        sessions[i].credentials->0.source == sessions[0].credentials->0.source,
        credentials::account_check(sessions[0].credentials->0, sessions[i].credentials->0) is Ok,
    decreases i,
{
    if i > 0 {
        let r = refreshes[i - 1];
        assert(ends_at(sessions, r, i - 1));
        the_account_stays_until_an_explicit_change(sessions, refreshes, i - 1);
        refresh_laws::session_stays_with_its_account(r.task, r.s);
        refresh_laws::changed_login_is_not_undone(r.task, r.s);
        if r.task.revision == sessions[i - 1].revision {
            the_account_stays_until_an_explicit_change(sessions, refreshes, r.asked_at);
            manager::rejection_and_expiry_force_a_refresh(
                sessions[r.asked_at],
                r.task.rejected,
                r.asked_now,
            );
        }
    }
}

/// Every refresh that ends in a login gives out tokens of the account and the user of
/// that login only, whatever other refreshes did meanwhile, and whether it ends at the
/// refresh gate or later.
pub proof fn refreshes_of_a_login_give_one_account(
    sessions: Seq<manager::ManagerView>,
    refreshes: Seq<Refresh>,
    r: Refresh,
    i: int,
)
    requires
        one_login(sessions, refreshes),
        0 <= i < sessions.len(),
        ends_at(sessions, r, i),
    ensures
        refresh_laws::run(r.task, r.s).result matches Ok(grant) ==> belongs(
            sessions[0].credentials->0,
            grant,
        ),
{
    the_account_stays_until_an_explicit_change(sessions, refreshes, i);
    refresh_laws::changed_login_is_not_undone(r.task, r.s);
    if r.task.revision == sessions[i].revision {
        the_account_stays_until_an_explicit_change(sessions, refreshes, r.asked_at);
        manager::rejection_and_expiry_force_a_refresh(
            sessions[r.asked_at],
            r.task.rejected,
            r.asked_now,
        );
    }
}

/// A request for a token within a login: the state of the session that it is put to, and
/// the one that its last step finds.
pub ghost struct Request {
    pub at: int,
    pub rejected: Option<Seq<char>>,
    pub now: u64,
    pub s: refresh_laws::Surroundings,
    pub end: int,
}

impl Request {
    /// What it comes to.
    pub open spec fn outcome(self, sessions: Seq<manager::ManagerView>) -> refresh_laws::Outcome {
        ask(sessions[self.at], self.rejected, self.now, self.s)
    }

    /// Whether it is put and ends within a login.
    pub open spec fn within(self, sessions: Seq<manager::ManagerView>) -> bool {
        &&& 0 <= self.at <= self.end < sessions.len()
        &&& self.outcome(sessions).before == sessions[self.end]
    }
}

/// Every answer within a login is of one account and one user, those that it began with.
pub proof fn answers_of_a_login_are_of_one_account(
    sessions: Seq<manager::ManagerView>,
    refreshes: Seq<Refresh>,
    q: Request,
)
    requires
        one_login(sessions, refreshes),
        q.within(sessions),
    ensures
        q.outcome(sessions).result matches Ok(grant) ==> belongs(
            sessions[0].credentials->0,
            grant,
        ),
{
    the_account_stays_until_an_explicit_change(sessions, refreshes, q.at);
    if let manager::TokenStepView::Refresh(task) = sessions[q.at].token_step(q.rejected, q.now) {
        manager::rejection_and_expiry_force_a_refresh(sessions[q.at], q.rejected, q.now);
        refreshes_of_a_login_give_one_account(
            sessions,
            refreshes,
            Refresh { task, s: q.s, asked_at: q.at, asked_now: q.now },
            q.end,
        );
    }
}

/// A rejected token is never handed back without a rotation, whatever its expiry: an
/// answer for which nothing was sent to the provider is another token, which was found
/// unexpired at the step that gave it.
pub proof fn a_rejected_token_is_not_handed_back(
    session: manager::ManagerView,
    rejected: Seq<char>,
    now: u64,
    s: refresh_laws::Surroundings,
)
    ensures
        ask(session, Some(rejected), now, s).result matches Ok(grant) ==> ask(
            session,
            Some(rejected),
            now,
            s,
        ).request is None ==> {
            &&& grant.0 != rejected
            &&& {
                ||| !jwt::expired(grant.0, now)
                ||| !jwt::expired(grant.0, s.gate_now)
                ||| !jwt::expired(grant.0, s.read_now)
            }
        },
{
}

/// The server rejects a token that the session has given out, expired or not, and no
/// explicit change comes between. Asking for another one then gives a token of the same
/// account and the same user, or none; it gives the rejected token back only after a
/// request to the provider; and where the session and its file still hold the rejected
/// token, and the file a refresh token, that request is made.
pub proof fn a_rejection_within_a_login_forces_rotation(
    sessions: Seq<manager::ManagerView>,
    refreshes: Seq<Refresh>,
    first: Request,
    second: Request,
)
    requires
        one_login(sessions, refreshes),
        first.within(sessions),
        second.within(sessions),
        first.outcome(sessions).result is Ok,
        second.rejected == Some(first.outcome(sessions).result->Ok_0.0),
    ensures
        ({
            let given = first.outcome(sessions).result->Ok_0;
            let o = second.outcome(sessions);
            &&& o.result matches Ok(grant) ==> {
                &&& grant.1 == given.1
                &&& jwt::claims(grant.0).subject == jwt::claims(given.0).subject
            }
            &&& o.result matches Ok(grant) ==> o.request is None ==> {
                &&& grant.0 != given.0
                &&& {
                    ||| !jwt::expired(grant.0, second.now)
                    ||| !jwt::expired(grant.0, second.s.gate_now)
                    ||| !jwt::expired(grant.0, second.s.read_now)
                }
            }
            &&& still_holds(sessions[second.at], given.0, second.s) ==> o.request is Some
                && o.request->0.refresh_token == auth_file::accepted(
                second.s.read,
            )->Ok_0.1.tokens.refresh_token->0
        }),
{
    answers_of_a_login_are_of_one_account(sessions, refreshes, first);
    answers_of_a_login_are_of_one_account(sessions, refreshes, second);
    let given = first.outcome(sessions).result->Ok_0;
    a_rejected_token_is_not_handed_back(sessions[second.at], given.0, second.now, second.s);
    if still_holds(sessions[second.at], given.0, second.s) {
        let session = sessions[second.at];
        manager::rejection_and_expiry_force_a_refresh(session, second.rejected, second.now);
        let task = session.token_step(second.rejected, second.now)->Refresh_0;
        refresh_laws::a_rejected_token_is_rotated(task, second.s);
    }
}

/// Whether a file session and its file hold `token` all along: the session when it is
/// asked and at the refresh gate, the file once it is locked, with a refresh token, and
/// of the same account.
pub open spec fn still_holds(
    session: manager::ManagerView,
    token: Seq<char>,
    s: refresh_laws::Surroundings,
) -> bool {
    &&& session.credentials matches Some(c) && {
        &&& c.access_token == token
        &&& c.source is CodexFile
        &&& s.lock is Ok
        &&& auth_file::accepted(s.read) matches Ok((_, file)) && {
            &&& file.tokens.access_token == token
            &&& credentials::account_check(
                c,
                auth_file::credentials_in(file, c.source->CodexFile_0),
            ) is Ok
            &&& file.tokens.refresh_token matches Some(t) && t.len() > 0
        }
    }
    &&& s.gate_session.revision == session.revision
    &&& s.gate_session.credentials matches Some(c) && c.access_token == token
}

} // verus!
