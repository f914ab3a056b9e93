//! What each operation on the credentials, the credential file and the session does,
//! said of what goes in and what comes out.

use std::path::PathBuf;

use vstd::prelude::*;

use crate::auth_file;
use crate::auth_file::{
    AuthFileRead, CodexAuthFile, LockEvent, LockStep, RefreshResponse, WriteStage, WriteStep,
};
use crate::credentials;
use crate::credentials::{CredentialSource, Credentials};
use crate::json;
use crate::jwt;
use crate::manager;
use crate::manager::{CodexAuthManager, TokenResult, TokenStep};
use crate::text;

verus! {

/// A token is used exactly where it claims an expiry more than 300 seconds away, and is
/// not the one that was rejected. With it goes its own account.
pub proof fn usable_tokens_are_good_and_not_rejected(
    c: credentials::CredentialsView,
    expiry: Option<u64>,
    rejected: Option<Seq<char>>,
    now: u64,
)
    ensures
        c.usable(rejected, now) <==> {
            &&& jwt::claims(c.access_token).expiry is Some
            &&& jwt::claims(c.access_token).expiry->0 > now + 300
            &&& rejected != Some(c.access_token)
        },
        c.usable_until(expiry, rejected, now) <==> {
            &&& expiry is Some
            &&& expiry->0 > now + 300
            &&& rejected != Some(c.access_token)
        },
        c.grant() == (c.access_token, c.account_id),
{
}

/// Credentials belong together exactly where their accounts are the same and their tokens
/// claim the same user; a changed account is told before a changed user.
pub proof fn accounts_and_users_have_to_agree(
    a: credentials::CredentialsView,
    b: credentials::CredentialsView,
)
    ensures
        credentials::account_check(a, b) is Ok <==> a.account_id == b.account_id && jwt::claims(
            a.access_token,
        ).subject == jwt::claims(b.access_token).subject,
        a.account_id != b.account_id ==> credentials::account_check(a, b) == Err::<(), Seq<char>>(
            "Codex account changed. Import credentials again to confirm the new account."@,
        ),
        a.account_id == b.account_id && credentials::account_check(a, b) is Err
            ==> credentials::account_check(a, b) == Err::<(), Seq<char>>(
            "Codex user changed. Import credentials again to confirm the new user."@,
        ),
{
}

/// The same of the accounts and the users themselves.
pub proof fn identities_have_to_agree(
    expected_account: Option<Seq<char>>,
    actual_account: Option<Seq<char>>,
    expected_subject: Option<Seq<char>>,
    actual_subject: Option<Seq<char>>,
)
    ensures
        ({
            let r = credentials::identity_check(
                expected_account,
                actual_account,
                expected_subject,
                actual_subject,
            );
            &&& r is Ok <==> expected_account == actual_account && expected_subject
                == actual_subject
            &&& expected_account != actual_account ==> r == Err::<(), Seq<char>>(
                "Codex account changed. Import credentials again to confirm the new account."@,
            )
            &&& expected_account == actual_account && expected_subject != actual_subject ==> r
                == Err::<(), Seq<char>>(
                "Codex user changed. Import credentials again to confirm the new user."@,
            )
        }),
{
}

/// A file that was read is accepted as it is, with its contents, exactly where its access
/// token holds anything but white space. What could not be read or parsed is refused with
/// the reason.
pub proof fn files_with_a_token_are_accepted(
    contents: Seq<char>,
    file: auth_file::AuthFileView,
    e: Seq<char>,
)
    ensures
        ({
            let read = auth_file::accepted(auth_file::ReadView::Parsed(contents, file));
            let token = file.tokens.access_token;
            &&& read is Ok <==> exists|i: int|
                0 <= i < token.len() && !text::white_space(#[trigger] token[i])
            &&& read is Ok ==> read == Ok::<(Seq<char>, auth_file::AuthFileView), Seq<char>>(
                (contents, file),
            )
            &&& read is Err ==> read == Err::<(Seq<char>, auth_file::AuthFileView), Seq<char>>(
                "Codex credentials contain an empty access token"@,
            )
        }),
        auth_file::accepted(auth_file::ReadView::Unreadable(e)) == Err::<
            (Seq<char>, auth_file::AuthFileView),
            Seq<char>,
        >("Failed to read Codex credentials: "@ + e),
        auth_file::accepted(auth_file::ReadView::Unparsable(e)) == Err::<
            (Seq<char>, auth_file::AuthFileView),
            Seq<char>,
        >("Failed to parse Codex credentials: "@ + e),
{
    text::trimmed_is_empty_iff_blank(file.tokens.access_token);
}

/// The credentials of a file are its access token, as it stands there, from that file. The
/// account is the one that the token claims; where it claims none, the text under
/// `account_id` beside the tokens; else there is none.
pub proof fn file_credentials_are_those_of_the_file(
    file: auth_file::AuthFileView,
    path: PathBuf,
    account: Seq<char>,
)
    ensures
        ({
            let c = auth_file::credentials_in(file, path);
            let claimed = jwt::claims(file.tokens.access_token).account_id;
            let beside = json::json_members(file.tokens.extra);
            &&& c.access_token == file.tokens.access_token
            &&& c.source == CredentialSource::CodexFile(path)
            &&& claimed is Some ==> c.account_id == claimed
            &&& claimed is None ==> (c.account_id == Some(account) <==> beside.contains_key(
                "account_id"@,
            ) && beside["account_id"@] == json::JsonContent::Text(account))
        }),
{
}

/// The same where the claimed and the listed account are given.
pub proof fn a_claimed_account_counts_before_a_listed_one(
    file: auth_file::AuthFileView,
    path: PathBuf,
    claimed: Option<Seq<char>>,
    listed: Option<Seq<char>>,
)
    ensures
        ({
            let c = auth_file::credentials_with(file, path, claimed, listed);
            &&& c.access_token == file.tokens.access_token
            &&& c.source == CredentialSource::CodexFile(path)
            &&& claimed is Some ==> c.account_id == claimed
            &&& claimed is None ==> c.account_id == listed
        }),
{
}

/// A rotated file has the granted access token, the granted refresh and id tokens where
/// any were granted, and everything else as it was.
pub proof fn rotation_replaces_the_granted_tokens_only(
    file: auth_file::AuthFileView,
    response: auth_file::ResponseView,
)
    ensures
        ({
            let r = auth_file::rotated(file, response);
            &&& r.tokens.access_token == response.access_token
            &&& response.refresh_token is Some ==> r.tokens.refresh_token == response.refresh_token
            &&& response.refresh_token is None ==> r.tokens.refresh_token
                == file.tokens.refresh_token
            &&& response.id_token is Some ==> r.tokens.id_token == response.id_token
            &&& response.id_token is None ==> r.tokens.id_token == file.tokens.id_token
            &&& r.tokens.extra == file.tokens.extra
            &&& r.extra == file.extra
        }),
{
}

/// Replacing the file takes the six stages in their order, and stops at the first that
/// fails, with its reason; it is done exactly after the last.
pub proof fn stages_are_taken_in_order(
    outcome: spec_fn(WriteStage) -> Result<(), Seq<char>>,
    n: int,
)
    requires
        0 <= n < 6,
    ensures
        ({
            let all = seq![
                WriteStage::FindDirectory,
                WriteStage::CreateTemporary,
                WriteStage::Serialize,
                WriteStage::Flush,
                WriteStage::Replace,
                WriteStage::SyncDirectory,
            ];
            let taken = auth_file::stages_from(WriteStage::FindDirectory, outcome);
            &&& (forall|i: int| 0 <= i < 6 ==> outcome(#[trigger] all[i]) is Ok) ==> taken == all
            &&& (forall|i: int| 0 <= i < n ==> outcome(#[trigger] all[i]) is Ok) && outcome(all[n])
                is Err ==> taken == all.take(n + 1)
            &&& n < 5 ==> auth_file::after_stage(all[n], Ok(()))
                == auth_file::WriteStepView::Continue(all[n + 1])
            &&& auth_file::after_stage(all[5], Ok(())) == auth_file::WriteStepView::Done
        }),
{
    let all = seq![
        WriteStage::FindDirectory,
        WriteStage::CreateTemporary,
        WriteStage::Serialize,
        WriteStage::Flush,
        WriteStage::Replace,
        WriteStage::SyncDirectory,
    ];
    reveal_with_fuel(auth_file::stages_from, 7);
    let taken = auth_file::stages_from(WriteStage::FindDirectory, outcome);
    assert(outcome(all[0]) is Ok || outcome(all[0]) is Err);
    if forall|i: int| 0 <= i < 6 ==> outcome(#[trigger] all[i]) is Ok {
        assert(outcome(all[1]) is Ok && outcome(all[2]) is Ok && outcome(all[3]) is Ok && outcome(
            all[4],
        ) is Ok && outcome(all[5]) is Ok);
        assert(taken == all);
    }
    if (forall|i: int| 0 <= i < n ==> outcome(#[trigger] all[i]) is Ok) && outcome(all[n]) is Err {
        assert(n > 0 ==> outcome(all[0]) is Ok);
        assert(n > 1 ==> outcome(all[1]) is Ok);
        assert(n > 2 ==> outcome(all[2]) is Ok);
        assert(n > 3 ==> outcome(all[3]) is Ok);
        assert(n > 4 ==> outcome(all[4]) is Ok);
        assert(taken == all.take(n + 1));
    }
}

/// A stage that fails ends the replacement, and the user is told which it was and why.
pub proof fn failed_stages_are_told(e: Seq<char>)
    ensures
        auth_file::after_stage(WriteStage::FindDirectory, Err(e))
            == auth_file::WriteStepView::GiveUp("Codex credential directory is missing"@),
        auth_file::after_stage(WriteStage::CreateTemporary, Err(e))
            == auth_file::WriteStepView::GiveUp("Failed to create credential update: "@ + e),
        auth_file::after_stage(WriteStage::Serialize, Err(e)) == auth_file::WriteStepView::GiveUp(
            "Failed to serialize credentials: "@ + e,
        ),
        auth_file::after_stage(WriteStage::Flush, Err(e)) == auth_file::WriteStepView::GiveUp(
            "Failed to flush credentials: "@ + e,
        ),
        auth_file::after_stage(WriteStage::Replace, Err(e)) == auth_file::WriteStepView::GiveUp(
            "Failed to replace credentials: "@ + e,
        ),
        auth_file::after_stage(WriteStage::SyncDirectory, Err(e))
            == auth_file::WriteStepView::GiveUp("Failed to sync credential directory: "@ + e),
{
}

/// Without a filled `CODEX_HOME` the file is in `.codex` below `HOME`, where that is set,
/// whatever `USERPROFILE` is; else below `USERPROFILE`; and nowhere where none is set.
pub proof fn homes_are_tried_in_order<P>(
    codex_home: Option<(P, usize)>,
    directory: P,
    user_profile: Option<P>,
)
    requires
        codex_home matches Some(filled) ==> filled.1 == 0,
    ensures
        auth_file::file_location(codex_home, Some(directory), user_profile) == Some(
            (directory, ".codex/auth.json"@),
        ),
        auth_file::file_location(codex_home, None, Some(directory)) == Some(
            (directory, ".codex/auth.json"@),
        ),
        auth_file::file_location(codex_home, None::<P>, None::<P>) == None::<(P, Seq<char>)>,
{
}

/// Every explicit change moves to the next of 2^64 revisions, and keeps the configuration.
pub proof fn explicit_changes_count_on(
    session: manager::ManagerView,
    c: Option<credentials::CredentialsView>,
)
    ensures
        session.changed_to(c).credentials == c,
        session.changed_to(c).revision == (session.revision + 1) % 0x1_0000_0000_0000_0000,
        manager::next_revision(session.revision) == (session.revision + 1)
            % 0x1_0000_0000_0000_0000,
        session.changed_to(c).file_path == session.file_path,
        session.changed_to(c).refresh_url == session.refresh_url,
{
}

/// An import that succeeds leaves the session with exactly the credentials of the file,
/// whatever it held before, at the next revision.
pub proof fn an_import_replaces_the_credentials(
    session: manager::ManagerView,
    path: PathBuf,
    contents: Seq<char>,
    file: auth_file::AuthFileView,
    i: int,
    account: Seq<char>,
)
    requires
        session.file_path == Some(path),
        0 <= i < file.tokens.access_token.len(),
        !text::white_space(file.tokens.access_token[i]),
    ensures
        ({
            let read = Some(auth_file::ReadView::Parsed(contents, file));
            let after = session.reloaded(read);
            let claimed = jwt::claims(file.tokens.access_token).account_id;
            let beside = json::json_members(file.tokens.extra);
            &&& after.credentials matches Some(c) && {
                &&& c.access_token == file.tokens.access_token
                &&& c.source == CredentialSource::CodexFile(path)
                &&& claimed is Some ==> c.account_id == claimed
                &&& claimed is None ==> (c.account_id == Some(account) <==> beside.contains_key(
                    "account_id"@,
                ) && beside["account_id"@] == json::JsonContent::Text(account))
            }
            &&& after.revision == (session.revision + 1) % 0x1_0000_0000_0000_0000
            &&& after.file_path == session.file_path
            &&& after.refresh_url == session.refresh_url
            &&& session.imported(read) == after.credentials
            &&& session.import_failure(read) is None
        }),
{
    files_with_a_token_are_accepted(contents, file, seq![]);
}

/// What an import gave is what the session holds from then on, whatever it held before; an
/// import that gave nothing ends a session from a file and leaves every other one.
pub proof fn what_was_loaded_is_held(
    session: manager::ManagerView,
    loaded: Option<credentials::CredentialsView>,
)
    ensures
        ({
            let after = session.after_import(loaded);
            let from_file = session.credentials is Some && session.credentials->0.source
                is CodexFile;
            &&& loaded is Some ==> after.credentials == loaded
            &&& loaded is None && from_file ==> after.credentials is None
            &&& loaded is Some || from_file ==> after.revision == (session.revision + 1)
                % 0x1_0000_0000_0000_0000
            &&& loaded is None && !from_file ==> after == session
            &&& after.file_path == session.file_path
            &&& after.refresh_url == session.refresh_url
        }),
{
}

/// An import without a file gives nothing and says nothing; one of a file that cannot be
/// used gives nothing and says why. A session from a file is then over, and every other one
/// stays as it is.
pub proof fn failed_imports_give_nothing(
    session: manager::ManagerView,
    read: Option<auth_file::ReadView>,
    e: Seq<char>,
)
    requires
        session.file_path is None || read is None || auth_file::accepted(read->0) == Err::<
            (Seq<char>, auth_file::AuthFileView),
            Seq<char>,
        >(e),
    ensures
        session.imported(read) is None,
        session.import_failure(read) == (if session.file_path is None || read is None {
            None
        } else {
            Some(e)
        }),
        session.credentials is Some && session.credentials->0.source is CodexFile ==> {
            &&& session.reloaded(read).credentials is None
            &&& session.reloaded(read).revision == (session.revision + 1)
                % 0x1_0000_0000_0000_0000
            &&& session.reloaded(read).file_path == session.file_path
            &&& session.reloaded(read).refresh_url == session.refresh_url
        },
        session.credentials is None || session.credentials->0.source is Manual ==> session.reloaded(
            read,
        ) == session,
{
}

/// A token that the user enters is what the session holds from then on, without the white
/// space around it and with the account that it claims, whatever the session held before.
pub proof fn an_entered_token_replaces_the_credentials(
    session: manager::ManagerView,
    before: Seq<char>,
    token: Seq<char>,
    after: Seq<char>,
    account_id: Option<Seq<char>>,
)
    requires
        forall|i: int| 0 <= i < before.len() ==> text::white_space(#[trigger] before[i]),
        forall|i: int| 0 <= i < after.len() ==> text::white_space(#[trigger] after[i]),
        token.len() > 0,
        !text::white_space(token.first()),
        !text::white_space(token.last()),
    ensures
        ({
            let entered = session.entered(before + token + after);
            let given = session.after_entry(before + token + after, account_id);
            &&& entered is Ok && given is Ok
            &&& entered->Ok_0.credentials == Some(
                credentials::CredentialsView {
                    access_token: token,
                    account_id: jwt::claims(token).account_id,
                    source: CredentialSource::Manual,
                },
            )
            &&& given->Ok_0.credentials == Some(
                credentials::CredentialsView {
                    access_token: token,
                    account_id,
                    source: CredentialSource::Manual,
                },
            )
            &&& entered->Ok_0.revision == (session.revision + 1) % 0x1_0000_0000_0000_0000
            &&& given->Ok_0.revision == (session.revision + 1) % 0x1_0000_0000_0000_0000
            &&& entered->Ok_0.file_path == session.file_path && given->Ok_0.file_path
                == session.file_path
            &&& entered->Ok_0.refresh_url == session.refresh_url && given->Ok_0.refresh_url
                == session.refresh_url
        }),
{
    text::trimming_removes_exactly_the_padding(before, token, after);
}

/// A blank token is refused in these words.
pub proof fn blank_tokens_are_refused(
    session: manager::ManagerView,
    token: Seq<char>,
    account_id: Option<Seq<char>>,
)
    requires
        forall|i: int| 0 <= i < token.len() ==> text::white_space(#[trigger] token[i]),
    ensures
        session.entered(token) == Err::<manager::ManagerView, Seq<char>>(
            "Access token must not be empty"@,
        ),
        session.after_entry(token, account_id) == Err::<manager::ManagerView, Seq<char>>(
            "Access token must not be empty"@,
        ),
{
    text::trimmed_is_empty_iff_blank(token);
}

/// What was entered is what is given out: a good token that the user enters answers the
/// next request, whatever the session held before.
pub proof fn entered_tokens_are_given_out(
    session: manager::ManagerView,
    before: Seq<char>,
    token: Seq<char>,
    after: Seq<char>,
    now: u64,
)
    requires
        forall|i: int| 0 <= i < before.len() ==> text::white_space(#[trigger] before[i]),
        forall|i: int| 0 <= i < after.len() ==> text::white_space(#[trigger] after[i]),
        token.len() > 0,
        !text::white_space(token.first()),
        !text::white_space(token.last()),
        jwt::claims(token).expiry is Some,
        jwt::claims(token).expiry->0 > now + 300,
    ensures
        session.entered(before + token + after)->Ok_0.token_step(None, now)
            == manager::TokenStepView::Finished(Ok((token, jwt::claims(token).account_id))),
{
    an_entered_token_replaces_the_credentials(session, before, token, after, None);
}

/// What was imported is what is given out: a good token in the file answers the next
/// request, whatever the session held before.
pub proof fn imported_tokens_are_given_out(
    session: manager::ManagerView,
    path: PathBuf,
    contents: Seq<char>,
    file: auth_file::AuthFileView,
    now: u64,
)
    requires
        session.file_path == Some(path),
        jwt::claims(file.tokens.access_token).expiry is Some,
        jwt::claims(file.tokens.access_token).expiry->0 > now + 300,
        jwt::claims(file.tokens.access_token).account_id is Some,
    ensures
        session.reloaded(Some(auth_file::ReadView::Parsed(contents, file))).token_step(None, now)
            == manager::TokenStepView::Finished(
            Ok((file.tokens.access_token, jwt::claims(file.tokens.access_token).account_id)),
        ),
{
    jwt::unexpired_token_is_not_blank(file.tokens.access_token, now);
}

/// A refresh that ends at the revision that it began with leaves the session with exactly
/// the refreshed credentials, and gives them out; at any other revision it changes nothing
/// and gives out nothing.
pub proof fn refreshed_credentials_are_installed(
    session: manager::ManagerView,
    revision: u64,
    c: credentials::CredentialsView,
)
    ensures
        ({
            let (after, result) = session.installed(revision, c);
            &&& session.revision == revision ==> {
                &&& after.credentials == Some(c)
                &&& result == Ok::<(Seq<char>, Option<Seq<char>>), Seq<char>>(
                    (c.access_token, c.account_id),
                )
            }
            &&& session.revision != revision ==> {
                &&& after.credentials == session.credentials
                &&& result == Err::<(Seq<char>, Option<Seq<char>>), Seq<char>>(
                    "Codex login changed during refresh; try again"@,
                )
            }
            &&& after.revision == session.revision
            &&& after.file_path == session.file_path
            &&& after.refresh_url == session.refresh_url
        }),
{
}

/// How a request for a token is answered: with the token and the account of the session
/// where the token can be used; else a manual session says that it has to be entered again,
/// and a session from a file is refreshed as it is.
pub proof fn requests_for_a_token_are_answered(
    session: manager::ManagerView,
    rejected: Option<Seq<char>>,
    now: u64,
    usable: bool,
)
    ensures
        session.credentials is None ==> {
            &&& !session.has_usable_token(rejected, now)
            &&& session.token_step(rejected, now) == manager::TokenStepView::Finished(
                Err("Not logged in to Codex"@),
            )
            &&& session.token_decision(rejected, usable) == manager::TokenStepView::Finished(
                Err("Not logged in to Codex"@),
            )
        },
        session.credentials matches Some(c) ==> {
            let good = jwt::claims(c.access_token).expiry is Some && jwt::claims(
                c.access_token,
            ).expiry->0 > now + 300 && rejected != Some(c.access_token);
            let given = manager::TokenStepView::Finished(Ok((c.access_token, c.account_id)));
            let reenter = manager::TokenStepView::Finished(
                Err(
                    "The manually entered Codex token expired or was rejected. Enter a new token; file credentials will not be substituted."@,
                ),
            );
            let refreshed = manager::TokenStepView::Refresh(
                crate::refresh::TaskView { revision: session.revision, initial: c, rejected },
            );
            &&& session.has_usable_token(rejected, now) == good
            &&& good ==> session.token_step(rejected, now) == given
            &&& !good && c.source is Manual ==> session.token_step(rejected, now) == reenter
            &&& !good && c.source is CodexFile ==> session.token_step(rejected, now) == refreshed
            &&& usable ==> session.token_decision(rejected, usable) == given
            &&& !usable && c.source is Manual ==> session.token_decision(rejected, usable)
                == reenter
            &&& !usable && c.source is CodexFile ==> session.token_decision(rejected, usable)
                == refreshed
        },
{
}

/// A refresh whose task ends is answered with what it came to, and one whose task fails
/// with the reason.
pub proof fn tasks_are_answered_with_their_result(
    result: manager::TokenResultView,
    e: Seq<char>,
)
    ensures
        manager::task_answer(Ok(result)) == result,
        manager::task_answer(Err(e)) == Err::<(Seq<char>, Option<Seq<char>>), Seq<char>>(
            "Credential refresh task failed: "@ + e,
        ),
{
}

/// What credentials and sessions show is all that they hold.
pub proof fn sessions_show_what_they_hold(
    m: CodexAuthManager,
    c: Credentials,
    step: TokenStep,
    outcome: Result<(), String>,
)
    ensures
        c@.access_token == c.access_token@,
        c@.account_id == text::text_of(c.account_id),
        c@.source == c.source,
        m@.revision == m.revision,
        m@.credentials is Some <==> m.credentials is Some,
        m.credentials matches Some(held) ==> m@.credentials == Some(held@),
        m@.file_path == m.file_path,
        m@.refresh_url == m.refresh_url@,
        credentials::credentials_of(Some(c)) == Some(c@),
        credentials::credentials_of(None::<Credentials>) is None,
        step matches TokenStep::Finished(r) ==> step@ == manager::TokenStepView::Finished(
            manager::token_result_of(r),
        ),
        step matches TokenStep::Refresh(task) ==> step@ == manager::TokenStepView::Refresh(task@),
        credentials::outcome_of(outcome) is Ok <==> outcome is Ok,
        outcome matches Err(e) ==> credentials::outcome_of(outcome) == Err::<(), Seq<char>>(e@),
{
}

/// What answers to requests for a token show is all that they hold.
pub proof fn answers_show_what_they_hold(result: TokenResult, joined: Result<TokenResult, String>)
    ensures
        result matches Ok(grant) ==> manager::token_result_of(result) == Ok::<
            (Seq<char>, Option<Seq<char>>),
            Seq<char>,
        >((grant.0@, text::text_of(grant.1))),
        result matches Err(e) ==> manager::token_result_of(result) == Err::<
            (Seq<char>, Option<Seq<char>>),
            Seq<char>,
        >(e@),
        joined matches Ok(r) ==> manager::joined_of(joined) == Ok::<
            manager::TokenResultView,
            Seq<char>,
        >(manager::token_result_of(r)),
        joined matches Err(e) ==> manager::joined_of(joined) == Err::<
            manager::TokenResultView,
            Seq<char>,
        >(e@),
{
}

/// What files, reads and steps show is all that they hold.
pub proof fn files_show_what_they_hold(
    file: CodexAuthFile,
    response: RefreshResponse,
    read: AuthFileRead,
    accepted: Result<(String, CodexAuthFile), String>,
    lock: LockStep,
    write: WriteStep,
)
    ensures
        file@.tokens.access_token == file.tokens.access_token@,
        file@.tokens.refresh_token == text::text_of(file.tokens.refresh_token),
        file@.tokens.id_token == text::text_of(file.tokens.id_token),
        file@.tokens.extra == file.tokens.extra,
        file@.extra == file.extra,
        response@.access_token == response.access_token@,
        response@.refresh_token == text::text_of(response.refresh_token),
        response@.id_token == text::text_of(response.id_token),
        read matches AuthFileRead::Unreadable(e) ==> read@ == auth_file::ReadView::Unreadable(e@),
        read matches AuthFileRead::Unparsable(e) ==> read@ == auth_file::ReadView::Unparsable(e@),
        read matches AuthFileRead::Parsed(contents, parsed) ==> read@
            == auth_file::ReadView::Parsed(contents@, parsed@),
        auth_file::read_of(Some(read)) == Some(read@),
        auth_file::read_of(None::<AuthFileRead>) is None,
        accepted matches Ok(ok) ==> auth_file::read_result_of(accepted) == Ok::<
            (Seq<char>, auth_file::AuthFileView),
            Seq<char>,
        >((ok.0@, ok.1@)),
        accepted matches Err(e) ==> auth_file::read_result_of(accepted) == Err::<
            (Seq<char>, auth_file::AuthFileView),
            Seq<char>,
        >(e@),
        lock is Held <==> lock@ is Held,
        lock matches LockStep::RetryAfter(millis) ==> lock@ == auth_file::LockStepView::RetryAfter(
            millis,
        ),
        lock matches LockStep::GiveUp(e) ==> lock@ == auth_file::LockStepView::GiveUp(e@),
        write is Done <==> write@ is Done,
        write matches WriteStep::Continue(stage) ==> write@ == auth_file::WriteStepView::Continue(
            stage,
        ),
        write matches WriteStep::GiveUp(e) ==> write@ == auth_file::WriteStepView::GiveUp(e@),
{
}

/// What a location shows is the directory and the path below it.
pub proof fn locations_show_what_they_hold<P>(directory: P, below: &'static str)
    ensures
        auth_file::location_of(Some((directory, below))) == Some((directory, below@)),
        auth_file::location_of(None::<(P, &'static str)>) is None,
{
}

/// A session begins logged out, at revision 0, with its configuration; what could be read
/// of the file is imported at once, which counts as the first change.
pub proof fn sessions_begin_with_an_import(
    path: PathBuf,
    file_path: Option<PathBuf>,
    refresh_url: Seq<char>,
    contents: Seq<char>,
    file: auth_file::AuthFileView,
    read: Option<auth_file::ReadView>,
)
    ensures
        ({
            let s = manager::opened(
                Some(path),
                refresh_url,
                Some(auth_file::ReadView::Parsed(contents, file)),
            );
            auth_file::accepted(auth_file::ReadView::Parsed(contents, file)) is Ok ==> {
                &&& s.credentials == Some(auth_file::credentials_in(file, path))
                &&& s.revision == 1
                &&& s.file_path == Some(path)
                &&& s.refresh_url == refresh_url
            }
        }),
        ({
            let s = manager::opened(file_path, refresh_url, read);
            file_path is None || read is None || auth_file::accepted(read->0) is Err ==> {
                &&& s.credentials is None
                &&& s.revision == 0
                &&& s.file_path == file_path
                &&& s.refresh_url == refresh_url
            }
        }),
        manager::AUTH_TOKEN_URL@ == "https://auth.openai.com/oauth/token"@,
{
}

/// The user interface shows a login exactly where there are credentials, and a file exactly
/// where one is configured and there.
pub proof fn the_interface_shows_login_and_file(session: manager::ManagerView, is_file: bool)
    ensures
        manager::shown(session, is_file).is_logged_in <==> session.credentials is Some,
        manager::shown(session, is_file).has_auth_file <==> session.file_path is Some && is_file,
{
}

/// The wait for the lock ends with the lock exactly where it was acquired; while another
/// process holds it, it is tried again every 25 milliseconds; and any failure, or the end of
/// the time to wait, gives it up and is told with its reason.
pub proof fn the_lock_is_held_or_given_up(event: LockEvent)
    ensures
        auth_file::lock_decision(event) is Held <==> event is Acquired,
        event is WouldBlock <==> auth_file::lock_decision(event)
            == auth_file::LockStepView::RetryAfter(25),
        event matches LockEvent::OpenFailed(e) ==> auth_file::lock_decision(event)
            == auth_file::LockStepView::GiveUp("Failed to open credential lock: "@ + e@),
        event matches LockEvent::Failed(e) ==> auth_file::lock_decision(event)
            == auth_file::LockStepView::GiveUp("Failed to lock credentials: "@ + e@),
        event is TimedOut ==> auth_file::lock_decision(event) == auth_file::LockStepView::GiveUp(
            "Timed out waiting for Codex credential refresh"@,
        ),
        auth_file::LOCK_FILE_NAME@ == "auth.json.handy.lock"@,
{
}

} // verus!
