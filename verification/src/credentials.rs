//! Credentials are either an explicitly supplied access token or a file import.
//! Nothing falls back from one source or account to the other implicitly.

use std::path::PathBuf;

use vstd::prelude::*;

use crate::jwt;
use crate::text;

verus! {

/// A path in the file system. It is carried, never looked into.
#[verifier::external_type_specification]
#[verifier::external_body]
pub struct ExPathBuf(std::path::PathBuf);

/// `<std::path::PathBuf as Clone>::clone` returns the same path.
pub assume_specification[ <std::path::PathBuf as Clone>::clone ](path: &std::path::PathBuf) -> (r:
    std::path::PathBuf)
    ensures
        r == *path,
;

/// Where credentials came from.
pub enum CredentialSource {
    /// The user entered the token.
    Manual,
    /// The token was imported from the credential file at this path.
    CodexFile(PathBuf),
}

/// The token in use. Deliberately not printable.
pub struct Credentials {
    pub access_token: String,
    pub account_id: Option<String>,
    pub source: CredentialSource,
}

/// What `Credentials` hold.
pub ghost struct CredentialsView {
    pub access_token: Seq<char>,
    pub account_id: Option<Seq<char>>,
    pub source: CredentialSource,
}

impl View for Credentials {
    type V = CredentialsView;

    open spec fn view(&self) -> CredentialsView {
        CredentialsView {
            access_token: self.access_token@,
            account_id: text::text_of(self.account_id),
            source: self.source,
        }
    }
}

/// What optional credentials hold.
pub open spec fn credentials_of(c: Option<Credentials>) -> Option<CredentialsView> {
    match c {
        Some(c) => Some(c@),
        None => None,
    }
}

impl CredentialsView {
    /// The token with its account.
    pub open spec fn grant(self) -> (Seq<char>, Option<Seq<char>>) {
        (self.access_token, self.account_id)
    }

    /// Whether the token can be used at the second `now`: it is not expired, and
    /// it is not the one that the server has just rejected.
    pub open spec fn usable(self, rejected: Option<Seq<char>>, now: u64) -> bool {
        self.usable_until(jwt::claims(self.access_token).expiry, rejected, now)
    }

    /// Whether the token, which claims an expiry, can be used at the second `now`.
    pub open spec fn usable_until(
        self,
        expiry: Option<u64>,
        rejected: Option<Seq<char>>,
        now: u64,
    ) -> bool {
        !jwt::expired_by(expiry, now) && rejected != Some(self.access_token)
    }
}

impl Clone for CredentialSource {
    fn clone(&self) -> (r: Self)
        ensures
            r == *self,
    {
        match self {
            CredentialSource::Manual => CredentialSource::Manual,
            CredentialSource::CodexFile(path) => CredentialSource::CodexFile(path.clone()),
        }
    }
}

impl Clone for Credentials {
    fn clone(&self) -> (r: Self)
        ensures
            r@ == self@,
    {
        Credentials {
            access_token: self.access_token.clone(),
            account_id: text::copy_optional_text(&self.account_id),
            source: self.source.clone(),
        }
    }
}

impl Credentials {
    /// Whether the token can be used at the second `now`.
    pub fn is_usable(&self, rejected: &Option<String>, now: u64) -> (r: bool)
        ensures
            r == self@.usable(text::text_of(*rejected), now),
    {
        self.is_usable_until(jwt::token_claims(self.access_token.as_str()).expiry, rejected, now)
    }

    /// Whether the token, which claims an expiry, can be used at the second `now`.
    pub fn is_usable_until(&self, expiry: Option<u64>, rejected: &Option<String>, now: u64) -> (r:
        bool)
        ensures
            r == self@.usable_until(expiry, text::text_of(*rejected), now),
    {
        if jwt::is_expiry_passed(expiry, now) {
            return false;
        }
        match rejected {
            Some(token) => *token != self.access_token,
            None => true,
        }
    }

    /// The token with its account.
    pub fn to_grant(&self) -> (r: (String, Option<String>))
        ensures
            (r.0@, text::text_of(r.1)) == self@.grant(),
    {
        (self.access_token.clone(), text::copy_optional_text(&self.account_id))
    }
}

/// Whether two account names and two token subjects are the same, or what to tell
/// the user about the first that is not.
pub open spec fn identity_check(
    expected_account: Option<Seq<char>>,
    actual_account: Option<Seq<char>>,
    expected_subject: Option<Seq<char>>,
    actual_subject: Option<Seq<char>>,
) -> Result<(), Seq<char>> {
    if expected_account != actual_account {
        Err("Codex account changed. Import credentials again to confirm the new account."@)
    } else if expected_subject != actual_subject {
        Err("Codex user changed. Import credentials again to confirm the new user."@)
    } else {
        Ok(())
    }
}

/// Whether two credentials belong to one account and one user.
pub open spec fn account_check(expected: CredentialsView, actual: CredentialsView) -> Result<
    (),
    Seq<char>,
> {
    identity_check(
        expected.account_id,
        actual.account_id,
        jwt::claims(expected.access_token).subject,
        jwt::claims(actual.access_token).subject,
    )
}

/// What an outcome without a value says.
pub open spec fn outcome_of(r: Result<(), String>) -> Result<(), Seq<char>> {
    match r {
        Ok(()) => Ok(()),
        Err(e) => Err(e@),
    }
}

/// Compares two account names and two token subjects.
pub fn require_same_identity(
    expected_account: &Option<String>,
    actual_account: &Option<String>,
    expected_subject: &Option<String>,
    actual_subject: &Option<String>,
) -> (r: Result<(), String>)
    ensures
        outcome_of(r) == identity_check(
            text::text_of(*expected_account),
            text::text_of(*actual_account),
            text::text_of(*expected_subject),
            text::text_of(*actual_subject),
        ),
{
    if !text::same_optional_text(expected_account, actual_account) {
        return Err(
            "Codex account changed. Import credentials again to confirm the new account.".to_owned(),
        );
    }
    if !text::same_optional_text(expected_subject, actual_subject) {
        return Err(
            "Codex user changed. Import credentials again to confirm the new user.".to_owned(),
        );
    }
    Ok(())
}

/// Refuses credentials of another account. The account claim can be absent on some
/// tokens; a changed user subject is refused all the same.
pub fn require_same_account(expected: &Credentials, actual: &Credentials) -> (r: Result<
    (),
    String,
>)
    ensures
        outcome_of(r) == account_check(expected@, actual@),
{
    let expected_claims = jwt::token_claims(expected.access_token.as_str());
    let actual_claims = jwt::token_claims(actual.access_token.as_str());
    require_same_identity(
        &expected.account_id,
        &actual.account_id,
        &expected_claims.subject,
        &actual_claims.subject,
    )
}

/// Belonging to one account is an equivalence: credentials belong with themselves,
/// the order does not matter, and a chain of accepted changes ends in the account
/// that it began with.
pub proof fn same_account_is_an_equivalence(
    a: CredentialsView,
    b: CredentialsView,
    c: CredentialsView,
)
    ensures
        account_check(a, a) is Ok,
        account_check(a, b) is Ok <==> account_check(b, a) is Ok,
        account_check(a, b) is Ok && account_check(b, c) is Ok ==> account_check(a, c) is Ok,
{
}

} // verus!
