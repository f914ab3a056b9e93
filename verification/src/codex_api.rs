//! The endpoint, and the headers that a request carries.

use vstd::prelude::*;

use crate::manager::CodexAuthManager;
use crate::text;

verus! {

/// The provider's endpoint.
pub const PROD_API_BASE: &'static str = "https://chatgpt.com/backend-api";

/// The endpoint of a server on this machine.
pub const LOCAL_API_BASE: &'static str = "http://localhost:8000/api";

/// The name that the application gives itself.
pub const ORIGINATOR: &'static str = "Codex Desktop";

/// The version that the application gives itself.
pub const APP_VERSION: &'static str = "1.0.4";

/// The name of an operating system in the user agent.
pub open spec fn platform_name(target_os: Seq<char>) -> Seq<char> {
    if target_os == "macos"@ {
        "darwin"@
    } else if target_os == "windows"@ {
        "win32"@
    } else {
        "linux"@
    }
}

/// The name of a processor architecture in the user agent.
pub open spec fn arch_name(target_arch: Seq<char>) -> Seq<char> {
    if target_arch == "aarch64"@ {
        "arm64"@
    } else if target_arch == "x86_64"@ {
        "x64"@
    } else {
        "unknown"@
    }
}

/// The user agent on an operating system and a processor architecture.
pub open spec fn user_agent(target_os: Seq<char>, target_arch: Seq<char>) -> Seq<char> {
    "Codex Desktop/"@ + APP_VERSION@ + " ("@ + platform_name(target_os) + "; "@ + arch_name(
        target_arch,
    ) + ")"@
}

/// The user agent on the operating system and the processor architecture that Rust
/// calls by these names.
pub fn build_user_agent(target_os: &str, target_arch: &str) -> (r: String)
    ensures
        r@ == user_agent(target_os@, target_arch@),
{
    let platform = if text::same_text(target_os, "macos") {
        "darwin"
    } else if text::same_text(target_os, "windows") {
        "win32"
    } else {
        "linux"
    };
    let arch = if text::same_text(target_arch, "aarch64") {
        "arm64"
    } else if text::same_text(target_arch, "x86_64") {
        "x64"
    } else {
        "unknown"
    };
    let mut r = "Codex Desktop/".to_owned();
    r.append(APP_VERSION);
    r.append(" (");
    r.append(platform);
    r.append("; ");
    r.append(arch);
    r.append(")");
    r
}

/// What a list of headers holds.
pub open spec fn headers_of(headers: Seq<(String, String)>) -> Seq<(Seq<char>, Seq<char>)> {
    headers.map_values(|h: (String, String)| (h.0@, h.1@))
}

/// The headers that authenticate a request.
pub open spec fn auth_headers(
    token: Seq<char>,
    account_id: Option<Seq<char>>,
    agent: Seq<char>,
) -> Seq<(Seq<char>, Seq<char>)> {
    let always = seq![
        ("Authorization"@, "Bearer "@ + token),
        ("originator"@, ORIGINATOR@),
        ("User-Agent"@, agent),
    ];
    match account_id {
        Some(account) => always.push(("ChatGPT-Account-Id"@, account)),
        None => always,
    }
}

/// The base URL: what `CODEX_API_BASE_URL` says without its trailing slashes, if that
/// leaves anything; a server on this machine where `CODEX_API_ENDPOINT` says
/// `localhost` in any case; else the provider.
pub open spec fn base_url(base: Option<Seq<char>>, endpoint: Option<Seq<char>>) -> Seq<char> {
    if base matches Some(url) && text::stripped_end(url, '/').len() > 0 {
        text::stripped_end(base->0, '/')
    } else if endpoint matches Some(name) && text::same_ignoring_ascii_case(name, "localhost"@) {
        LOCAL_API_BASE@
    } else {
        PROD_API_BASE@
    }
}

impl CodexAuthManager {
    /// The base URL, from the values of `CODEX_API_BASE_URL` and
    /// `CODEX_API_ENDPOINT`.
    pub fn api_base_url(base: Option<&str>, endpoint: Option<&str>) -> (r: String)
        ensures
            r@ == base_url(text::str_of(base), text::str_of(endpoint)),
    {
        if let Some(url) = base {
            let url = text::trim_end_of(url, '/');
            if !url.is_empty() {
                return url.to_owned();
            }
        }
        if let Some(name) = endpoint {
            if text::eq_ignoring_ascii_case(name, "localhost") {
                return LOCAL_API_BASE.to_owned();
            }
        }
        PROD_API_BASE.to_owned()
    }

    /// The headers that authenticate a request, sent from the operating system and
    /// the processor architecture that Rust calls by these names.
    pub fn build_auth_headers(
        token: &str,
        account_id: Option<&str>,
        target_os: &str,
        target_arch: &str,
    ) -> (r: Vec<(String, String)>)
        ensures
            headers_of(r@) == auth_headers(
                token@,
                text::str_of(account_id),
                user_agent(target_os@, target_arch@),
            ),
    {
        let mut headers: Vec<(String, String)> = Vec::new();
        headers.push(("Authorization".to_owned(), text::join("Bearer ", token)));
        headers.push(("originator".to_owned(), ORIGINATOR.to_owned()));
        headers.push(("User-Agent".to_owned(), build_user_agent(target_os, target_arch)));
        if let Some(account) = account_id {
            headers.push(("ChatGPT-Account-Id".to_owned(), account.to_owned()));
        }
        assert(headers_of(headers@) == auth_headers(
            token@,
            text::str_of(account_id),
            user_agent(target_os@, target_arch@),
        ));
        headers
    }
}

/// A base URL is never empty and never ends in a slash, so that a path can follow
/// it.
pub proof fn base_url_takes_a_path(base: Option<Seq<char>>, endpoint: Option<Seq<char>>)
    ensures
        base_url(base, endpoint).len() > 0,
        base_url(base, endpoint).last() != '/',
{
    reveal_strlit("http://localhost:8000/api");
    reveal_strlit("https://chatgpt.com/backend-api");
    if base is Some {
        text::stripped_end_is_stripped(base->0, '/');
    }
}

/// The account header is there exactly where there is an account.
pub proof fn account_header_only_with_an_account(
    token: Seq<char>,
    account_id: Option<Seq<char>>,
    agent: Seq<char>,
)
    ensures
        (exists|i: int|
            0 <= i < auth_headers(token, account_id, agent).len() && (#[trigger] auth_headers(
                token,
                account_id,
                agent,
            )[i]).0 == "ChatGPT-Account-Id"@) <==> account_id is Some,
{
    reveal_strlit("Authorization");
    reveal_strlit("originator");
    reveal_strlit("User-Agent");
    reveal_strlit("ChatGPT-Account-Id");
    let headers = auth_headers(token, account_id, agent);
    assert("ChatGPT-Account-Id"@.len() == 18);
    if account_id is Some {
        assert(headers[3].0 == "ChatGPT-Account-Id"@);
    }
}

} // verus!
