//! Access tokens: the claims that their payload carries, and their expiry.

use vstd::prelude::*;

use crate::json;
use crate::text;

verus! {

/// How long before its expiry a token is no longer used, in seconds.
pub const EXPIRY_MARGIN_SECS: u64 = 300;

/// The bytes that `base64`'s URL-safe engine without padding decodes from a text,
/// if it decodes it.
pub uninterp spec fn base64_url_bytes(encoded: Seq<char>) -> Option<Seq<u8>>;

/// What optional bytes hold.
pub open spec fn bytes_of(bytes: Option<Vec<u8>>) -> Option<Seq<u8>> {
    match bytes {
        Some(b) => Some(b@),
        None => None,
    }
}

/// `base64::Engine::decode` of `base64::engine::general_purpose::URL_SAFE_NO_PAD`.
/// It succeeds on the texts that `base64_url_bytes` names, with the bytes that it
/// names.
#[verifier::external_body]
fn base64_url_decode(encoded: &str) -> (r: Option<Vec<u8>>)
    ensures
        bytes_of(r) == base64_url_bytes(encoded@),
{
    base64::Engine::decode(&base64::engine::general_purpose::URL_SAFE_NO_PAD, encoded).ok()
}

/// The JSON payload of a token: the second of its dot-separated segments, without
/// padding, decoded and parsed.
pub open spec fn payload(token: Seq<char>) -> Option<json::JsonContent> {
    match text::second_segment(token, '.') {
        Some(segment) => match base64_url_bytes(text::stripped_end(segment, '=')) {
            Some(bytes) => json::json_document(bytes),
            None => None,
        },
        None => None,
    }
}

/// Decodes the payload of a token. The signature is not looked at.
pub fn decode_jwt_payload(token: &str) -> (r: Option<serde_json::Value>)
    ensures
        json::content_of(r) == payload(token@),
{
    match text::segment_after_first(token, '.') {
        Some(segment) => match base64_url_decode(text::trim_end_of(segment, '=')) {
            Some(bytes) => json::parse_json(bytes.as_slice()),
            None => None,
        },
        None => None,
    }
}

/// What is read from the payload of a token.
pub struct Claims {
    /// The second since the Unix epoch at which the token expires.
    pub expiry: Option<u64>,
    /// The user that the token was issued to.
    pub subject: Option<String>,
    /// The ChatGPT account that the token belongs to.
    pub account_id: Option<String>,
}

/// What `Claims` hold.
pub ghost struct ClaimsView {
    pub expiry: Option<u64>,
    pub subject: Option<Seq<char>>,
    pub account_id: Option<Seq<char>>,
}

impl View for Claims {
    type V = ClaimsView;

    open spec fn view(&self) -> ClaimsView {
        ClaimsView {
            expiry: self.expiry,
            subject: text::text_of(self.subject),
            account_id: text::text_of(self.account_id),
        }
    }
}

/// The claims in a JSON payload: `exp`, `sub`, and `chatgpt_account_id` of the
/// member `https://api.openai.com/auth`.
pub open spec fn claims_in(payload: Option<json::JsonContent>) -> ClaimsView {
    ClaimsView {
        expiry: json::unsigned_member(payload, "exp"@),
        subject: json::text_member(payload, "sub"@),
        account_id: match payload {
            Some(p) => json::text_member(
                p.member("https://api.openai.com/auth"@),
                "chatgpt_account_id"@,
            ),
            None => None,
        },
    }
}

/// The claims of a token. A token that cannot be decoded claims nothing.
pub open spec fn claims(token: Seq<char>) -> ClaimsView {
    claims_in(payload(token))
}

/// Reads the claims in a payload.
pub fn read_claims(payload: &serde_json::Value) -> (r: Claims)
    ensures
        r@ == claims_in(Some(json::json_content(*payload))),
{
    let account_id = match json::value_get(payload, "https://api.openai.com/auth") {
        Some(auth) => json::get_text(auth, "chatgpt_account_id"),
        None => None,
    };
    Claims {
        expiry: json::get_unsigned(payload, "exp"),
        subject: json::get_text(payload, "sub"),
        account_id,
    }
}

/// Reads the claims of a token.
pub fn token_claims(token: &str) -> (r: Claims)
    ensures
        r@ == claims(token@),
{
    match decode_jwt_payload(token) {
        Some(payload) => read_claims(&payload),
        None => Claims { expiry: None, subject: None, account_id: None },
    }
}

/// The account that a token belongs to, if it says so.
pub fn extract_chatgpt_account_id(token: &str) -> (r: Option<String>)
    ensures
        text::text_of(r) == claims(token@).account_id,
{
    token_claims(token).account_id
}

/// Whether a token with this expiry is no longer used at the second `now`: from
/// the safety margin before the expiry on. Without an expiry it is never used.
pub open spec fn expired_by(expiry: Option<u64>, now: u64) -> bool {
    match expiry {
        Some(at) => now + EXPIRY_MARGIN_SECS >= at,
        None => true,
    }
}

/// Whether the token is no longer used at the second `now`.
pub open spec fn expired(token: Seq<char>, now: u64) -> bool {
    expired_by(claims(token).expiry, now)
}

/// Whether claims with this expiry are no longer good at the second `now`.
pub fn is_expiry_passed(expiry: Option<u64>, now: u64) -> (r: bool)
    ensures
        r == expired_by(expiry, now),
{
    let at: u64 = match expiry {
        Some(at) => at,
        None => 0,
    };
    now >= at.saturating_sub(EXPIRY_MARGIN_SECS)
}

/// Whether the token is no longer used at the second `now` since the Unix epoch.
pub fn is_token_expired(token: &str, now: u64) -> (r: bool)
    ensures
        r == expired(token@, now),
{
    is_expiry_passed(token_claims(token).expiry, now)
}

/// A token that is expired stays expired.
pub proof fn expiry_is_final(token: Seq<char>, now: u64, later: u64)
    requires
        expired(token, now),
        now <= later,
    ensures
        expired(token, later),
{
}

/// A token whose payload cannot be read, or that names no expiry, is expired at
/// every time: it is never taken for one without an end.
pub proof fn unreadable_token_is_expired(token: Seq<char>, now: u64)
    requires
        payload(token) is None || json::unsigned_member(payload(token), "exp"@) is None,
    ensures
        expired(token, now),
{
}

/// An unexpired token has more than the safety margin left.
pub proof fn unexpired_token_outlives_the_margin(token: Seq<char>, now: u64)
    requires
        !expired(token, now),
    ensures
        claims(token).expiry is Some,
        claims(token).expiry->0 - now > EXPIRY_MARGIN_SECS,
{
}

/// A token that is not expired is not blank: a reply or a file whose token is empty
/// never passes for a good one.
pub proof fn unexpired_token_is_not_blank(token: Seq<char>, now: u64)
    requires
        !expired(token, now),
    ensures
        text::trimmed(token).len() > 0,
{
    text::second_segment_follows_a_separator(token, '.');
    text::trimmed_is_empty_iff_blank(token);
    let i = choose|i: int| 0 <= i < token.len() && token[i] == '.';
    assert(!text::white_space(token[i]));
}

/// What a token claims is in its payload: the segment after its first dot, up to the next
/// dot or the end, without padding, decoded from Base64 and parsed as a JSON object. The
/// expiry is the unsigned number under `exp`, the user the text under `sub`, and the
/// account the text under `chatgpt_account_id` of the object under
/// `https://api.openai.com/auth`; each is claimed exactly where it is there.
pub proof fn claims_stand_in_the_payload(
    header: Seq<char>,
    encoded: Seq<char>,
    padding: Seq<char>,
    rest: Seq<char>,
    bytes: Seq<u8>,
    members: Map<Seq<char>, json::JsonContent>,
    n: u64,
    s: Seq<char>,
)
    requires
        !header.contains('.'),
        !encoded.contains('.'),
        encoded.len() > 0 ==> encoded.last() != '=',
        forall|i: int| 0 <= i < padding.len() ==> #[trigger] padding[i] == '=',
        rest.len() > 0 ==> rest[0] == '.',
        base64_url_bytes(encoded) == Some(bytes),
        json::json_document(bytes) == Some(json::JsonContent::Object(members)),
    ensures
        ({
            let token = header + seq!['.'] + (encoded + padding) + rest;
            &&& claims(token).expiry == Some(n) <==> members.contains_key("exp"@) && members["exp"@]
                == json::JsonContent::Number(Some(n))
            &&& claims(token).subject == Some(s) <==> members.contains_key("sub"@)
                && members["sub"@] == json::JsonContent::Text(s)
            &&& claims(token).account_id == Some(s) <==> members.contains_key(
                "https://api.openai.com/auth"@,
            ) && (members["https://api.openai.com/auth"@] matches json::JsonContent::Object(auth)
                && auth.contains_key("chatgpt_account_id"@) && auth["chatgpt_account_id"@]
                == json::JsonContent::Text(s))
        }),
{
    the_payload_is_the_second_segment(header, encoded, padding, rest);
}

/// The payload of a token is the JSON document in the segment after its first dot, up to
/// the next dot or the end, without padding, decoded from Base64.
pub proof fn the_payload_is_the_second_segment(
    header: Seq<char>,
    encoded: Seq<char>,
    padding: Seq<char>,
    rest: Seq<char>,
)
    requires
        !header.contains('.'),
        !encoded.contains('.'),
        encoded.len() > 0 ==> encoded.last() != '=',
        forall|i: int| 0 <= i < padding.len() ==> #[trigger] padding[i] == '=',
        rest.len() > 0 ==> rest[0] == '.',
    ensures
        ({
            let read = payload(header + seq!['.'] + (encoded + padding) + rest);
            &&& base64_url_bytes(encoded) is None ==> read is None
            &&& base64_url_bytes(encoded) matches Some(bytes) ==> read == json::json_document(bytes)
        }),
        payload(header) is None,
{
    let segment = encoded + padding;
    assert(!segment.contains('.')) by {
        if segment.contains('.') {
            let i = choose|i: int| 0 <= i < segment.len() && segment[i] == '.';
            if i < encoded.len() {
                assert(encoded[i] == '.');
                assert(encoded.contains('.'));
            } else {
                assert(padding[i - encoded.len()] == '=');
            }
        }
    }
    text::second_segment_stands_between_separators(header, segment, rest, '.');
    text::stripping_removes_exactly_the_run(encoded, padding, '=');
}

/// The claims of a payload are the unsigned number under `exp`, the text under `sub` and
/// the text under `chatgpt_account_id` of the object under `https://api.openai.com/auth`,
/// each where it is there; a payload that is no object claims nothing.
pub proof fn claims_are_members_of_the_payload(
    payload: json::JsonContent,
    members: Map<Seq<char>, json::JsonContent>,
    n: u64,
    s: Seq<char>,
)
    ensures
        ({
            let c = claims_in(Some(json::JsonContent::Object(members)));
            &&& c.expiry == Some(n) <==> members.contains_key("exp"@) && members["exp"@]
                == json::JsonContent::Number(Some(n))
            &&& c.subject == Some(s) <==> members.contains_key("sub"@) && members["sub"@]
                == json::JsonContent::Text(s)
            &&& c.account_id == Some(s) <==> members.contains_key("https://api.openai.com/auth"@)
                && (members["https://api.openai.com/auth"@] matches json::JsonContent::Object(auth)
                && auth.contains_key("chatgpt_account_id"@) && auth["chatgpt_account_id"@]
                == json::JsonContent::Text(s))
        }),
        !(payload is Object) ==> claims_in(Some(payload)) == (ClaimsView {
            expiry: None,
            subject: None,
            account_id: None,
        }),
        claims_in(None) == (ClaimsView { expiry: None, subject: None, account_id: None }),
{
}

/// A token whose payload is missing, is not Base64, or is not a JSON object claims nothing,
/// and is never good.
pub proof fn unreadable_tokens_claim_nothing(
    header: Seq<char>,
    encoded: Seq<char>,
    padding: Seq<char>,
    rest: Seq<char>,
    now: u64,
)
    requires
        !header.contains('.'),
        !encoded.contains('.'),
        encoded.len() > 0 ==> encoded.last() != '=',
        forall|i: int| 0 <= i < padding.len() ==> #[trigger] padding[i] == '=',
        rest.len() > 0 ==> rest[0] == '.',
        base64_url_bytes(encoded) matches Some(bytes) ==> (json::json_document(bytes) matches Some(
            payload,
        ) ==> !(payload is Object)),
    ensures
        ({
            let nothing = ClaimsView { expiry: None, subject: None, account_id: None };
            let token = header + seq!['.'] + (encoded + padding) + rest;
            &&& claims(token) == nothing && expired(token, now)
            &&& claims(header) == nothing && expired(header, now)
        }),
{
    the_payload_is_the_second_segment(header, encoded, padding, rest);
}

/// A token is good for as long as its expiry is more than 300 seconds away, and no longer;
/// one without an expiry is never good.
pub proof fn tokens_are_good_until_five_minutes_before_expiry(
    token: Seq<char>,
    expiry: Option<u64>,
    now: u64,
)
    ensures
        !expired_by(expiry, now) <==> expiry is Some && expiry->0 > now + 300,
        !expired(token, now) <==> claims(token).expiry is Some && claims(token).expiry->0 > now
            + 300,
{
}

/// What claims and optional bytes hold is what is in them.
pub proof fn claims_show_what_they_hold(claims: Claims, bytes: Vec<u8>)
    ensures
        claims@.expiry == claims.expiry,
        claims@.subject == text::text_of(claims.subject),
        claims@.account_id == text::text_of(claims.account_id),
        bytes_of(Some(bytes)) == Some(bytes@),
        bytes_of(None::<Vec<u8>>) == None::<Seq<u8>>,
{
}

} // verus!
