//! Credential validation: from a signed credential to its claims.

use crate::outside::{decode_payload, payload_field, payload_fields, token_error_text, verified_payload};
use crate::text::optional_view;
use vstd::prelude::*;

verus! {

/// One member of a credential's payload, as far as validation reads it.
#[derive(Debug, Clone, PartialEq, Eq)]
pub enum ClaimField {
    /// The payload has no member of that name.
    Missing,
    /// The member is `null`.
    Null,
    /// The member is a string.
    Text(String),
    /// The member is a whole number from 0 to 2^64 - 1.
    Unsigned(u64),
    /// The member is anything else.
    Other,
}

/// The mathematical value of a [`ClaimField`].
pub enum Field {
    Missing,
    Null,
    Text(Seq<char>),
    Unsigned(u64),
    Other,
}

impl View for ClaimField {
    type V = Field;

    open spec fn view(&self) -> Field {
        match self {
            ClaimField::Missing => Field::Missing,
            ClaimField::Null => Field::Null,
            ClaimField::Text(text) => Field::Text(text@),
            ClaimField::Unsigned(value) => Field::Unsigned(*value),
            ClaimField::Other => Field::Other,
        }
    }
}

/// The member of `fields` under `name`.
pub open spec fn field_at(fields: Map<Seq<char>, Field>, name: Seq<char>) -> Field {
    if fields.dom().contains(name) {
        fields[name]
    } else {
        Field::Missing
    }
}

/// The members that a credential's claims are read from.
#[derive(Debug, Clone, PartialEq, Eq)]
pub struct RawClaims {
    pub chat_id: ClaimField,
    pub user_id: ClaimField,
    pub anonymous_id: ClaimField,
    pub action_id: ClaimField,
    pub approval_id: ClaimField,
    pub scope: ClaimField,
    pub exp: ClaimField,
    pub iat: ClaimField,
}

/// The mathematical value of [`RawClaims`].
pub struct RawClaimsView {
    pub chat_id: Field,
    pub user_id: Field,
    pub anonymous_id: Field,
    pub action_id: Field,
    pub approval_id: Field,
    pub scope: Field,
    pub exp: Field,
    pub iat: Field,
}

impl View for RawClaims {
    type V = RawClaimsView;

    open spec fn view(&self) -> RawClaimsView {
        RawClaimsView {
            chat_id: self.chat_id@,
            user_id: self.user_id@,
            anonymous_id: self.anonymous_id@,
            action_id: self.action_id@,
            approval_id: self.approval_id@,
            scope: self.scope@,
            exp: self.exp@,
            iat: self.iat@,
        }
    }
}

/// The members of `fields` that the claims are read from.
pub open spec fn raw_claims_of(fields: Map<Seq<char>, Field>) -> RawClaimsView {
    RawClaimsView {
        chat_id: field_at(fields, "chat_id"@),
        user_id: field_at(fields, "user_id"@),
        anonymous_id: field_at(fields, "anonymous_id"@),
        action_id: field_at(fields, "action_id"@),
        approval_id: field_at(fields, "approval_id"@),
        scope: field_at(fields, "scope"@),
        exp: field_at(fields, "exp"@),
        iat: field_at(fields, "iat"@),
    }
}

/// What a credential asserts: who asked, for which action and approval, and
/// from when until when.
#[derive(Debug, Clone, PartialEq, Eq)]
pub struct Claims {
    pub chat_id: Option<String>,
    pub user_id: Option<String>,
    pub anonymous_id: Option<String>,
    pub action_id: String,
    pub approval_id: String,
    pub scope: String,
    pub exp: u64,
    pub iat: u64,
}

/// The mathematical value of [`Claims`].
pub struct ClaimsView {
    pub chat_id: Option<Seq<char>>,
    pub user_id: Option<Seq<char>>,
    pub anonymous_id: Option<Seq<char>>,
    pub action_id: Seq<char>,
    pub approval_id: Seq<char>,
    pub scope: Seq<char>,
    pub exp: u64,
    pub iat: u64,
}

impl View for Claims {
    type V = ClaimsView;

    open spec fn view(&self) -> ClaimsView {
        ClaimsView {
            chat_id: optional_view(self.chat_id),
            user_id: optional_view(self.user_id),
            anonymous_id: optional_view(self.anonymous_id),
            action_id: self.action_id@,
            approval_id: self.approval_id@,
            scope: self.scope@,
            exp: self.exp,
            iat: self.iat,
        }
    }
}

/// Whether `field` can stand for an optional string: absent, null or a string.
pub open spec fn is_optional_text(field: Field) -> bool {
    field is Missing || field is Null || field is Text
}

/// The optional string that `field` stands for.
pub open spec fn optional_text(field: Field) -> Option<Seq<char>> {
    match field {
        Field::Text(text) => Some(text),
        _ => None,
    }
}

/// Whether the members make up claims: the three subjects are optional
/// strings, action, approval and scope are strings, expiry and issue time are
/// unsigned numbers.
pub open spec fn claims_complete(raw: RawClaimsView) -> bool {
    &&& is_optional_text(raw.chat_id)
    &&& is_optional_text(raw.user_id)
    &&& is_optional_text(raw.anonymous_id)
    &&& raw.action_id is Text
    &&& raw.approval_id is Text
    &&& raw.scope is Text
    &&& raw.exp is Unsigned
    &&& raw.iat is Unsigned
}

/// The claims that complete members make up.
pub open spec fn claims_of(raw: RawClaimsView) -> ClaimsView
    recommends
        claims_complete(raw),
{
    ClaimsView {
        chat_id: optional_text(raw.chat_id),
        user_id: optional_text(raw.user_id),
        anonymous_id: optional_text(raw.anonymous_id),
        action_id: raw.action_id->Text_0,
        approval_id: raw.approval_id->Text_0,
        scope: raw.scope->Text_0,
        exp: raw.exp->Unsigned_0,
        iat: raw.iat->Unsigned_0,
    }
}

/// Why a credential was turned away.
#[derive(Debug, Clone, PartialEq, Eq)]
pub enum AuthError {
    /// Bad signature, wrong algorithm or malformed token.
    AuthFailure { reason: String },
    /// The credential is genuine and its time is over.
    TokenExpired,
}

/// What validation decides.
pub enum Verdict {
    /// The credential is not genuine or not complete.
    Refused,
    /// The credential is genuine and expired.
    Expired,
    /// The credential is genuine and in time.
    Admitted(ClaimsView),
}

/// The decision on claims at the moment `now`: they are expired when their
/// expiry lies strictly before `now`.
pub open spec fn verdict_on_claims(claims: ClaimsView, now: u64) -> Verdict {
    if claims.exp < now {
        Verdict::Expired
    } else {
        Verdict::Admitted(claims)
    }
}

/// The decision on the members of a payload at the moment `now`.
pub open spec fn verdict_on_fields(raw: RawClaimsView, now: u64) -> Verdict {
    if claims_complete(raw) {
        verdict_on_claims(claims_of(raw), now)
    } else {
        Verdict::Refused
    }
}

/// The decision on what became of a token at the moment `now`.
pub open spec fn verdict_on_payload(payload: Option<Map<Seq<char>, Field>>, now: u64) -> Verdict {
    match payload {
        Some(fields) => verdict_on_fields(raw_claims_of(fields), now),
        None => Verdict::Refused,
    }
}

/// Whether what became of a token is a genuine credential with complete
/// claims: whether anything but a refusal can come of it.
pub open spec fn credential_complete(payload: Option<Map<Seq<char>, Field>>) -> bool {
    payload matches Some(fields) && claims_complete(raw_claims_of(fields))
}

/// The decision that a result of validation reports.
pub open spec fn verdict_of(result: Result<Claims, AuthError>) -> Verdict {
    match result {
        Ok(claims) => Verdict::Admitted(claims@),
        Err(AuthError::TokenExpired) => Verdict::Expired,
        Err(AuthError::AuthFailure { .. }) => Verdict::Refused,
    }
}

fn take_optional(field: ClaimField) -> (r: Option<Option<String>>)
    ensures
        r is Some <==> is_optional_text(field@),
        r matches Some(text) ==> optional_view(text) == optional_text(field@),
{
    match field {
        ClaimField::Missing => Some(None),
        ClaimField::Null => Some(None),
        ClaimField::Text(text) => Some(Some(text)),
        _ => None,
    }
}

fn take_text(field: ClaimField) -> (r: Option<String>)
    ensures
        r is Some <==> field@ is Text,
        r matches Some(text) ==> text@ == field@->Text_0,
{
    match field {
        ClaimField::Text(text) => Some(text),
        _ => None,
    }
}

fn take_number(field: ClaimField) -> (r: Option<u64>)
    ensures
        r is Some <==> field@ is Unsigned,
        r matches Some(value) ==> value == field@->Unsigned_0,
{
    match field {
        ClaimField::Unsigned(value) => Some(value),
        _ => None,
    }
}

impl Claims {
    /// Reads the claims from the members of a payload; `None` where a member
    /// that must be there is absent or of the wrong kind.
    pub fn from_raw(raw: RawClaims) -> (r: Option<Claims>)
        ensures
            r is Some <==> claims_complete(raw@),
            r matches Some(claims) ==> claims@ == claims_of(raw@),
    {
        let chat_id = take_optional(raw.chat_id);
        let user_id = take_optional(raw.user_id);
        let anonymous_id = take_optional(raw.anonymous_id);
        let action_id = take_text(raw.action_id);
        let approval_id = take_text(raw.approval_id);
        let scope = take_text(raw.scope);
        let exp = take_number(raw.exp);
        let iat = take_number(raw.iat);
        match (chat_id, user_id, anonymous_id, action_id, approval_id, scope, exp, iat) {
            (
                Some(chat_id),
                Some(user_id),
                Some(anonymous_id),
                Some(action_id),
                Some(approval_id),
                Some(scope),
                Some(exp),
                Some(iat),
            ) => Some(
                Claims { chat_id, user_id, anonymous_id, action_id, approval_id, scope, exp, iat },
            ),
            _ => None,
        }
    }

    /// Tells whether the claims are expired at `now`: whether their expiry
    /// lies strictly before it.
    pub fn is_expired(&self, now: u64) -> (r: bool)
        ensures
            r == (self.exp < now),
    {
        self.exp < now
    }
}

/// Whether a failure says that the token is invalid before it says why.
pub open spec fn blames_token(result: Result<Claims, AuthError>) -> bool {
    result matches Err(AuthError::AuthFailure { reason }) ==> "Invalid token: "@.is_prefix_of(
        reason@,
    )
}

/// Decides on the members of a payload at the moment `now`.
pub fn decide(raw: RawClaims, now: u64) -> (r: Result<Claims, AuthError>)
    ensures
        verdict_of(r) == verdict_on_fields(raw@, now),
        r matches Err(AuthError::AuthFailure { reason }) ==> reason@
            == "Invalid token: incomplete claims"@,
{
    match Claims::from_raw(raw) {
        Some(claims) => {
            if claims.is_expired(now) {
                Err(AuthError::TokenExpired)
            } else {
                Ok(claims)
            }
        },
        None => Err(
            AuthError::AuthFailure { reason: String::from_str("Invalid token: incomplete claims") },
        ),
    }
}

fn read_raw_claims(payload: &serde_json::Value) -> (raw: RawClaims)
    ensures
        raw@ == raw_claims_of(payload_fields(*payload)),
{
    RawClaims {
        chat_id: payload_field(payload, "chat_id"),
        user_id: payload_field(payload, "user_id"),
        anonymous_id: payload_field(payload, "anonymous_id"),
        action_id: payload_field(payload, "action_id"),
        approval_id: payload_field(payload, "approval_id"),
        scope: payload_field(payload, "scope"),
        exp: payload_field(payload, "exp"),
        iat: payload_field(payload, "iat"),
    }
}

/// Validates `token` against `secret` at the moment `now`.  The token must be
/// signed with HS256 under `secret` and carry complete claims; its expiry is
/// then held against `now`, and a token that expires exactly at `now` passes.
pub fn validate(token: &str, secret: &str, now: u64) -> (r: Result<Claims, AuthError>)
    ensures
        verdict_of(r) == verdict_on_payload(verified_payload(token@, secret@), now),
        blames_token(r),
{
    match decode_payload(token, secret) {
        Ok(payload) => {
            let r = decide(read_raw_claims(&payload), now);
            proof {
                reveal_strlit("Invalid token: ");
                reveal_strlit("Invalid token: incomplete claims");
                assert("Invalid token: "@ =~= "Invalid token: incomplete claims"@.subrange(0, 15));
            }
            r
        },
        Err(error) => {
            let details = token_error_text(&error);
            let reason = String::from_str("Invalid token: ").concat(details.as_str());
            assert("Invalid token: "@ =~= reason@.subrange(0, "Invalid token: "@.len() as int));
            Err(AuthError::AuthFailure { reason })
        },
    }
}

/// The moment that a signed count of seconds stands for once it is read as
/// an unsigned number of 64 bits.
pub open spec fn unsigned_seconds(seconds: i64) -> u64 {
    if seconds >= 0 {
        seconds as u64
    } else {
        (seconds + 0x1_0000_0000_0000_0000) as u64
    }
}

/// Reads a signed count of seconds as an unsigned one, as a cast does: a
/// moment before the epoch becomes a moment far in the future, at which every
/// credential is expired.
pub fn seconds_as_unsigned(seconds: i64) -> (r: u64)
    ensures
        r == unsigned_seconds(seconds),
{
    if seconds >= 0 {
        seconds as u64
    } else {
        let below: u64 = (-(seconds + 1)) as u64;
        u64::MAX - below
    }
}

} // verus!
