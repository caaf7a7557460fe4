use vstd::prelude::*;
use crate::error::{HandshakeError, ProtocolFault};
use crate::lookup::{find_last, keys_of, last_index_of};

verus! {

/// A value of a top-level field of a JSON object, as far as the credential
/// reads it.
#[derive(Debug, Clone, PartialEq, Eq)]
pub enum FieldValue {
    /// A JSON string.
    Text(String),
    /// A JSON integer that fits in an `i64`.
    Integer(i64),
    /// Anything else: `null`, a boolean, another number, an array, an object.
    Other,
}

/// The session credential that a successful handshake yields.
#[derive(Debug, Clone, PartialEq, Eq)]
pub struct AuthUser {
    pub login: String,
    pub name: String,
    pub email: String,
    pub company: String,
    pub url: String,
    pub github_token: String,
    pub user_id: i64,
    pub persys_token: String,
    pub state: String,
    pub created_at: String,
    pub updated_at: String,
}

/// The value that the fields give to `key`: that of the last field so named.
pub open spec fn field_of(fields: Seq<(String, FieldValue)>, key: Seq<char>) -> Option<FieldValue> {
    match last_index_of(keys_of(fields), key) {
        Some(i) => Some(fields[i].1),
        None => None,
    }
}

/// The text of the field `key`, if it is a string.
pub open spec fn text_field(fields: Seq<(String, FieldValue)>, key: Seq<char>) -> Option<Seq<char>> {
    match field_of(fields, key) {
        Some(FieldValue::Text(s)) => Some(s@),
        _ => None,
    }
}

/// The value of the field `key`, if it is an integer.
pub open spec fn integer_field(fields: Seq<(String, FieldValue)>, key: Seq<char>) -> Option<i64> {
    match field_of(fields, key) {
        Some(FieldValue::Integer(n)) => Some(n),
        _ => None,
    }
}

/// Every field of the credential is present, with its type.
pub open spec fn credential_complete(fields: Seq<(String, FieldValue)>) -> bool {
    &&& text_field(fields, "login"@) is Some
    &&& text_field(fields, "name"@) is Some
    &&& text_field(fields, "email"@) is Some
    &&& text_field(fields, "company"@) is Some
    &&& text_field(fields, "url"@) is Some
    &&& text_field(fields, "githubToken"@) is Some
    &&& integer_field(fields, "userID"@) is Some
    &&& text_field(fields, "persysToken"@) is Some
    &&& text_field(fields, "state"@) is Some
    &&& text_field(fields, "createdAt"@) is Some
    &&& text_field(fields, "updatedAt"@) is Some
}

/// The credential holds, field for field, what the response gives.
pub open spec fn credential_matches(u: AuthUser, fields: Seq<(String, FieldValue)>) -> bool {
    &&& text_field(fields, "login"@) == Some(u.login@)
    &&& text_field(fields, "name"@) == Some(u.name@)
    &&& text_field(fields, "email"@) == Some(u.email@)
    &&& text_field(fields, "company"@) == Some(u.company@)
    &&& text_field(fields, "url"@) == Some(u.url@)
    &&& text_field(fields, "githubToken"@) == Some(u.github_token@)
    &&& integer_field(fields, "userID"@) == Some(u.user_id)
    &&& text_field(fields, "persysToken"@) == Some(u.persys_token@)
    &&& text_field(fields, "state"@) == Some(u.state@)
    &&& text_field(fields, "createdAt"@) == Some(u.created_at@)
    &&& text_field(fields, "updatedAt"@) == Some(u.updated_at@)
}

/// The text of the field named `key`.
pub fn text_value(fields: &Vec<(String, FieldValue)>, key: &str) -> (r: Option<String>)
    ensures
        match text_field(fields@, key@) {
            Some(t) => r matches Some(s) && s@ == t,
            None => r is None,
        },
{
    match find_last(fields, &key.to_owned()) {
        Some(i) => match &fields[i].1 {
            FieldValue::Text(s) => Some(s.clone()),
            _ => None,
        },
        None => None,
    }
}

/// The integer value of the field named `key`.
pub fn integer_value(fields: &Vec<(String, FieldValue)>, key: &str) -> (r: Option<i64>)
    ensures
        r == integer_field(fields@, key@),
{
    match find_last(fields, &key.to_owned()) {
        Some(i) => match &fields[i].1 {
            FieldValue::Integer(n) => Some(*n),
            _ => None,
        },
        None => None,
    }
}

/// Reads the session credential out of the top-level fields of the broker's
/// redemption response. Every field is required: where one is missing or has
/// the wrong type, no credential comes out.
pub fn credential_from_fields(fields: &Vec<(String, FieldValue)>) -> (r: Result<
    AuthUser,
    HandshakeError,
>)
    ensures
        r is Ok <==> credential_complete(fields@),
        r matches Ok(u) ==> credential_matches(u, fields@),
        r matches Err(e) ==> e == HandshakeError::Protocol(ProtocolFault::MalformedCredential),
{
    let missing = HandshakeError::Protocol(ProtocolFault::MalformedCredential);
    let login = match text_value(fields, "login") { Some(v) => v, None => return Err(missing) };
    let name = match text_value(fields, "name") { Some(v) => v, None => return Err(missing) };
    let email = match text_value(fields, "email") { Some(v) => v, None => return Err(missing) };
    let company = match text_value(fields, "company") { Some(v) => v, None => return Err(missing) };
    let url = match text_value(fields, "url") { Some(v) => v, None => return Err(missing) };
    let github_token = match text_value(fields, "githubToken") {
        Some(v) => v,
        None => return Err(missing),
    };
    let user_id = match integer_value(fields, "userID") { Some(v) => v, None => return Err(missing) };
    let persys_token = match text_value(fields, "persysToken") {
        Some(v) => v,
        None => return Err(missing),
    };
    let state = match text_value(fields, "state") { Some(v) => v, None => return Err(missing) };
    let created_at = match text_value(fields, "createdAt") {
        Some(v) => v,
        None => return Err(missing),
    };
    let updated_at = match text_value(fields, "updatedAt") {
        Some(v) => v,
        None => return Err(missing),
    };
    Ok(
        AuthUser {
            login,
            name,
            email,
            company,
            url,
            github_token,
            user_id,
            persys_token,
            state,
            created_at,
            updated_at,
        },
    )
}

} // verus!
