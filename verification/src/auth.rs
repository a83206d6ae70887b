//! Who makes a request: the access token of a request, the claims of a
//! token, and the signed launch parameters from which a token is issued.
//!
//! The launch parameters are a query string. Its parameters whose name
//! begins with `vk_` are signed with HMAC-SHA256 under the service key; the
//! signature travels in the parameter `sign`, in URL-safe base64 without
//! padding.

use hmac::{Hmac, Mac};
use sha2::Sha256;
use std::collections::BTreeMap;
use vstd::prelude::*;
use vstd::string::*;
use crate::ident::UserId;
use crate::text::{chars_of, has_at, holds_at, parse_i64, parse_i64_spec, same_text};

verus! {

/// The query of a request that carries its access token.
#[derive(Debug)]
pub struct AccessTokenQuery {
    pub access_token: String,
}

/// The key that signs launch parameters and tokens, and the lifetime of a
/// token in seconds.
#[derive(Debug, Clone)]
pub struct JwtConfig {
    pub service_key: String,
    pub expiration: i64,
}

/// Request for a token: the launch parameters as a query string.
#[derive(Debug)]
pub struct GetVkJwtTokenRequest {
    pub query: String,
}

/// What a token claims: the owner and the second at which it expires.
#[derive(Debug, Clone, Copy, PartialEq, Eq, Structural)]
pub struct Claims {
    pub id: UserId,
    pub exp: i64,
}

/// A parameter: its name and its value.
pub type Parameter = (Seq<char>, Seq<char>);

/// The parameters that a list of pairs of strings stands for.
pub open spec fn parameters(pairs: Seq<(String, String)>) -> Seq<Parameter> {
    pairs.map_values(|p: (String, String)| (p.0@, p.1@))
}

/// What `text` is without every `prefix` at its start.
pub open spec fn strip_all(text: Seq<char>, prefix: Seq<char>) -> Seq<char>
    decreases text.len(),
{
    if prefix.len() > 0 && has_at(text, 0, prefix) {
        strip_all(text.skip(prefix.len() as int), prefix)
    } else {
        text
    }
}

/// The token that an `Authorization` header carries: what follows its
/// leading `Bearer `, repeated or not. A header that does not begin so
/// carries none.
pub open spec fn bearer_token(header: Option<Seq<char>>) -> Option<Seq<char>> {
    match header {
        Some(value) => if has_at(value, 0, "Bearer "@) {
            Some(strip_all(value, "Bearer "@))
        } else {
            None
        },
        None => None,
    }
}

/// Reads the access token from the value of the `Authorization` header,
/// where the request has one that is text.
pub fn extract_access_token_from_header(authorization: Option<&str>) -> (token: Option<String>)
    ensures
        match bearer_token(
            match authorization {
                Some(value) => Some(value@),
                None => None,
            },
        ) {
            Some(text) => token is Some && token->0@ == text,
            None => token is None,
        },
{
    let value = match authorization {
        None => {
            return None;
        },
        Some(value) => value,
    };
    proof {
        reveal_strlit("Bearer ");
    }
    let text = chars_of(value);
    let prefix = chars_of("Bearer ");
    if !holds_at(&text, 0, &prefix) {
        return None;
    }
    let mut from: usize = 0;
    assert(text@.skip(0) =~= text@);
    while holds_at(&text, from, &prefix)
        invariant
            from <= text.len(),
            prefix@ == "Bearer "@,
            prefix@.len() == 7,
            strip_all(text@, prefix@) == strip_all(text@.skip(from as int), prefix@),
        decreases text.len() - from,
    {
        proof {
            let rest = text@.skip(from as int);
            assert(rest.subrange(0, 7) =~= text@.subrange(from as int, from + 7));
            assert(rest.skip(7) =~= text@.skip(from + 7));
        }
        from += 7;
    }
    proof {
        let rest = text@.skip(from as int);
        if from + 7 <= text.len() {
            assert(rest.subrange(0, 7) =~= text@.subrange(from as int, from + 7));
        }
        assert(rest =~= value@.subrange(from as int, value@.len() as int));
    }
    Some(value.substring_char(from, text.len()).to_owned())
}

/// The access token of a request: the one in its header, else the one in
/// its query.
pub fn extract_access_token(authorization: Option<&str>, query: Option<AccessTokenQuery>) -> (token:
    Option<String>)
    ensures
        match bearer_token(
            match authorization {
                Some(value) => Some(value@),
                None => None,
            },
        ) {
            Some(text) => token is Some && token->0@ == text,
            None => match query {
                Some(q) => token == Some(q.access_token),
                None => token is None,
            },
        },
{
    match extract_access_token_from_header(authorization) {
        Some(token) => Some(token),
        None => match query {
            Some(q) => Some(q.access_token),
            None => None,
        },
    }
}

/// Whether a token that expires at second `exp` is still good at
/// `now_secs` seconds and `now_nanos` nanoseconds: the clock has not
/// passed the start of that second.
pub open spec fn is_current(exp: i64, now_secs: i64, now_nanos: u32) -> bool {
    exp > now_secs || (exp == now_secs && now_nanos == 0)
}

/// The owner that the claims of a decoded token admit at the given time:
/// the one that `id` writes as a decimal number, where the token has not
/// expired.
pub open spec fn admitted(id: Seq<char>, exp: i64, now_secs: i64, now_nanos: u32) -> Option<
    UserId,
> {
    if is_current(exp, now_secs, now_nanos) {
        match parse_i64_spec(id) {
            Some(owner) => Some(UserId(owner)),
            None => None,
        }
    } else {
        None
    }
}

/// Decides whether a request with a decoded token is let in, and for whom.
/// `id` and `exp` are the token's claims; the time is that of the request.
pub fn jwt_token_guard(id: &str, exp: i64, now_secs: i64, now_nanos: u32) -> (owner: Option<
    UserId,
>)
    ensures
        owner == admitted(id@, exp, now_secs, now_nanos),
{
    if exp > now_secs || (exp == now_secs && now_nanos == 0) {
        match parse_i64(&chars_of(id)) {
            Some(owner) => Some(UserId(owner)),
            None => None,
        }
    } else {
        None
    }
}


/// What `serde_urlencoded::from_str` reads from a query string into a map
/// from borrowed names to borrowed values: the parameters in the order of
/// their names, or the description of the failure.
pub uninterp spec fn urlencoded_pairs(query: Seq<char>) -> Result<Seq<Parameter>, Seq<char>>;

/// What `serde_urlencoded::to_string` writes for the map of the given
/// parameters: the query string, or the description of the failure.
pub uninterp spec fn urlencoded_text(pairs: Seq<Parameter>) -> Result<Seq<char>, Seq<char>>;

/// The HMAC-SHA256 tag of the UTF-8 bytes of `message` under the UTF-8
/// bytes of `key`; `None` where the key is refused.
pub uninterp spec fn hmac_sha256(key: Seq<char>, message: Seq<char>) -> Option<Seq<u8>>;

/// The standard base64 text of `bytes`, with padding.
pub uninterp spec fn base64_text(bytes: Seq<u8>) -> Seq<char>;

/// `serde_urlencoded::from_str` into a `BTreeMap<&str, &str>`, handed out
/// as owned pairs in the map's order. Trusted: the result is what the
/// crate reads from this query, the failure with its `Display` text.
#[verifier::external_body]
fn parse_urlencoded(query: &str) -> (parsed: Result<Vec<(String, String)>, String>)
    ensures
        match parsed {
            Ok(pairs) => urlencoded_pairs(query@) is Ok && urlencoded_pairs(query@)->Ok_0
                == parameters(pairs@),
            Err(reason) => urlencoded_pairs(query@) is Err && urlencoded_pairs(query@)->Err_0
                == reason@,
        },
{
    serde_urlencoded::from_str::<BTreeMap<&str, &str>>(query)
        .map(|map| map.into_iter().map(|(k, v)| (k.to_owned(), v.to_owned())).collect())
        .map_err(|e| e.to_string())
}

/// `serde_urlencoded::to_string` of the `BTreeMap` of the given pairs.
/// Trusted: the result is what the crate writes for these parameters, the
/// failure with its `Display` text.
#[verifier::external_body]
fn write_urlencoded(pairs: &Vec<(String, String)>) -> (written: Result<String, String>)
    ensures
        match written {
            Ok(text) => urlencoded_text(parameters(pairs@)) is Ok && urlencoded_text(
                parameters(pairs@),
            )->Ok_0 == text@,
            Err(reason) => urlencoded_text(parameters(pairs@)) is Err && urlencoded_text(
                parameters(pairs@),
            )->Err_0 == reason@,
        },
{
    let map: BTreeMap<&str, &str> = pairs.iter().map(|p| (p.0.as_str(), p.1.as_str())).collect();
    serde_urlencoded::to_string(map).map_err(|e| e.to_string())
}

/// `Hmac::<Sha256>::new_from_slice`, `update` and `finalize` of the `hmac`
/// and `sha2` crates. Trusted: the result is the tag of the message under
/// the key, 32 bytes long, or nothing where the key is refused.
#[verifier::external_body]
fn hmac_sha256_tag(key: &str, message: &str) -> (tag: Option<Vec<u8>>)
    ensures
        match tag {
            Some(bytes) => hmac_sha256(key@, message@) == Some(bytes@) && bytes@.len() == 32,
            None => hmac_sha256(key@, message@) is None,
        },
{
    let mut mac = Hmac::<Sha256>::new_from_slice(key.as_bytes()).ok()?;
    mac.update(message.as_bytes());
    Some(mac.finalize().into_bytes().to_vec())
}

/// `base64::encode`. Trusted: the result is the standard base64 text of
/// the bytes. The input is kept short enough for the size of the text to
/// be computed.
#[verifier::external_body]
fn base64_encode(bytes: &Vec<u8>) -> (text: String)
    requires
        bytes@.len() <= 0x1000_0000,
    ensures
        text@ == base64_text(bytes@),
{
    base64::encode(bytes)
}

/// Why launch parameters name no owner.
#[derive(Debug)]
pub enum VkQueryError {
    /// The query string cannot be read; the text says why.
    Malformed(String),
    /// There is no parameter `sign`.
    EmptySign,
    /// The signed parameters cannot be written; the text says why.
    Unencodable(String),
    /// The service key is refused as a signing key.
    Key,
    /// The signature is not the one of the signed parameters.
    InvalidSign,
    /// There is no parameter `vk_user_id`.
    EmptyVkId,
    /// The parameter `vk_user_id` is no number.
    InvalidVkId,
    /// There is no parameter `vk_ts`.
    EmptyTimestamp,
    /// The parameter `vk_ts` is no number.
    InvalidTimestamp,
    /// The token would expire beyond the last second that can be written.
    ExpirationOverflow,
}

/// Mathematical value of a `VkQueryError`.
pub enum VkQueryFault {
    Malformed(Seq<char>),
    EmptySign,
    Unencodable(Seq<char>),
    Key,
    InvalidSign,
    EmptyVkId,
    InvalidVkId,
    EmptyTimestamp,
    InvalidTimestamp,
    ExpirationOverflow,
}

impl View for VkQueryError {
    type V = VkQueryFault;

    open spec fn view(&self) -> VkQueryFault {
        match *self {
            VkQueryError::Malformed(text) => VkQueryFault::Malformed(text@),
            VkQueryError::EmptySign => VkQueryFault::EmptySign,
            VkQueryError::Unencodable(text) => VkQueryFault::Unencodable(text@),
            VkQueryError::Key => VkQueryFault::Key,
            VkQueryError::InvalidSign => VkQueryFault::InvalidSign,
            VkQueryError::EmptyVkId => VkQueryFault::EmptyVkId,
            VkQueryError::InvalidVkId => VkQueryFault::InvalidVkId,
            VkQueryError::EmptyTimestamp => VkQueryFault::EmptyTimestamp,
            VkQueryError::InvalidTimestamp => VkQueryFault::InvalidTimestamp,
            VkQueryError::ExpirationOverflow => VkQueryFault::ExpirationOverflow,
        }
    }
}

impl VkQueryFault {
    /// The description of the fault.
    pub open spec fn message(self) -> Seq<char> {
        match self {
            VkQueryFault::Malformed(text) => text,
            VkQueryFault::EmptySign => "empty sign"@,
            VkQueryFault::Unencodable(text) => text,
            VkQueryFault::Key => "invalid key length"@,
            VkQueryFault::InvalidSign => "invalid sign"@,
            VkQueryFault::EmptyVkId => "empty vk id"@,
            VkQueryFault::InvalidVkId => "invalid vk id"@,
            VkQueryFault::EmptyTimestamp => "empty timestamp"@,
            VkQueryFault::InvalidTimestamp => "invalid timestamp"@,
            VkQueryFault::ExpirationOverflow => "expiration is out of range"@,
        }
    }
}

impl VkQueryError {
    /// The description of the error.
    pub fn message(&self) -> (text: String)
        ensures
            text@ == self@.message(),
    {
        match self {
            VkQueryError::Malformed(text) => text.clone(),
            VkQueryError::EmptySign => "empty sign".to_owned(),
            VkQueryError::Unencodable(text) => text.clone(),
            VkQueryError::Key => "invalid key length".to_owned(),
            VkQueryError::InvalidSign => "invalid sign".to_owned(),
            VkQueryError::EmptyVkId => "empty vk id".to_owned(),
            VkQueryError::InvalidVkId => "invalid vk id".to_owned(),
            VkQueryError::EmptyTimestamp => "empty timestamp".to_owned(),
            VkQueryError::InvalidTimestamp => "invalid timestamp".to_owned(),
            VkQueryError::ExpirationOverflow => "expiration is out of range".to_owned(),
        }
    }
}

/// The value of the first parameter named `name`.
pub open spec fn lookup(pairs: Seq<Parameter>, name: Seq<char>) -> Option<Seq<char>>
    decreases pairs.len(),
{
    if pairs.len() == 0 {
        None
    } else if pairs[0].0 == name {
        Some(pairs[0].1)
    } else {
        lookup(pairs.skip(1), name)
    }
}

/// Finds the value of the first parameter named `name`.
pub fn find_parameter(pairs: &Vec<(String, String)>, name: &str) -> (value: Option<Vec<char>>)
    ensures
        match lookup(parameters(pairs@), name@) {
            Some(text) => value is Some && value->0@ == text,
            None => value is None,
        },
{
    let wanted = chars_of(name);
    let mut i: usize = 0;
    assert(parameters(pairs@).skip(0) =~= parameters(pairs@));
    while i < pairs.len()
        invariant
            i <= pairs.len(),
            wanted@ == name@,
            lookup(parameters(pairs@), name@) == lookup(
                parameters(pairs@).skip(i as int),
                name@,
            ),
        decreases pairs.len() - i,
    {
        let ghost rest = parameters(pairs@).skip(i as int);
        proof {
            assert(rest[0] == (pairs@[i as int].0@, pairs@[i as int].1@));
            assert(rest.skip(1) =~= parameters(pairs@).skip(i + 1));
        }
        let key = chars_of(pairs[i].0.as_str());
        if same_text(&key, &wanted) {
            return Some(chars_of(pairs[i].1.as_str()));
        }
        i += 1;
    }
    None
}

/// Whether a parameter is signed: its name begins with `vk_`.
pub open spec fn is_signed(parameter: Parameter) -> bool {
    has_at(parameter.0, 0, "vk_"@)
}

/// The signed ones among the parameters, in their order.
pub open spec fn signed_parameters(pairs: Seq<Parameter>) -> Seq<Parameter> {
    pairs.filter(|p: Parameter| is_signed(p))
}

/// Picks the signed parameters: those whose name begins with `vk_`, in
/// their order.
pub fn vk_parameters(pairs: &Vec<(String, String)>) -> (signed: Vec<(String, String)>)
    ensures
        parameters(signed@) == signed_parameters(parameters(pairs@)),
{
    let prefix = chars_of("vk_");
    let mut signed: Vec<(String, String)> = Vec::new();
    let mut i: usize = 0;
    proof {
        reveal(Seq::filter);
        assert(parameters(pairs@).take(0) =~= Seq::<Parameter>::empty());
        assert(parameters(signed@) =~= Seq::<Parameter>::empty());
    }
    while i < pairs.len()
        invariant
            i <= pairs.len(),
            prefix@ == "vk_"@,
            parameters(signed@) == signed_parameters(parameters(pairs@).take(i as int)),
        decreases pairs.len() - i,
    {
        let ghost before = parameters(pairs@).take(i as int);
        let ghost next = parameters(pairs@).take(i + 1);
        let ghost kept = signed@;
        proof {
            reveal(Seq::filter);
            assert(next.drop_last() =~= before);
            assert(next.last() == (pairs@[i as int].0@, pairs@[i as int].1@));
        }
        let key = chars_of(pairs[i].0.as_str());
        if holds_at(&key, 0, &prefix) {
            signed.push((pairs[i].0.clone(), pairs[i].1.clone()));
            proof {
                assert(parameters(signed@) =~= parameters(kept).push(next.last()));
            }
        }
        i += 1;
    }
    proof {
        assert(parameters(pairs@).take(pairs.len() as int) =~= parameters(pairs@));
    }
    signed
}

/// A character of base64 text in its URL-safe form.
pub open spec fn url_safe_char(c: char) -> char {
    if c == '+' {
        '-'
    } else if c == '/' {
        '_'
    } else {
        c
    }
}

/// `text` without the padding at its end.
pub open spec fn unpadded(text: Seq<char>) -> Seq<char>
    decreases text.len(),
{
    if text.len() > 0 && text.last() == '=' {
        unpadded(text.drop_last())
    } else {
        text
    }
}

/// The form in which a signature travels: base64 text with `-` for `+`
/// and `_` for `/`, without the padding at its end.
pub open spec fn signature_text(encoded: Seq<char>) -> Seq<char> {
    unpadded(encoded.map_values(|c: char| url_safe_char(c)))
}

/// Turns standard base64 text into the form in which a signature travels.
pub fn url_signature(encoded: &Vec<char>) -> (signature: Vec<char>)
    ensures
        signature@ == signature_text(encoded@),
{
    let ghost safe = encoded@.map_values(|c: char| url_safe_char(c));
    let mut end: usize = encoded.len();
    assert(safe.take(end as int) =~= safe);
    while end > 0 && encoded[end - 1] == '='
        invariant
            end <= encoded.len(),
            safe == encoded@.map_values(|c: char| url_safe_char(c)),
            unpadded(safe) == unpadded(safe.take(end as int)),
        decreases end,
    {
        proof {
            assert(safe.take(end as int).last() == '=');
            assert(safe.take(end as int).drop_last() =~= safe.take(end - 1));
        }
        end -= 1;
    }
    proof {
        if end > 0 {
            assert(safe.take(end as int).last() != '=');
        }
    }
    let mut signature: Vec<char> = Vec::new();
    let mut i: usize = 0;
    while i < end
        invariant
            i <= end <= encoded.len(),
            safe == encoded@.map_values(|c: char| url_safe_char(c)),
            signature@ == safe.take(i as int),
        decreases end - i,
    {
        let c = encoded[i];
        let out = if c == '+' {
            '-'
        } else if c == '/' {
            '_'
        } else {
            c
        };
        signature.push(out);
        proof {
            assert(safe.take(i + 1) =~= safe.take(i as int).push(safe[i as int]));
        }
        i += 1;
    }
    signature
}

/// Whom launch parameters name, given the signature that was computed for
/// their signed part: the owner in `vk_user_id` and the second in `vk_ts`,
/// where the parameter `sign` is that signature.
pub open spec fn vk_identity(pairs: Seq<Parameter>, signature: Seq<char>) -> Result<
    (UserId, i64),
    VkQueryFault,
> {
    match lookup(pairs, "sign"@) {
        None => Err(VkQueryFault::EmptySign),
        Some(sign) => if sign != signature {
            Err(VkQueryFault::InvalidSign)
        } else {
            match lookup(pairs, "vk_user_id"@) {
                None => Err(VkQueryFault::EmptyVkId),
                Some(owner) => match parse_i64_spec(owner) {
                    None => Err(VkQueryFault::InvalidVkId),
                    Some(owner) => match lookup(pairs, "vk_ts"@) {
                        None => Err(VkQueryFault::EmptyTimestamp),
                        Some(second) => match parse_i64_spec(second) {
                            None => Err(VkQueryFault::InvalidTimestamp),
                            Some(second) => Ok((UserId(owner), second)),
                        },
                    },
                },
            }
        },
    }
}

/// Checks launch parameters against the signature that was computed for
/// their signed part, and reads the owner and the second of the launch.
pub fn verify_vk_identity(pairs: &Vec<(String, String)>, signature: &Vec<char>) -> (identity:
    Result<(UserId, i64), VkQueryError>)
    ensures
        match vk_identity(parameters(pairs@), signature@) {
            Ok(named) => identity == Ok::<(UserId, i64), VkQueryError>(named),
            Err(fault) => identity is Err && identity->Err_0@ == fault,
        },
{
    let sign = match find_parameter(pairs, "sign") {
        None => {
            return Err(VkQueryError::EmptySign);
        },
        Some(sign) => sign,
    };
    if !same_text(&sign, signature) {
        return Err(VkQueryError::InvalidSign);
    }
    let owner = match find_parameter(pairs, "vk_user_id") {
        None => {
            return Err(VkQueryError::EmptyVkId);
        },
        Some(text) => match parse_i64(&text) {
            None => {
                return Err(VkQueryError::InvalidVkId);
            },
            Some(owner) => owner,
        },
    };
    let second = match find_parameter(pairs, "vk_ts") {
        None => {
            return Err(VkQueryError::EmptyTimestamp);
        },
        Some(text) => match parse_i64(&text) {
            None => {
                return Err(VkQueryError::InvalidTimestamp);
            },
            Some(second) => second,
        },
    };
    Ok((UserId(owner), second))
}

/// Whom a query string of launch parameters names under `service_token`.
pub open spec fn vk_query_identity(query: Seq<char>, service_token: Seq<char>) -> Result<
    (UserId, i64),
    VkQueryFault,
> {
    match urlencoded_pairs(query) {
        Err(reason) => Err(VkQueryFault::Malformed(reason)),
        Ok(pairs) => match lookup(pairs, "sign"@) {
            None => Err(VkQueryFault::EmptySign),
            Some(_) => match urlencoded_text(signed_parameters(pairs)) {
                Err(reason) => Err(VkQueryFault::Unencodable(reason)),
                Ok(signed) => match hmac_sha256(service_token, signed) {
                    None => Err(VkQueryFault::Key),
                    Some(tag) => vk_identity(pairs, signature_text(base64_text(tag))),
                },
            },
        },
    }
}

/// Reads the owner and the second of the launch from a query string of
/// launch parameters, after checking its signature under `service_token`.
pub fn extract_user_id_from_vk_query(query: &str, service_token: &str) -> (identity: Result<
    (UserId, i64),
    VkQueryError,
>)
    ensures
        match vk_query_identity(query@, service_token@) {
            Ok(named) => identity == Ok::<(UserId, i64), VkQueryError>(named),
            Err(fault) => identity is Err && identity->Err_0@ == fault,
        },
{
    let pairs = match parse_urlencoded(query) {
        Err(reason) => {
            return Err(VkQueryError::Malformed(reason));
        },
        Ok(pairs) => pairs,
    };
    if find_parameter(&pairs, "sign").is_none() {
        return Err(VkQueryError::EmptySign);
    }
    let signed = vk_parameters(&pairs);
    let cleared_query = match write_urlencoded(&signed) {
        Err(reason) => {
            return Err(VkQueryError::Unencodable(reason));
        },
        Ok(text) => text,
    };
    let tag = match hmac_sha256_tag(service_token, cleared_query.as_str()) {
        None => {
            return Err(VkQueryError::Key);
        },
        Some(tag) => tag,
    };
    let encoded = base64_encode(&tag);
    let signature = url_signature(&chars_of(encoded.as_str()));
    verify_vk_identity(&pairs, &signature)
}

/// The claims of the token that is issued for a launch: the owner, and
/// the expiry `expiration` seconds after the second of the launch.
pub open spec fn issued_claims(identity: (UserId, i64), expiration: i64) -> Result<
    Claims,
    VkQueryFault,
> {
    if i64::MIN <= identity.1 + expiration <= i64::MAX {
        Ok(Claims { id: identity.0, exp: (identity.1 + expiration) as i64 })
    } else {
        Err(VkQueryFault::ExpirationOverflow)
    }
}

/// The claims of the token for the owner that the launch parameters name.
pub open spec fn vk_token_claims(query: Seq<char>, service_key: Seq<char>, expiration: i64) -> Result<
    Claims,
    VkQueryFault,
> {
    match vk_query_identity(query, service_key) {
        Ok(identity) => issued_claims(identity, expiration),
        Err(fault) => Err(fault),
    }
}

/// Decides a request for a token: checks the launch parameters under the
/// service key and gives the claims to sign, or the reason of the refusal.
pub fn generate_vk_jwt_method(secure: &JwtConfig, payload: &GetVkJwtTokenRequest) -> (claims:
    Result<Claims, VkQueryError>)
    ensures
        match vk_token_claims(payload.query@, secure.service_key@, secure.expiration) {
            Ok(issued) => claims == Ok::<Claims, VkQueryError>(issued),
            Err(fault) => claims is Err && claims->Err_0@ == fault,
        },
{
    match extract_user_id_from_vk_query(payload.query.as_str(), secure.service_key.as_str()) {
        Err(e) => Err(e),
        Ok((user_id, timestamp)) => match timestamp.checked_add(secure.expiration) {
            Some(exp) => Ok(Claims { id: user_id, exp }),
            None => Err(VkQueryError::ExpirationOverflow),
        },
    }
}

} // verus!
