//! Signing of requests to the exchange. The signature is a SHA-256 digest
//! over the message and the key, in hexadecimal.

use crate::api::types::ApiError;
use crate::clock::utc_now_millis;
use crate::datastructures::symbol_map::same_text;
use crate::utils::text::{digits_of, join, u64_to_text};
use vstd::prelude::*;
use vstd::string::StringExecFns;
use vstd::string::StrSliceExecFns;

verus! {

/// The SHA-256 digest of a string of bytes.
pub uninterp spec fn sha256_of(data: Seq<u8>) -> Seq<u8>;

/// Calls `sha2::Sha256::digest` and hands back the digest as bytes. A
/// SHA-256 digest has 32 bytes.
#[verifier::external_body]
fn sha256(data: &Vec<u8>) -> (r: Vec<u8>)
    ensures
        r@ == sha256_of(data@),
        r@.len() == 32,
{
    <sha2::Sha256 as sha2::Digest>::digest(data.as_slice()).to_vec()
}

/// The character of a hexadecimal digit, lower case.
pub open spec fn hex_digit(d: int) -> char {
    if d == 0 {
        '0'
    } else if d == 1 {
        '1'
    } else if d == 2 {
        '2'
    } else if d == 3 {
        '3'
    } else if d == 4 {
        '4'
    } else if d == 5 {
        '5'
    } else if d == 6 {
        '6'
    } else if d == 7 {
        '7'
    } else if d == 8 {
        '8'
    } else if d == 9 {
        '9'
    } else if d == 10 {
        'a'
    } else if d == 11 {
        'b'
    } else if d == 12 {
        'c'
    } else if d == 13 {
        'd'
    } else if d == 14 {
        'e'
    } else {
        'f'
    }
}

/// Bytes in hexadecimal: two digits for each byte, the high one first.
pub open spec fn hex_of(data: Seq<u8>) -> Seq<char> {
    Seq::new(
        2 * data.len(),
        |i: int|
            if i % 2 == 0 {
                hex_digit((data[i / 2] as int) / 16)
            } else {
                hex_digit((data[i / 2] as int) % 16)
            },
    )
}

pub(crate) fn hex_text(d: u8) -> (r: &'static str)
    requires
        d < 16,
    ensures
        r@ == seq![hex_digit(d as int)],
{
    proof {
        reveal_strlit("0");
        reveal_strlit("1");
        reveal_strlit("2");
        reveal_strlit("3");
        reveal_strlit("4");
        reveal_strlit("5");
        reveal_strlit("6");
        reveal_strlit("7");
        reveal_strlit("8");
        reveal_strlit("9");
        reveal_strlit("a");
        reveal_strlit("b");
        reveal_strlit("c");
        reveal_strlit("d");
        reveal_strlit("e");
        reveal_strlit("f");
    }
    let r = if d == 0 {
        "0"
    } else if d == 1 {
        "1"
    } else if d == 2 {
        "2"
    } else if d == 3 {
        "3"
    } else if d == 4 {
        "4"
    } else if d == 5 {
        "5"
    } else if d == 6 {
        "6"
    } else if d == 7 {
        "7"
    } else if d == 8 {
        "8"
    } else if d == 9 {
        "9"
    } else if d == 10 {
        "a"
    } else if d == 11 {
        "b"
    } else if d == 12 {
        "c"
    } else if d == 13 {
        "d"
    } else if d == 14 {
        "e"
    } else {
        "f"
    };
    assert(r@ =~= seq![hex_digit(d as int)]);
    r
}

/// Bytes in hexadecimal, lower case.
pub fn encode(data: &[u8]) -> (r: String)
    ensures
        r@ == hex_of(data@),
{
    let mut out = String::new();
    let mut i: usize = 0;
    assert(out@ =~= hex_of(data@.take(0)));
    while i < data.len()
        invariant
            i <= data.len(),
            out@ == hex_of(data@.take(i as int)),
        decreases data.len() - i,
    {
        let byte = data[i];
        let ghost before = out@;
        out.append(hex_text(byte / 16));
        out.append(hex_text(byte % 16));
        assert(out@ =~= hex_of(data@.take(i + 1))) by {
            let next = hex_of(data@.take(i + 1));
            assert(out@.len() == next.len());
            assert forall|k: int| 0 <= k < next.len() implies out@[k] == next[k] by {
                if k < 2 * i {
                    assert(out@[k] == before[k]);
                    assert(data@.take(i as int)[k / 2] == data@.take(i + 1)[k / 2]);
                } else {
                    assert(data@.take(i + 1)[k / 2] == byte);
                }
            }
        }
        i = i + 1;
    }
    assert(data@.take(i as int) =~= data@);
    out
}

#[derive(Debug)]
pub struct HyperLiquidAuth {
    pub private_key: String,
    pub account_id: Option<u64>,
}

impl Clone for HyperLiquidAuth {
    fn clone(&self) -> (r: Self)
        ensures
            r == *self,
    {
        HyperLiquidAuth { private_key: self.private_key.clone(), account_id: self.account_id }
    }
}

#[derive(Debug, Clone)]
pub struct AuthRequest {
    pub action: String,
    pub nonce: u64,
}

/// A request with its signature; `data` holds the request's body as JSON text.
#[derive(Debug, Clone)]
pub struct HyperLiquidSignedRequest {
    pub action: String,
    pub nonce: u64,
    pub signature: String,
    pub data: String,
}

#[derive(Debug, Clone)]
pub struct HyperLiquidAuthResponse {
    pub status: String,
    pub response: Option<String>,
}

/// The signature of a message under a key: the digest of the bytes of the
/// message followed by the bytes of the key, in hexadecimal.
pub open spec fn signature_of(message: Seq<char>, key: Seq<char>) -> Seq<char> {
    hex_of(sha256_of(vstd::utf8::encode_utf8(message) + vstd::utf8::encode_utf8(key)))
}

/// The headers that every request carries: the kind of its content and,
/// where the account is known, the account.
pub open spec fn headers_of(account_id: Option<u64>) -> Seq<(Seq<char>, Seq<char>)> {
    match account_id {
        Some(id) => seq![
            ("Content-Type"@, "application/json"@),
            ("X-Account-Id"@, digits_of(id as nat)),
        ],
        None => seq![("Content-Type"@, "application/json"@)],
    }
}

/// A list of headers as characters.
pub open spec fn headers_view(headers: Seq<(String, String)>) -> Seq<(Seq<char>, Seq<char>)> {
    Seq::new(headers.len(), |i: int| (headers[i].0@, headers[i].1@))
}

/// What the exchange's answer to a request to authenticate means: an
/// answer that is not `ok`, in its status line or in its body, is an error
/// of authentication; one that cannot be read is an error of parsing.
pub fn judge_auth_response(http_ok: bool, status_line: &str, answer_status: Result<String, String>) -> (r:
    Result<(), ApiError>)
    ensures
        !http_ok ==> (r matches Err(ApiError::AuthenticationError(m)) && m@
            == "Authentication failed with status: "@ + status_line@),
        http_ok ==> match answer_status {
            Err(why) => r matches Err(ApiError::ParseError(m)) && m == why,
            Ok(status) => if status@ == "ok"@ {
                r is Ok
            } else {
                r matches Err(ApiError::AuthenticationError(m)) && m@
                    == "Authentication response status not ok"@
            },
        },
{
    if !http_ok {
        return Err(
            ApiError::AuthenticationError(join("Authentication failed with status: ", status_line)),
        );
    }
    match answer_status {
        Err(why) => Err(ApiError::ParseError(why)),
        Ok(status) => if same_text(status.as_str(), "ok") {
            Ok(())
        } else {
            Err(ApiError::AuthenticationError("Authentication response status not ok".to_string()))
        },
    }
}

impl HyperLiquidAuth {
    /// The credentials of a key, the account not yet known.
    pub fn new(private_key: String) -> (r: Self)
        ensures
            r.private_key == private_key,
            r.account_id is None,
    {
        HyperLiquidAuth { private_key, account_id: None }
    }

    /// The same credentials, for the account given.
    pub fn with_account_id(self, account_id: u64) -> (r: Self)
        ensures
            r.private_key == self.private_key,
            r.account_id == Some(account_id),
    {
        HyperLiquidAuth { private_key: self.private_key, account_id: Some(account_id) }
    }

    /// The nonce of a request made at the time `now`: the milliseconds
    /// since the epoch, and nothing for a time before the epoch.
    pub open spec fn nonce_of(now: i64) -> u64 {
        if now < 0 {
            0
        } else {
            now as u64
        }
    }

    /// The nonce of a request made at the time `now`.
    pub fn nonce_at(now: i64) -> (r: u64)
        ensures
            r == Self::nonce_of(now),
    {
        if now < 0 {
            0
        } else {
            now as u64
        }
    }

    /// A number that a request is used once with: the nonce of the
    /// present time.
    pub fn get_nonce(&self) -> (r: u64)
        ensures
            exists|now: i64| r == #[trigger] Self::nonce_of(now),
    {
        Self::nonce_at(utc_now_millis())
    }

    /// Signs a message: the digest of the message followed by the key, in
    /// hexadecimal.
    pub fn sign_message(&self, message: &str) -> (r: Result<String, ApiError>)
        ensures
            r matches Ok(signature) && signature@ == signature_of(message@, self.private_key@),
    {
        let mut bytes = message.as_bytes_vec();
        let mut key = self.private_key.as_str().as_bytes_vec();
        bytes.append(&mut key);
        let digest = sha256(&bytes);
        Ok(encode(digest.as_slice()))
    }

    /// A request for `action` with the body `data_json`, signed over the
    /// action followed by the body.
    pub fn create_signed_request_with(&self, action: &str, data_json: &str, nonce: u64) -> (r:
        Result<HyperLiquidSignedRequest, ApiError>)
        ensures
            r matches Ok(request) && request.action@ == action@ && request.nonce == nonce
                && request.data@ == data_json@ && request.signature@ == signature_of(
                action@ + data_json@,
                self.private_key@,
            ),
    {
        let message = join(action, data_json);
        match self.sign_message(message.as_str()) {
            Ok(signature) => Ok(
                HyperLiquidSignedRequest {
                    action: String::from_str(action),
                    nonce,
                    signature,
                    data: String::from_str(data_json),
                },
            ),
            Err(e) => Err(e),
        }
    }

    /// A request for `action` with the body `data_json`, signed, with the
    /// present time as its nonce.
    pub fn create_signed_request(&self, action: &str, data_json: &str) -> (r: Result<
        HyperLiquidSignedRequest,
        ApiError,
    >)
        ensures
            r matches Ok(request) && request.action@ == action@ && request.data@ == data_json@
                && request.signature@ == signature_of(action@ + data_json@, self.private_key@),
    {
        let nonce = self.get_nonce();
        self.create_signed_request_with(action, data_json, nonce)
    }

    /// The headers of a request.
    pub fn get_headers(&self) -> (r: Vec<(String, String)>)
        ensures
            headers_view(r@) == headers_of(self.account_id),
    {
        let mut headers: Vec<(String, String)> = Vec::new();
        headers.push(("Content-Type".to_string(), "application/json".to_string()));
        match self.account_id {
            Some(id) => {
                headers.push(("X-Account-Id".to_string(), u64_to_text(id)));
            },
            None => {},
        }
        assert(headers_view(headers@) =~= headers_of(self.account_id));
        headers
    }

    /// Whether the account is known.
    pub fn is_authenticated(&self) -> (r: bool)
        ensures
            r == self.account_id.is_some(),
    {
        self.account_id.is_some()
    }
}

} // verus!
