//! The requests that the flow sends, and their form encoding.
//!
//! A request body is a list of `name=value` fields joined by `&`, each name and
//! value written byte by byte: letters, digits and `*`, `-`, `.`, `_` as they
//! are, a space as `+`, any other byte as `%` and two upper-case hex digits.

use crate::auth::responses::DeviceCodeChallenge;
use vstd::prelude::*;
use vstd::string::StringSliceAdditionalSpecFns;

verus! {

/// The client id that the flow uses unless it is given another.
pub const CLIENT_ID: &'static str = "c85cbdd1-4823-4bc8-b02e-2f3f7caa9dd7";

/// The scope that the flow asks for unless it is given another.
pub const API_SCOPE: &'static str = "offline_access User.Read Tasks.ReadWrite";

/// The endpoint that hands out device codes, unless the flow is given another.
pub const DEVICE_CODE_ENDPOINT: &'static str =
    "https://login.microsoftonline.com/e620629d-ca12-4421-8f81-ba47552f618d/oauth2/v2.0/devicecode";

/// The endpoint that hands out tokens, unless the flow is given another.
pub const AUTH_ENDPOINT: &'static str =
    "https://login.microsoftonline.com/e620629d-ca12-4421-8f81-ba47552f618d/oauth2/v2.0/token";

/// The grant type that a poll for a device code's token names.
pub const DEVICE_CODE_GRANT: &'static str = "urn:ietf:params:oauth:grant-type:device_code";

/// The grant type that a request for a fresh token names.
pub const REFRESH_GRANT: &'static str = "refresh_token";

/// Whether a byte is written as it is.
pub open spec fn is_unreserved(byte: u8) -> bool {
    ||| 48 <= byte <= 57
    ||| 65 <= byte <= 90
    ||| 97 <= byte <= 122
    ||| byte == 42
    ||| byte == 45
    ||| byte == 46
    ||| byte == 95
}

/// The upper-case hex digit for a value below sixteen.
pub open spec fn hex_digit(value: u8) -> u8 {
    if value < 10 {
        (48 + value) as u8
    } else {
        (55 + value) as u8
    }
}

/// How one byte is written.
pub open spec fn encode_byte(byte: u8) -> Seq<u8> {
    if is_unreserved(byte) {
        seq![byte]
    } else if byte == 32 {
        seq![43u8]
    } else {
        seq![37u8, hex_digit(byte / 16), hex_digit(byte % 16)]
    }
}

/// How a run of bytes is written: each byte in turn.
pub open spec fn form_encode(bytes: Seq<u8>) -> Seq<u8>
    decreases bytes.len(),
{
    if bytes.len() == 0 {
        Seq::empty()
    } else {
        form_encode(bytes.drop_last()) + encode_byte(bytes.last())
    }
}

/// One field of a form: the name, `=`, the value, both encoded from their
/// UTF-8 bytes.
pub open spec fn form_field(name: Seq<char>, value: Seq<char>) -> Seq<u8> {
    form_encode(vstd::utf8::encode_utf8(name)) + seq![61u8] + form_encode(
        vstd::utf8::encode_utf8(value),
    )
}

/// Two fields joined by `&`.
pub open spec fn form_join(head: Seq<u8>, field: Seq<u8>) -> Seq<u8> {
    head + seq![38u8] + field
}

/// The value of an upper-case hex digit.
pub open spec fn hex_value(digit: u8) -> int {
    if digit <= 57 {
        digit - 48
    } else {
        digit - 55
    }
}

/// The bytes that an encoded run stands for, read from its end: a `%` two
/// places before the end starts an escaped byte, a `+` stands for a space,
/// any other byte for itself.
pub open spec fn form_decode(encoded: Seq<u8>) -> Seq<u8>
    decreases encoded.len(),
{
    let len = encoded.len() as int;
    if len == 0 {
        Seq::empty()
    } else if len >= 3 && encoded[len - 3] == 37 {
        form_decode(encoded.take(len - 3)).push(
            (hex_value(encoded[len - 2]) * 16 + hex_value(encoded[len - 1])) as u8,
        )
    } else if encoded[len - 1] == 43 {
        form_decode(encoded.drop_last()).push(32u8)
    } else {
        form_decode(encoded.drop_last()).push(encoded[len - 1])
    }
}

/// An encoded run holds nothing but unreserved bytes, `+` and `%`: no `&` and
/// no `=`, so the fields of a form and their two halves can be told apart.
pub proof fn lemma_form_encode_alphabet(bytes: Seq<u8>)
    ensures
        forall|i: int|
            0 <= i < form_encode(bytes).len() ==> {
                let byte = #[trigger] form_encode(bytes)[i];
                is_unreserved(byte) || byte == 43 || byte == 37
            },
    decreases bytes.len(),
{
    if bytes.len() > 0 {
        lemma_form_encode_alphabet(bytes.drop_last());
        let head = form_encode(bytes.drop_last());
        let tail = encode_byte(bytes.last());
        assert forall|i: int| 0 <= i < form_encode(bytes).len() implies {
            let byte = #[trigger] form_encode(bytes)[i];
            is_unreserved(byte) || byte == 43 || byte == 37
        } by {
            if i < head.len() {
                assert(form_encode(bytes)[i] == head[i]);
            } else {
                assert(form_encode(bytes)[i] == tail[i - head.len()]);
            }
        }
    }
}

/// Neither of the last two bytes of an encoded run is a `%`.
proof fn lemma_form_encode_tail(bytes: Seq<u8>)
    ensures
        form_encode(bytes).len() >= 1 ==> form_encode(bytes)[form_encode(bytes).len() - 1] != 37,
        form_encode(bytes).len() >= 2 ==> form_encode(bytes)[form_encode(bytes).len() - 2] != 37,
    decreases bytes.len(),
{
    if bytes.len() > 0 {
        lemma_form_encode_tail(bytes.drop_last());
    }
}

/// Decoding an encoded run gives the run back.
pub proof fn lemma_form_decode_encode(bytes: Seq<u8>)
    ensures
        form_decode(form_encode(bytes)) == bytes,
    decreases bytes.len(),
{
    if bytes.len() > 0 {
        let before = bytes.drop_last();
        let byte = bytes.last();
        let head = form_encode(before);
        let encoded = form_encode(bytes);
        let len = encoded.len() as int;
        lemma_form_decode_encode(before);
        lemma_form_encode_tail(before);
        if is_unreserved(byte) || byte == 32 {
            assert(encoded.drop_last() =~= head);
            assert(len >= 3 ==> encoded[len - 3] == head[head.len() - 2]);
        } else {
            assert(encoded.take(len - 3) =~= head);
            assert(hex_value(hex_digit(byte / 16)) == byte / 16);
            assert(hex_value(hex_digit(byte % 16)) == byte % 16);
        }
        assert(form_decode(encoded) =~= before.push(byte));
        assert(before.push(byte) =~= bytes);
    }
}

/// Two runs with the same encoding are the same run.
pub proof fn lemma_form_encode_injective(a: Seq<u8>, b: Seq<u8>)
    requires
        form_encode(a) == form_encode(b),
    ensures
        a == b,
{
    lemma_form_decode_encode(a);
    lemma_form_decode_encode(b);
}

fn unreserved(byte: u8) -> (r: bool)
    ensures
        r == is_unreserved(byte),
{
    (48 <= byte && byte <= 57) || (65 <= byte && byte <= 90) || (97 <= byte && byte <= 122)
        || byte == 42 || byte == 45 || byte == 46 || byte == 95
}

fn hex(value: u8) -> (r: u8)
    requires
        value < 16,
    ensures
        r == hex_digit(value),
{
    if value < 10 {
        48 + value
    } else {
        55 + value
    }
}

/// Appends the encoding of `text` to `out`.
pub fn push_form_encoded(out: &mut Vec<u8>, text: &str)
    ensures
        final(out)@ == old(out)@ + form_encode(text.spec_bytes()),
{
    let bytes = text.as_bytes();
    let ghost before = out@;
    let mut i: usize = 0;
    proof {
        assert(bytes@.take(0) =~= Seq::<u8>::empty());
        assert(out@ =~= before + form_encode(bytes@.take(0)));
    }
    while i < bytes.len()
        invariant
            i <= bytes.len(),
            bytes@ == text.spec_bytes(),
            out@ == before + form_encode(bytes@.take(i as int)),
        decreases bytes.len() - i,
    {
        let byte = bytes[i];
        let ghost sofar = out@;
        if unreserved(byte) {
            out.push(byte);
        } else if byte == 32 {
            out.push(43);
        } else {
            out.push(37);
            out.push(hex(byte / 16));
            out.push(hex(byte % 16));
        }
        proof {
            assert(bytes@.take(i + 1).drop_last() =~= bytes@.take(i as int));
            assert(bytes@.take(i + 1).last() == byte);
            assert(out@ =~= sofar + encode_byte(byte));
            assert(out@ =~= before + form_encode(bytes@.take(i + 1)));
        }
        i = i + 1;
    }
    proof {
        assert(bytes@.take(bytes@.len() as int) =~= bytes@);
    }
}

/// Appends the field `name=value` to `out`.
pub fn push_form_field(out: &mut Vec<u8>, name: &str, value: &str)
    ensures
        final(out)@ == old(out)@ + form_field(name@, value@),
{
    let ghost before = out@;
    push_form_encoded(out, name);
    out.push(61);
    push_form_encoded(out, value);
    proof {
        assert(out@ =~= before + form_field(name@, value@));
    }
}

/// A form to post to one of the provider's endpoints.
#[derive(Clone, PartialEq, Eq)]
pub struct HttpRequest {
    /// The endpoint.
    pub url: String,
    /// The form-encoded body.
    pub body: Vec<u8>,
}

/// The request for a device code.
#[derive(Clone, Copy, Debug, PartialEq, Eq)]
pub struct DeviceCodeAuthenticationRequest<'req> {
    pub client_id: &'req str,
    pub scope: &'req str,
}

impl<'req> DeviceCodeAuthenticationRequest<'req> {
    /// The body `client_id=..&scope=..`.
    pub open spec fn body(client_id: Seq<char>, scope: Seq<char>) -> Seq<u8> {
        form_join(form_field("client_id"@, client_id), form_field("scope"@, scope))
    }

    /// The form-encoded body of the request.
    pub fn encode(&self) -> (body: Vec<u8>)
        ensures
            body@ == Self::body(self.client_id@, self.scope@),
    {
        let mut out: Vec<u8> = Vec::new();
        push_form_field(&mut out, "client_id", self.client_id);
        out.push(38);
        push_form_field(&mut out, "scope", self.scope);
        proof {
            assert(out@ =~= Self::body(self.client_id@, self.scope@));
        }
        out
    }
}

/// The poll for the token that a device code stands for.
#[derive(Clone, Copy, PartialEq, Eq)]
pub struct AuthenticationRequest<'req> {
    pub client_id: &'req str,
    /// Sent under the name `code`.
    pub device_code: &'req str,
    pub grant_type: &'req str,
}

impl<'req> AuthenticationRequest<'req> {
    /// The body `client_id=..&code=..&grant_type=..`.
    pub open spec fn body(
        client_id: Seq<char>,
        device_code: Seq<char>,
        grant_type: Seq<char>,
    ) -> Seq<u8> {
        form_join(
            form_join(form_field("client_id"@, client_id), form_field("code"@, device_code)),
            form_field("grant_type"@, grant_type),
        )
    }

    /// The poll of the standard client for the token behind a challenge's
    /// device code.
    pub fn from(challenge: &'req DeviceCodeChallenge) -> (request: Self)
        ensures
            request.client_id@ == CLIENT_ID@,
            request.device_code@ == challenge@.device_code,
            request.grant_type@ == DEVICE_CODE_GRANT@,
    {
        AuthenticationRequest {
            client_id: CLIENT_ID,
            device_code: challenge.device_code(),
            grant_type: DEVICE_CODE_GRANT,
        }
    }

    /// The poll of client `client_id` for the token behind `device_code`.
    pub fn new(client_id: &'req str, device_code: &'req str) -> (request: Self)
        ensures
            request.client_id@ == client_id@,
            request.device_code@ == device_code@,
            request.grant_type@ == DEVICE_CODE_GRANT@,
    {
        AuthenticationRequest { client_id, device_code, grant_type: DEVICE_CODE_GRANT }
    }

    /// The form-encoded body of the request.
    pub fn encode(&self) -> (body: Vec<u8>)
        ensures
            body@ == Self::body(self.client_id@, self.device_code@, self.grant_type@),
    {
        let mut out: Vec<u8> = Vec::new();
        push_form_field(&mut out, "client_id", self.client_id);
        out.push(38);
        push_form_field(&mut out, "code", self.device_code);
        out.push(38);
        push_form_field(&mut out, "grant_type", self.grant_type);
        proof {
            assert(out@ =~= Self::body(self.client_id@, self.device_code@, self.grant_type@));
        }
        out
    }
}

/// The request for a fresh token in exchange for a refresh token.
#[derive(Clone, Copy, PartialEq, Eq)]
pub struct RefreshRequest<'req> {
    pub client_id: &'req str,
    pub grant_type: &'req str,
    pub refresh_token: &'req str,
}

impl<'req> RefreshRequest<'req> {
    /// The body `client_id=..&grant_type=..&refresh_token=..`.
    pub open spec fn body(
        client_id: Seq<char>,
        grant_type: Seq<char>,
        refresh_token: Seq<char>,
    ) -> Seq<u8> {
        form_join(
            form_join(
                form_field("client_id"@, client_id),
                form_field("grant_type"@, grant_type),
            ),
            form_field("refresh_token"@, refresh_token),
        )
    }

    /// The request of client `client_id` to renew `refresh_token`.
    pub fn new(client_id: &'req str, refresh_token: &'req str) -> (request: Self)
        ensures
            request.client_id@ == client_id@,
            request.grant_type@ == REFRESH_GRANT@,
            request.refresh_token@ == refresh_token@,
    {
        RefreshRequest { client_id, grant_type: REFRESH_GRANT, refresh_token }
    }

    /// The form-encoded body of the request.
    pub fn encode(&self) -> (body: Vec<u8>)
        ensures
            body@ == Self::body(self.client_id@, self.grant_type@, self.refresh_token@),
    {
        let mut out: Vec<u8> = Vec::new();
        push_form_field(&mut out, "client_id", self.client_id);
        out.push(38);
        push_form_field(&mut out, "grant_type", self.grant_type);
        out.push(38);
        push_form_field(&mut out, "refresh_token", self.refresh_token);
        proof {
            assert(out@ =~= Self::body(self.client_id@, self.grant_type@, self.refresh_token@));
        }
        out
    }
}

} // verus!
