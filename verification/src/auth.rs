use vstd::prelude::*;

use base64::engine::general_purpose::STANDARD_NO_PAD;
use base64::Engine;

use vstd::utf8::encode_utf8;

use crate::text::{is_text, split, split_on, texts_of};

verus! {

/// The digit of the standard Base64 alphabet (`A`-`Z`, `a`-`z`, `0`-`9`,
/// `+`, `/`) for the six-bit value `v`.
pub open spec fn base64_digit(v: int) -> char {
    if v < 26 {
        ('A' as int + v) as char
    } else if v < 52 {
        ('a' as int + (v - 26)) as char
    } else if v < 62 {
        ('0' as int + (v - 52)) as char
    } else if v == 62 {
        '+'
    } else {
        '/'
    }
}

/// Base64 of `b` with the standard alphabet and no padding: every three bytes
/// give four digits, six bits each; a last two bytes give three digits and a
/// last single byte two, the missing low bits taken as zero.
pub open spec fn base64_of_bytes(b: Seq<u8>) -> Seq<char>
    decreases b.len(),
{
    let x: int = if b.len() > 0 { b[0] as int } else { 0 };
    let y: int = if b.len() > 1 { b[1] as int } else { 0 };
    let z: int = if b.len() > 2 { b[2] as int } else { 0 };
    if b.len() == 0 {
        Seq::empty()
    } else if b.len() == 1 {
        seq![base64_digit(x / 4), base64_digit((x % 4) * 16)]
    } else if b.len() == 2 {
        seq![base64_digit(x / 4), base64_digit((x % 4) * 16 + y / 16), base64_digit((y % 16) * 4)]
    } else {
        seq![
            base64_digit(x / 4),
            base64_digit((x % 4) * 16 + y / 16),
            base64_digit((y % 16) * 4 + z / 64),
            base64_digit(z % 64),
        ] + base64_of_bytes(b.skip(3))
    }
}

/// The standard Base64 encoding, without padding, of the UTF-8 bytes of a
/// text.
pub open spec fn base64_no_pad(input: Seq<char>) -> Seq<char> {
    base64_of_bytes(encode_utf8(input))
}

/// `Engine::encode` of the `STANDARD_NO_PAD` engine: Base64 with the standard
/// alphabet and no padding, of the UTF-8 bytes of `input`. Claimed: the
/// result is `base64_no_pad` of the input. The engine panics where the length
/// of the encoding overflows `usize`, which the bound on the input rules out.
#[verifier::external_body]
fn encode_base64_no_pad(input: &str) -> (r: String)
    requires
        input@.len() <= usize::MAX / 8,
    ensures
        r@ == base64_no_pad(input@),
{
    STANDARD_NO_PAD.encode(input)
}

/// The `Authorization` header value for Basic credentials already encoded in
/// Base64.
pub fn basic_header(encoded: &str) -> (r: String)
    ensures
        r@ == "Basic "@ + encoded@,
{
    String::from_str("Basic ").concat(encoded)
}

/// The `Authorization` header value that logs in with a user name and a
/// password: `Basic ` and the Base64 of `username:password`.
pub fn basic_credentials(username: &str, password: &str) -> (r: String)
    requires
        username@.len() + password@.len() < usize::MAX / 8,
    ensures
        r@ == "Basic "@ + base64_no_pad(username@ + ":"@ + password@),
{
    let joined = String::from_str(username).concat(":").concat(password);
    proof {
        reveal_strlit(":");
    }
    let encoded = encode_base64_no_pad(joined.as_str());
    basic_header(encoded.as_str())
}

/// The session token in a `set-cookie` header: the value of the first
/// cookie (the text after its first `=`, up to the next `=`), as the cookie
/// `auth=` that later requests send.
pub open spec fn token_in_cookie(header: Seq<char>) -> Option<Seq<char>> {
    let first = split_on(header, ';')[0];
    let parts = split_on(first, '=');
    if parts.len() >= 2 {
        Some("auth="@ + parts[1])
    } else {
        None
    }
}

/// The session token in a `set-cookie` header; `None` where its first cookie
/// has no `=`.
pub fn token_from_cookie(header: &str) -> (r: Option<String>)
    ensures
        match r {
            Some(t) => token_in_cookie(header@) == Some(t@),
            None => token_in_cookie(header@) is None,
        },
{
    let cookies = split(header, ';');
    proof {
        crate::text::lemma_split_nonempty(header@, ';');
        assert(texts_of(cookies@)[0] == cookies@[0]@);
    }
    let parts = split(cookies[0].as_str(), '=');
    if parts.len() >= 2 {
        proof {
            assert(texts_of(parts@)[1] == parts@[1]@);
        }
        Some(String::from_str("auth=").concat(parts[1].as_str()))
    } else {
        None
    }
}

/// The second-factor kind that a login names, where this proxy knows it.
pub open spec fn known_factor(method: Seq<char>) -> Option<Seq<char>> {
    if method == "emailOtp"@ {
        Some("emailotp"@)
    } else if method == "totp"@ {
        Some("totp"@)
    } else {
        None
    }
}

/// The second factor to ask for: the first known one among those that the
/// login requires, else `otp`.
pub open spec fn factor_to_ask(methods: Seq<String>) -> Seq<char>
    decreases methods.len(),
{
    if methods.len() == 0 {
        "otp"@
    } else {
        match known_factor(methods[0]@) {
            Some(f) => f,
            None => factor_to_ask(methods.drop_first()),
        }
    }
}

/// The second factor to ask for after a login that requires `methods`.
pub fn auth_type(methods: &Vec<String>) -> (r: &'static str)
    ensures
        r@ == factor_to_ask(methods@),
{
    let mut i: usize = 0;
    proof {
        assert(methods@.skip(0) =~= methods@);
    }
    while i < methods.len()
        invariant
            0 <= i <= methods.len(),
            factor_to_ask(methods@) == factor_to_ask(methods@.skip(i as int)),
        decreases methods.len() - i,
    {
        proof {
            assert(methods@.skip(i as int)[0] == methods@[i as int]);
            assert(methods@.skip(i as int).drop_first() == methods@.skip(i + 1));
        }
        if is_text(methods[i].as_str(), "emailOtp") {
            return "emailotp";
        } else if is_text(methods[i].as_str(), "totp") {
            return "totp";
        }
        i = i + 1;
    }
    proof {
        assert(methods@.skip(i as int) =~= Seq::<String>::empty());
    }
    "otp"
}

} // verus!
