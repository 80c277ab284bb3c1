//! Transport identities, request tokens and response paths.
//!
//! A response to a portal call arrives as a signal on a per-request object
//! path. That path is a pure function of the connection's identity and a
//! fresh token, so it can be computed — and subscribed to — before the
//! triggering call is issued, which closes the race between call and
//! response.

use vstd::prelude::*;

verus! {

broadcast use vstd::string::group_string_axioms;

/// The well-known path namespace under which the portal delivers responses.
pub open spec fn request_namespace() -> Seq<char> {
    "/org/freedesktop/portal/desktop/request/"@
}

/// One character of the sanitizing transform: the separator '.' is not
/// allowed in a path segment and becomes '_'.
pub open spec fn sanitized_char(c: char) -> char {
    if c == '.' {
        '_'
    } else {
        c
    }
}

/// The byte the sanitizing transform emits for an ASCII character.
pub open spec fn sanitized_byte(c: char) -> u8 {
    if c == '.' {
        95
    } else {
        c as u8
    }
}

/// The transport identity: the connection's unique bus name with its leading
/// ':' removed and every '.' replaced by '_', fit for use as a path segment.
pub open spec fn sender_token_spec(name: Seq<char>) -> Seq<char> {
    name.subrange(1, name.len() as int).map_values(|c: char| sanitized_char(c))
}

/// The decimal digits of `n`, most significant first, as ASCII bytes.
pub open spec fn decimal_bytes(n: u64) -> Seq<u8>
    decreases n,
{
    if n < 10 {
        seq![(48 + n) as u8]
    } else {
        decimal_bytes(n / 10).push((48 + n % 10) as u8)
    }
}

/// The decimal digits of `n` as characters.
pub open spec fn decimal_chars(n: u64) -> Seq<char> {
    decimal_bytes(n).map_values(|b: u8| b as char)
}

/// A request token: a fixed prefix and the decimal rendering of the nonce.
pub open spec fn token_spec(nonce: u64) -> Seq<char> {
    "screencap"@ + decimal_chars(nonce)
}

/// The response path for one request: namespace, transport identity, token.
pub open spec fn response_path_spec(sender: Seq<char>, token: Seq<char>) -> Seq<char> {
    request_namespace() + sender + "/"@ + token
}

/// Relies on `String::from_utf8`: bytes below 0x80 are one-byte UTF-8
/// encodings of the characters with the same code points, so the string read
/// back from such bytes has exactly those characters.
#[verifier::external_body]
fn ascii_to_string(bytes: Vec<u8>) -> (r: String)
    requires
        forall|i: int| 0 <= i < bytes@.len() ==> bytes@[i] < 128,
    ensures
        r@.len() == bytes@.len(),
        forall|i: int| 0 <= i < bytes@.len() ==> r@[i] == (#[trigger] bytes@[i]) as char,
{
    String::from_utf8(bytes).unwrap_or_default()
}

/// Relies on `rand::random`: draws a value from the thread-local generator.
/// Nothing is assumed about which value comes back.
#[verifier::external_body]
pub(crate) fn fresh_nonce() -> u64 {
    rand::random::<u64>()
}

/// An ASCII character and the byte with its code point cast into each other.
proof fn lemma_ascii_char_byte(c: char)
    requires
        (c as u32) < 128,
    ensures
        (c as u8) == ((c as u32) as u8),
        (c as u8) < 128,
        ((c as u8) as char) == c,
{
}

/// Bytes below 0x80 that name the same character are the same byte.
proof fn lemma_byte_char_injective(b1: u8, b2: u8)
    requires
        b1 < 128,
        b2 < 128,
        (b1 as char) == (b2 as char),
    ensures
        b1 == b2,
{
}

/// Every decimal digit byte is printable ASCII.
proof fn lemma_decimal_bytes_ascii(n: u64)
    ensures
        forall|i: int| 0 <= i < decimal_bytes(n).len() ==> 48 <= #[trigger] decimal_bytes(n)[i]
            < 58,
    decreases n,
{
    if n >= 10 {
        lemma_decimal_bytes_ascii(n / 10);
        assert(decimal_bytes(n) == decimal_bytes(n / 10).push((48 + n % 10) as u8));
        assert forall|i: int| 0 <= i < decimal_bytes(n).len() implies 48 <= #[trigger] decimal_bytes(
            n,
        )[i] < 58 by {
            if i < decimal_bytes(n / 10).len() {
                assert(decimal_bytes(n)[i] == decimal_bytes(n / 10)[i]);
            }
        }
    }
}

/// A number below ten has one digit; a larger one has more.
proof fn lemma_decimal_len(n: u64)
    ensures
        decimal_bytes(n).len() >= 1,
        n < 10 <==> decimal_bytes(n).len() == 1,
    decreases n,
{
    if n >= 10 {
        lemma_decimal_len(n / 10);
    }
}

/// Distinct numbers have distinct decimal renderings.
proof fn lemma_decimal_bytes_injective(a: u64, b: u64)
    requires
        decimal_bytes(a) == decimal_bytes(b),
    ensures
        a == b,
    decreases a,
{
    lemma_decimal_len(a);
    lemma_decimal_len(b);
    if a < 10 && b < 10 {
        assert(decimal_bytes(a)[0] == (48 + a) as u8);
        assert(decimal_bytes(b)[0] == (48 + b) as u8);
    } else if a >= 10 && b >= 10 {
        let sa = decimal_bytes(a);
        let sb = decimal_bytes(b);
        assert(sa == decimal_bytes(a / 10).push((48 + a % 10) as u8));
        assert(sb == decimal_bytes(b / 10).push((48 + b % 10) as u8));
        assert(sa.last() == (48 + a % 10) as u8);
        assert(sb.last() == (48 + b % 10) as u8);
        assert(a % 10 == b % 10);
        assert(decimal_bytes(a / 10) =~= sa.drop_last());
        assert(decimal_bytes(b / 10) =~= sb.drop_last());
        lemma_decimal_bytes_injective(a / 10, b / 10);
        vstd::arithmetic::div_mod::lemma_fundamental_div_mod(a as int, 10);
        vstd::arithmetic::div_mod::lemma_fundamental_div_mod(b as int, 10);
    } else {
        assert(false);
    }
}

/// Distinct nonces give distinct tokens.
pub proof fn lemma_tokens_distinct(n1: u64, n2: u64)
    requires
        n1 != n2,
    ensures
        token_spec(n1) != token_spec(n2),
{
    if token_spec(n1) == token_spec(n2) {
        let p = "screencap"@;
        let c1 = decimal_chars(n1);
        let c2 = decimal_chars(n2);
        assert((p + c1).len() == (p + c2).len());
        assert forall|i: int| 0 <= i < c1.len() implies c1[i] == c2[i] by {
            assert((p + c1)[p.len() + i] == c1[i]);
            assert((p + c2)[p.len() + i] == c2[i]);
        }
        assert(c1 =~= c2);
        lemma_decimal_bytes_ascii(n1);
        lemma_decimal_bytes_ascii(n2);
        assert forall|i: int| 0 <= i < decimal_bytes(n1).len() implies #[trigger] decimal_bytes(
            n1,
        )[i] == decimal_bytes(n2)[i] by {
            assert(c1[i] == (decimal_bytes(n1)[i] as char));
            assert(c2[i] == (decimal_bytes(n2)[i] as char));
            lemma_byte_char_injective(decimal_bytes(n1)[i], decimal_bytes(n2)[i]);
        }
        assert(decimal_bytes(n1) =~= decimal_bytes(n2));
        lemma_decimal_bytes_injective(n1, n2);
        assert(false);
    }
}

/// Response paths derived from distinct nonces on one transport identity are
/// distinct: concurrent requests on one connection cannot be confused.
pub proof fn lemma_response_paths_distinct(sender: Seq<char>, n1: u64, n2: u64)
    requires
        n1 != n2,
    ensures
        response_path_spec(sender, token_spec(n1)) != response_path_spec(sender, token_spec(n2)),
{
    lemma_tokens_distinct(n1, n2);
    let head = request_namespace() + sender + "/"@;
    let t1 = token_spec(n1);
    let t2 = token_spec(n2);
    if response_path_spec(sender, t1) == response_path_spec(sender, t2) {
        assert(response_path_spec(sender, t1) =~= head + t1);
        assert(response_path_spec(sender, t2) =~= head + t2);
        assert((head + t1).len() == (head + t2).len());
        assert forall|i: int| 0 <= i < t1.len() implies t1[i] == t2[i] by {
            assert((head + t1)[head.len() + i] == t1[i]);
            assert((head + t2)[head.len() + i] == t2[i]);
        }
        assert(t1 =~= t2);
        assert(false);
    }
}

/// Writes the decimal digits of `n`, most significant first, after what is
/// already in `out`.
fn push_decimal(n: u64, out: &mut Vec<u8>)
    ensures
        final(out)@ == old(out)@ + decimal_bytes(n),
    decreases n,
{
    if n < 10 {
        out.push(48 + (n as u8));
        assert(out@ =~= old(out)@ + decimal_bytes(n));
    } else {
        push_decimal(n / 10, out);
        out.push(48 + ((n % 10) as u8));
        assert(out@ =~= old(out)@ + decimal_bytes(n));
    }
}

/// The request token derived from a nonce: unique per nonce, safe in a path.
pub fn request_token(nonce: u64) -> (r: String)
    ensures
        r@ == token_spec(nonce),
{
    let mut digits: Vec<u8> = Vec::new();
    push_decimal(nonce, &mut digits);
    proof {
        lemma_decimal_bytes_ascii(nonce);
    }
    let tail = ascii_to_string(digits);
    proof {
        assert(tail@ =~= decimal_chars(nonce));
    }
    let r = String::from_str("screencap").concat(tail.as_str());
    proof {
        assert(r@ =~= token_spec(nonce));
    }
    r
}

/// The transport identity for a connection, from its unique bus name.
///
/// The name's leading ':' is dropped and every '.' becomes '_', so the
/// result can stand as one segment of a response path.
pub fn sender_token(unique_name: &str) -> (r: String)
    requires
        unique_name.is_ascii(),
        unique_name@.len() >= 1,
    ensures
        r@ == sender_token_spec(unique_name@),
{
    let bytes = unique_name.as_bytes_vec();
    proof {
        vstd::string::is_ascii_spec_bytes(unique_name);
        vstd::utf8::is_ascii_chars_nat_bound(unique_name@);
    }
    let n = bytes.len();
    let mut out: Vec<u8> = Vec::new();
    let mut i: usize = 1;
    while i < n
        invariant
            1 <= i <= n,
            n == bytes@.len(),
            bytes@.len() == unique_name@.len(),
            forall|k: int| 0 <= k < n ==> bytes@[k] == (#[trigger] unique_name@[k]) as u8,
            forall|k: int| 0 <= k < n ==> ((#[trigger] unique_name@[k]) as u32) < 128,
            out@.len() == i - 1,
            forall|k: int| 0 <= k < out@.len() ==> out@[k] == sanitized_byte(
                #[trigger] unique_name@[k + 1],
            ),
        decreases n - i,
    {
        let b = bytes[i];
        proof {
            let c = unique_name@[i as int];
            assert(b == (c as u8));
            assert((c as u32) < 128);
            lemma_ascii_char_byte(c);
            assert((46u8 as char) == '.');
        }
        if b == 46 {
            out.push(95);
            proof {
                assert(unique_name@[i as int] == '.');
            }
        } else {
            out.push(b);
            proof {
                assert(unique_name@[i as int] != '.');
            }
        }
        i += 1;
    }
    proof {
        assert forall|k: int| 0 <= k < out@.len() implies out@[k] < 128 by {
            let c = unique_name@[k + 1];
            assert(out@[k] == sanitized_byte(c));
            assert((c as u32) < 128);
            lemma_ascii_char_byte(c);
        }
    }
    let r = ascii_to_string(out);
    proof {
        assert forall|k: int| 0 <= k < r@.len() implies r@[k] == sanitized_char(
            unique_name@[k + 1],
        ) by {
            let c = unique_name@[k + 1];
            assert((c as u32) < 128);
            lemma_ascii_char_byte(c);
            assert((46u8 as char) == '.');
            assert((95u8 as char) == '_');
        }
        assert(r@ =~= sender_token_spec(unique_name@));
    }
    r
}

/// The response path for one request on one connection: the request
/// namespace, the transport identity, and the request token.
pub fn response_path(sender: &str, token: &str) -> (r: String)
    ensures
        r@ == response_path_spec(sender@, token@),
{
    let r = String::from_str("/org/freedesktop/portal/desktop/request/").concat(sender).concat(
        "/",
    ).concat(token);
    proof {
        assert(r@ =~= response_path_spec(sender@, token@));
    }
    r
}

} // verus!
