//! Full uploads of a collection: the payload-size check, the server's
//! reply, and the gzip encoding of a payload.

use vstd::prelude::*;
use vstd::string::*;
use crate::error::{AnkiError, SyncErrorKind};
use crate::text::{chars_of, contains_chars, contains_text, occurs_at};

verus! {

/// The server's answer to a full upload: accepted, or refused with the
/// server's text.
#[derive(Debug, PartialEq, Eq)]
pub enum UploadResponse {
    Accepted,
    Rejected(String),
}

/// The decimal digit `d` as a character.
pub open spec fn digit_char(d: nat) -> char {
    (48 + d) as char
}

/// The decimal representation of `n`, without leading zeros.
pub open spec fn decimal(n: nat) -> Seq<char>
    decreases n,
{
    if n < 10 {
        seq![digit_char(n)]
    } else {
        decimal(n / 10) + seq![digit_char(n % 10)]
    }
}

/// A decimal representation is never empty and starts with a digit.
pub proof fn lemma_decimal_shape(n: nat)
    ensures
        decimal(n).len() >= 1,
        n >= 10 ==> decimal(n).len() >= 2,
        48 <= decimal(n)[0] as int <= 57,
    decreases n,
{
    if n >= 10 {
        lemma_decimal_shape(n / 10);
        assert(decimal(n)[0] == decimal(n / 10)[0]);
    } else {
        assert(decimal(n)[0] == digit_char(n));
    }
}

/// Different numbers have different decimal representations.
pub proof fn lemma_decimal_injective(a: nat, b: nat)
    requires
        decimal(a) == decimal(b),
    ensures
        a == b,
    decreases a,
{
    lemma_decimal_shape(a);
    lemma_decimal_shape(b);
    let da = decimal(a);
    if a < 10 && b < 10 {
        assert(digit_char(a) == da[0]);
        assert(digit_char(b) == decimal(b)[0]);
    } else if a >= 10 && b >= 10 {
        let pa = decimal(a / 10);
        let pb = decimal(b / 10);
        assert(da.last() == digit_char(a % 10));
        assert(decimal(b).last() == digit_char(b % 10));
        assert(pa =~= da.drop_last());
        assert(pb =~= decimal(b).drop_last());
        lemma_decimal_injective(a / 10, b / 10);
    } else {
        assert(da.len() != decimal(b).len());
    }
}

/// Ten to the power `k`.
pub open spec fn pow10(k: nat) -> nat
    decreases k,
{
    if k == 0 {
        1
    } else {
        10 * pow10((k - 1) as nat)
    }
}

/// A number below ten to the `k` has at most `k` decimal digits.
pub proof fn lemma_decimal_len(n: nat, k: nat)
    requires
        1 <= k,
        n < pow10(k),
    ensures
        decimal(n).len() <= k,
    decreases k,
{
    if n >= 10 {
        if k == 1 {
            assert(pow10(1) == 10 * pow10(0));
        } else {
            let p = pow10((k - 1) as nat);
            assert(n / 10 < p) by (nonlinear_arith)
                requires
                    n < 10 * p,
            ;
            lemma_decimal_len(n / 10, (k - 1) as nat);
        }
    }
}

/// The decimal form of a `usize` has at most 20 digits.
pub proof fn lemma_usize_decimal_len(n: usize)
    ensures
        decimal(n as nat).len() <= 20,
{
    assert(pow10(20) == 100000000000000000000) by {
        reveal_with_fuel(pow10, 21);
    }
    lemma_decimal_len(n as nat, 20);
}

/// `bytes` as a number of megabytes (of 1048576 bytes), in hundredths,
/// rounded to the nearest hundredth, with an exact half going to the even
/// neighbour.
pub open spec fn mb_hundredths(bytes: nat) -> nat {
    let q = bytes * 100 / 1048576;
    let r = bytes * 100 % 1048576;
    if r > 524288 || (r == 524288 && q % 2 == 1) {
        q + 1
    } else {
        q
    }
}

/// `bytes` as megabytes with two decimals, e.g. `1.50`.
pub open spec fn mb_text(bytes: nat) -> Seq<char> {
    let h = mb_hundredths(bytes);
    decimal(h / 100) + "."@ + seq![digit_char(h % 100 / 10), digit_char(h % 10)]
}

/// The message of a refused upload: `{size} MB > {limit} MB`.
pub open spec fn upload_too_large_message(size: nat, limit: nat) -> Seq<char> {
    mb_text(size) + " MB > "@ + mb_text(limit) + " MB"@
}

fn digit(d: u128) -> (c: char)
    requires
        d < 10,
    ensures
        c == digit_char(d as nat),
{
    let b: u8 = 48u8 + (d as u8);
    b as char
}

/// The decimal representation of `n`.
pub fn decimal_string(n: u128) -> (s: String)
    ensures
        s@ == decimal(n as nat),
    decreases n,
{
    if n < 10 {
        let mut s = String::new();
        s.push(digit(n));
        s
    } else {
        let mut s = decimal_string(n / 10);
        s.push(digit(n % 10));
        s
    }
}

/// `bytes` in megabytes with two decimals (see `mb_text`).
pub fn format_mb(bytes: usize) -> (s: String)
    ensures
        s@ == mb_text(bytes as nat),
{
    let total: u128 = (bytes as u128) * 100;
    let q: u128 = total / 1048576;
    let r: u128 = total % 1048576;
    let h: u128 = if r > 524288 || (r == 524288 && q % 2 == 1) {
        q + 1
    } else {
        q
    };
    assert(h == mb_hundredths(bytes as nat));
    let mut s = decimal_string(h / 100);
    s.append(".");
    s.push(digit(h % 100 / 10));
    s.push(digit(h % 10));
    assert(s@ =~= mb_text(bytes as nat));
    s
}

/// Refuses a payload of `size` bytes when it reaches `limit` bytes, with an
/// `UploadTooLarge` sync error that gives both sizes in megabytes.
pub fn check_upload_limit(size: usize, limit: usize) -> (r: Result<(), AnkiError>)
    ensures
        r is Ok <==> size < limit,
        r matches Err(e) ==> e matches AnkiError::SyncError { info, kind } && kind
            == SyncErrorKind::UploadTooLarge && info@ == upload_too_large_message(
            size as nat,
            limit as nat,
        ),
{
    if size >= limit {
        let mut info = format_mb(size);
        info.append(" MB > ");
        let limit_text = format_mb(limit);
        info.append(limit_text.as_str());
        info.append(" MB");
        Err(AnkiError::sync_error(info, SyncErrorKind::UploadTooLarge))
    } else {
        Ok(())
    }
}

/// Whether uploads to `endpoint` are held to the payload limit: only
/// AnkiWeb's endpoints are.
pub open spec fn upload_limit_applies_spec(endpoint: Seq<char>) -> bool {
    contains_text(endpoint, "ankiweb"@)
}

/// The payload limit applies to an endpoint exactly when the letters
/// `a n k i w e b` stand one after the other somewhere in its text; an
/// endpoint without them, such as a self-hosted server, always passes the
/// size check.
pub proof fn lemma_upload_limit_applies_to_ankiweb(endpoint: Seq<char>)
    ensures
        upload_limit_applies_spec(endpoint) <==> exists|i: int|
            0 <= i && i + 7 <= endpoint.len() && #[trigger] endpoint[i] == 'a' && endpoint[i + 1]
                == 'n' && endpoint[i + 2] == 'k' && endpoint[i + 3] == 'i' && endpoint[i + 4] == 'w'
                && endpoint[i + 5] == 'e' && endpoint[i + 6] == 'b',
{
    reveal_strlit("ankiweb");
    let pat = "ankiweb"@;
    assert(pat =~= seq!['a', 'n', 'k', 'i', 'w', 'e', 'b']);
    if upload_limit_applies_spec(endpoint) {
        let i = choose|i: int| occurs_at(endpoint, pat, i);
        let sub = endpoint.subrange(i, i + 7);
        assert(sub[0] == endpoint[i] && sub[1] == endpoint[i + 1] && sub[2] == endpoint[i + 2]
            && sub[3] == endpoint[i + 3] && sub[4] == endpoint[i + 4] && sub[5] == endpoint[i + 5]
            && sub[6] == endpoint[i + 6]);
    }
    if exists|i: int|
        0 <= i && i + 7 <= endpoint.len() && #[trigger] endpoint[i] == 'a' && endpoint[i + 1]
            == 'n' && endpoint[i + 2] == 'k' && endpoint[i + 3] == 'i' && endpoint[i + 4] == 'w'
            && endpoint[i + 5] == 'e' && endpoint[i + 6] == 'b' {
        let i = choose|i: int|
            0 <= i && i + 7 <= endpoint.len() && #[trigger] endpoint[i] == 'a' && endpoint[i + 1]
                == 'n' && endpoint[i + 2] == 'k' && endpoint[i + 3] == 'i' && endpoint[i + 4] == 'w'
                && endpoint[i + 5] == 'e' && endpoint[i + 6] == 'b';
        assert(endpoint.subrange(i, i + 7) =~= pat);
        assert(occurs_at(endpoint, pat, i));
    }
}

/// Whether uploads to `endpoint` are held to the payload limit.
pub fn upload_limit_applies(endpoint: &str) -> (r: bool)
    ensures
        r == upload_limit_applies_spec(endpoint@),
{
    let e = chars_of(endpoint);
    let pat = chars_of("ankiweb");
    contains_chars(e.as_slice(), pat.as_slice())
}

/// The size check made before a full upload of `total_bytes` bytes to
/// `endpoint`: AnkiWeb refuses payloads of `limit` bytes or more, other
/// servers are not checked.
pub fn check_full_upload_size(endpoint: &str, total_bytes: usize, limit: usize) -> (r: Result<
    (),
    AnkiError,
>)
    ensures
        r is Ok <==> !upload_limit_applies_spec(endpoint@) || total_bytes < limit,
        r matches Err(e) ==> e matches AnkiError::SyncError { info, kind } && kind
            == SyncErrorKind::UploadTooLarge && info@ == upload_too_large_message(
            total_bytes as nat,
            limit as nat,
        ),
{
    if upload_limit_applies(endpoint) {
        check_upload_limit(total_bytes, limit)
    } else {
        Ok(())
    }
}

/// The outcome of a full upload, given the server's answer: a refusal
/// becomes a `ServerMessage` sync error carrying the server's text.
pub fn full_upload_result(resp: UploadResponse) -> (r: Result<(), AnkiError>)
    ensures
        match resp {
            UploadResponse::Accepted => r is Ok,
            UploadResponse::Rejected(msg) => r == Err::<(), AnkiError>(
                AnkiError::SyncError { info: msg, kind: SyncErrorKind::ServerMessage },
            ),
        },
{
    match resp {
        UploadResponse::Accepted => Ok(()),
        UploadResponse::Rejected(msg) => Err(AnkiError::sync_error(msg, SyncErrorKind::ServerMessage)),
    }
}

} // verus!
