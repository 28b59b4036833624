use vstd::prelude::*;
use vstd::string::StrSliceExecFns;
use vstd::string::StringExecFns;
use vstd::utf8::encode_utf8;
use base64::Engine;

verus! {

/// Decimal digits of `n`, most significant first, as ASCII bytes.
pub open spec fn decimal_bytes(n: nat) -> Seq<u8>
    decreases n,
{
    if n < 10 {
        seq![(48 + n) as u8]
    } else {
        decimal_bytes(n / 10).push((48 + n % 10) as u8)
    }
}

/// Writes `n` in decimal, most significant digit first.
pub fn u64_to_decimal(n: u64) -> (r: Vec<u8>)
    ensures
        r@ == decimal_bytes(n as nat),
{
    let mut out: Vec<u8> = Vec::new();
    let mut m: u64 = n;
    loop
        invariant_except_break
            decimal_bytes(n as nat) =~= decimal_bytes(m as nat) + out@,
        ensures
            decimal_bytes(n as nat) =~= out@,
        decreases m,
    {
        let d: u8 = (48 + (m % 10)) as u8;
        out.insert(0, d);
        if m < 10 {
            proof {
                assert(decimal_bytes(m as nat) =~= seq![d]);
                assert(seq![d] + out@.drop_first() =~= out@);
            }
            break;
        }
        proof {
            assert(decimal_bytes(m as nat) == decimal_bytes(m as nat / 10).push(d));
            assert(decimal_bytes(m as nat / 10).push(d) + out@.drop_first()
                =~= decimal_bytes(m as nat / 10) + out@);
        }
        m = m / 10;
    }
    out
}

/// The HMAC-SHA256 digest keyed by `key` over `msg`: a function of the two alone.
pub uninterp spec fn hmac_sha256_of(key: Seq<u8>, msg: Seq<u8>) -> Seq<u8>;

/// Relies on `hmac_sha256::HMAC::mac`: a 32-byte digest computed from the key and
/// the message alone.
#[verifier::external_body]
fn hmac_sha256_mac(key: &[u8], msg: &[u8]) -> (r: Vec<u8>)
    ensures
        r@ == hmac_sha256_of(key@, msg@),
        r@.len() == 32,
{
    hmac_sha256::HMAC::mac(msg, key).to_vec()
}

/// Standard padded base64 of `bytes`: a function of the bytes alone.
pub uninterp spec fn base64_of(bytes: Seq<u8>) -> Seq<char>;

/// Relies on `base64::engine::Engine::encode` with the standard padded alphabet
/// (`BASE64_STANDARD`): the encoding is a function of the input bytes alone, of
/// length `4 * ceil(len / 3)`; it panics only when that length overflows `usize`.
#[verifier::external_body]
fn base64_encode(bytes: &[u8]) -> (r: String)
    requires
        4 * ((bytes@.len() + 2) / 3) <= usize::MAX,
    ensures
        r@ == base64_of(bytes@),
        r@.len() == 4 * ((bytes@.len() + 2) / 3),
{
    base64::prelude::BASE64_STANDARD.encode(bytes)
}

/// How one character of a base64 signature appears on the wire: `+`, `/` and `=`
/// are replaced by `%2B`, `%2F` and `%3D`; every other character passes through.
pub open spec fn escaped_char(c: char) -> Seq<char> {
    if c == '+' {
        seq!['%', '2', 'B']
    } else if c == '/' {
        seq!['%', '2', 'F']
    } else if c == '=' {
        seq!['%', '3', 'D']
    } else {
        seq![c]
    }
}

/// The fixed partial percent-encoding applied to a base64 signature.
pub open spec fn escape_chars(s: Seq<char>) -> Seq<char>
    decreases s.len(),
{
    if s.len() == 0 {
        Seq::empty()
    } else {
        escaped_char(s[0]) + escape_chars(s.drop_first())
    }
}

proof fn lemma_escape_chars_push(s: Seq<char>, c: char)
    ensures
        escape_chars(s.push(c)) == escape_chars(s) + escaped_char(c),
    decreases s.len(),
{
    assert(s.push(c)[0] == if s.len() == 0 { c } else { s[0] });
    assert(escape_chars(s.push(c)) == escaped_char(s.push(c)[0]) + escape_chars(
        s.push(c).drop_first(),
    ));
    if s.len() == 0 {
        assert(s.push(c).drop_first() =~= Seq::<char>::empty());
        assert(escape_chars(Seq::<char>::empty()) == Seq::<char>::empty());
        assert(escaped_char(c) + Seq::<char>::empty() =~= escape_chars(s) + escaped_char(c));
    } else {
        assert(s.push(c).drop_first() =~= s.drop_first().push(c));
        lemma_escape_chars_push(s.drop_first(), c);
        assert(escaped_char(s[0]) + (escape_chars(s.drop_first()) + escaped_char(c)) =~= (
        escaped_char(s[0]) + escape_chars(s.drop_first())) + escaped_char(c));
        assert(escape_chars(s) == escaped_char(s[0]) + escape_chars(s.drop_first()));
    }
    assert(escape_chars(s.push(c)) =~= escape_chars(s) + escaped_char(c));
}

/// Replaces `+`, `/` and `=` by `%2B`, `%2F` and `%3D`, leaving all else unescaped.
pub fn escape_sign(s: &str) -> (r: String)
    ensures
        r@ == escape_chars(s@),
{
    let n = s.unicode_len();
    let mut out = String::new();
    let mut i: usize = 0;
    while i < n
        invariant
            i <= n,
            n == s@.len(),
            out@ == escape_chars(s@.take(i as int)),
        decreases n - i,
    {
        let c = s.get_char(i);
        if c == '+' {
            out.append("%2B");
            proof {
                reveal_strlit("%2B");
                assert("%2B"@ =~= escaped_char(c));
            }
        } else if c == '/' {
            out.append("%2F");
            proof {
                reveal_strlit("%2F");
                assert("%2F"@ =~= escaped_char(c));
            }
        } else if c == '=' {
            out.append("%3D");
            proof {
                reveal_strlit("%3D");
                assert("%3D"@ =~= escaped_char(c));
            }
        } else {
            let piece = s.substring_char(i, i + 1);
            out.append(piece);
            proof {
                assert(piece@ =~= escaped_char(c));
            }
        }
        proof {
            lemma_escape_chars_push(s@.take(i as int), s@[i as int]);
            assert(s@.take(i as int).push(s@[i as int]) =~= s@.take(i as int + 1));
        }
        i = i + 1;
    }
    proof {
        assert(s@.take(n as int) =~= s@);
    }
    out
}

/// The bytes that are authenticated for a given timestamp: the decimal timestamp,
/// a newline, and the secret's UTF-8 bytes.
pub open spec fn message_bytes(timestamp: u64, secret: Seq<char>) -> Seq<u8> {
    decimal_bytes(timestamp as nat) + seq![10u8] + encode_utf8(secret)
}

/// Builds the byte string `"<timestamp>\n<secret>"` that the signature covers.
pub fn signing_message(timestamp: u64, secret: &str) -> (r: Vec<u8>)
    ensures
        r@ == message_bytes(timestamp, secret@),
{
    let mut msg = u64_to_decimal(timestamp);
    msg.push(10u8);
    msg.extend_from_slice(secret.as_bytes());
    proof {
        assert(msg@ =~= message_bytes(timestamp, secret@));
    }
    msg
}

/// The signature for `timestamp` under `secret`: the HMAC-SHA256 digest of
/// `"<timestamp>\n<secret>"` keyed by the secret, base64-encoded, with `+`, `/`
/// and `=` percent-escaped.
pub open spec fn sign_of(timestamp: u64, secret: Seq<char>) -> Seq<char> {
    escape_chars(
        base64_of(hmac_sha256_of(encode_utf8(secret), message_bytes(timestamp, secret))),
    )
}

/// Computes the wire signature for `timestamp` under `secret`.
pub fn compute_sign(timestamp: u64, secret: &str) -> (r: String)
    ensures
        r@ == sign_of(timestamp, secret@),
{
    let msg = signing_message(timestamp, secret);
    let digest = hmac_sha256_mac(secret.as_bytes(), msg.as_slice());
    let b64 = base64_encode(digest.as_slice());
    escape_sign(b64.as_str())
}

/// Whether a candidate signature passes verification for `timestamp` under
/// `secret`: it must be present and equal the locally computed signature.
pub open spec fn verify_ok(timestamp: u64, candidate: Option<Seq<char>>, secret: Seq<char>) -> bool {
    match candidate {
        Some(c) => c == sign_of(timestamp, secret),
        None => false,
    }
}

/// Signing is deterministic: two signatures computed for the same timestamp and
/// secret are the same string.
pub proof fn lemma_sign_deterministic(timestamp: u64, secret: Seq<char>, r1: Seq<char>, r2: Seq<char>)
    requires
        r1 == sign_of(timestamp, secret),
        r2 == sign_of(timestamp, secret),
    ensures
        r1 == r2,
{
}

/// A candidate signature verifies exactly when it equals the signature computed
/// for the same timestamp and secret; any other candidate, in particular any
/// mutation of the signature string, is rejected.
pub proof fn lemma_verify_correct(timestamp: u64, secret: Seq<char>, candidate: Seq<char>)
    ensures
        verify_ok(timestamp, Some(candidate), secret) <==> candidate == sign_of(
            timestamp,
            secret,
        ),
{
}

/// A response that carries no signature never verifies.
pub proof fn lemma_verify_rejects_missing(timestamp: u64, secret: Seq<char>)
    ensures
        !verify_ok(timestamp, None, secret),
{
}

} // verus!
