use vstd::prelude::*;
use vstd::string::StringExecFns;
use crate::json::Json;
use crate::sign::{sign_of, verify_ok, compute_sign};
use crate::envelope::{
    Config, Battery, ResponseWrapper, decode_config_envelope, decode_battery_envelope,
    decode_raw_envelope, json_is_config_envelope, config_envelope_matches,
    json_is_battery_envelope, battery_envelope_matches, json_is_raw_envelope,
    raw_envelope_matches,
};

verus! {

/// A client for one device: the base URL it answers on and the shared secret
/// that authenticates both directions of the exchange.
pub struct Api {
    pub base_url: String,
    pub secret: String,
}

/// A signature field as a sequence of characters, kept absent when the field
/// is absent.
pub open spec fn opt_sign_view(s: Option<String>) -> Option<Seq<char>> {
    match s {
        Some(x) => Some(x@),
        None => None,
    }
}

/// Why one query failed. No failure is retried here; each is returned to the
/// caller of that single query.
#[derive(Debug)]
pub enum QueryError<T> {
    /// The exchange itself failed: connection, timeout, or unreadable framing.
    /// Raised by the transport layer around this library, never by the
    /// decoding and verification below.
    Transport(String),
    /// The response body does not have the expected envelope shape.
    Decode,
    /// The envelope decoded but its signature does not verify against its own
    /// timestamp; carries the untrusted envelope for diagnostics. Its `code`
    /// and `msg` may be read; its `data` must not be acted upon.
    WrongSignature(ResponseWrapper<T>),
}

impl Api {
    /// A client for the device at `base_url` holding `secret`.
    pub fn new(base_url: String, secret: String) -> (r: Api)
        ensures
            r.base_url == base_url,
            r.secret == secret,
    {
        Api { base_url, secret }
    }

    /// The signature for `timestamp` under this client's secret.
    pub fn sign(&self, timestamp: u64) -> (r: String)
        ensures
            r@ == sign_of(timestamp, self.secret@),
    {
        compute_sign(timestamp, self.secret.as_str())
    }

    /// Whether `sign` is present and equals the signature this client computes
    /// for `timestamp`; an absent signature never verifies.
    pub fn verify(&self, timestamp: u64, sign: &Option<String>) -> (r: bool)
        ensures
            r == verify_ok(timestamp, opt_sign_view(*sign), self.secret@),
    {
        let actual = self.sign(timestamp);
        match sign {
            Some(expect) => actual.eq(expect),
            None => false,
        }
    }

    /// Builds the signed body of one outgoing request: the given data, the
    /// given timestamp, and the signature for that timestamp.
    pub fn make_payload(&self, timestamp: u64, data: Json) -> (p: SignedPayload)
        ensures
            p.data == data,
            p.timestamp == timestamp,
            p.sign@ == sign_of(timestamp, self.secret@),
    {
        let sign = self.sign(timestamp);
        SignedPayload { data, timestamp, sign }
    }

    /// The URL of the configuration query.
    pub fn config_url(&self) -> (r: String)
        ensures
            r@ == self.base_url@ + "/config/query"@,
    {
        let mut u = self.base_url.clone();
        u.append("/config/query");
        u
    }

    /// The URL of the battery query.
    pub fn battery_url(&self) -> (r: String)
        ensures
            r@ == self.base_url@ + "/battery/query"@,
    {
        let mut u = self.base_url.clone();
        u.append("/battery/query");
        u
    }

    /// Decodes and authenticates one configuration response body: a body that
    /// is not a configuration envelope is a decode failure; an envelope whose
    /// signature does not verify against its own timestamp is returned inside
    /// a signature-mismatch error; otherwise the envelope is returned as is.
    pub fn accept_config(&self, body: &Json) -> (r: Result<
        ResponseWrapper<Config>,
        QueryError<Config>,
    >)
        ensures
            match r {
                Ok(env) => json_is_config_envelope(*body) && config_envelope_matches(env, *body)
                    && verify_ok(env.timestamp, opt_sign_view(env.sign), self.secret@),
                Err(QueryError::Decode) => !json_is_config_envelope(*body),
                Err(QueryError::WrongSignature(env)) => json_is_config_envelope(*body)
                    && config_envelope_matches(env, *body) && !verify_ok(
                    env.timestamp,
                    opt_sign_view(env.sign),
                    self.secret@,
                ),
                Err(QueryError::Transport(..)) => false,
            },
    {
        match decode_config_envelope(body) {
            None => Err(QueryError::Decode),
            Some(env) => {
                if self.verify(env.timestamp, &env.sign) {
                    Ok(env)
                } else {
                    Err(QueryError::WrongSignature(env))
                }
            },
        }
    }

    /// Decodes and authenticates one battery response body, as
    /// `accept_config` does for configuration bodies.
    pub fn accept_battery(&self, body: &Json) -> (r: Result<
        ResponseWrapper<Battery>,
        QueryError<Battery>,
    >)
        ensures
            match r {
                Ok(env) => json_is_battery_envelope(*body) && battery_envelope_matches(env, *body)
                    && verify_ok(env.timestamp, opt_sign_view(env.sign), self.secret@),
                Err(QueryError::Decode) => !json_is_battery_envelope(*body),
                Err(QueryError::WrongSignature(env)) => json_is_battery_envelope(*body)
                    && battery_envelope_matches(env, *body) && !verify_ok(
                    env.timestamp,
                    opt_sign_view(env.sign),
                    self.secret@,
                ),
                Err(QueryError::Transport(..)) => false,
            },
    {
        match decode_battery_envelope(body) {
            None => Err(QueryError::Decode),
            Some(env) => {
                if self.verify(env.timestamp, &env.sign) {
                    Ok(env)
                } else {
                    Err(QueryError::WrongSignature(env))
                }
            },
        }
    }

    /// Decodes and authenticates one response body of the untyped diagnostic
    /// shape, keeping the payload as raw JSON.
    pub fn accept_raw(&self, body: &Json) -> (r: Result<ResponseWrapper<Json>, QueryError<Json>>)
        ensures
            match r {
                Ok(env) => json_is_raw_envelope(*body) && raw_envelope_matches(env, *body)
                    && verify_ok(env.timestamp, opt_sign_view(env.sign), self.secret@),
                Err(QueryError::Decode) => !json_is_raw_envelope(*body),
                Err(QueryError::WrongSignature(env)) => json_is_raw_envelope(*body)
                    && raw_envelope_matches(env, *body) && !verify_ok(
                    env.timestamp,
                    opt_sign_view(env.sign),
                    self.secret@,
                ),
                Err(QueryError::Transport(..)) => false,
            },
    {
        match decode_raw_envelope(body) {
            None => Err(QueryError::Decode),
            Some(env) => {
                if self.verify(env.timestamp, &env.sign) {
                    Ok(env)
                } else {
                    Err(QueryError::WrongSignature(env))
                }
            },
        }
    }
}

/// A string with every trailing `/` removed.
pub open spec fn trimmed_slashes(s: Seq<char>) -> Seq<char>
    decreases s.len(),
{
    if s.len() > 0 && s[s.len() - 1] == '/' {
        trimmed_slashes(s.drop_last())
    } else {
        s
    }
}

/// Normalises a base URL by removing trailing `/` characters, so that a fixed
/// path can be appended.
pub fn trim_trailing_slashes(s: &str) -> (r: String)
    ensures
        r@ == trimmed_slashes(s@),
{
    let n = s.unicode_len();
    let mut end: usize = n;
    proof {
        assert(s@.take(n as int) =~= s@);
    }
    while end > 0 && s.get_char(end - 1) == '/'
        invariant
            end <= n,
            n == s@.len(),
            trimmed_slashes(s@) == trimmed_slashes(s@.take(end as int)),
        decreases end,
    {
        proof {
            assert(s@.take(end as int).drop_last() =~= s@.take(end as int - 1));
        }
        end = end - 1;
    }
    let r = s.substring_char(0, end).to_owned();
    proof {
        assert(s@.subrange(0, end as int) =~= s@.take(end as int));
    }
    r
}

/// The signed body of one outgoing request.
#[derive(Debug)]
pub struct SignedPayload {
    pub data: Json,
    pub timestamp: u64,
    pub sign: String,
}

/// The wire form of an outgoing request body:
/// `{"data": ..., "timestamp": ..., "sign": "..."}`.
pub fn json_of_payload(p: SignedPayload) -> (j: Json)
    ensures
        (j matches Json::Obj(pairs) && pairs@.len() == 3 && pairs@[0].0@ == "data"@ && pairs@[0].1
            == p.data && pairs@[1].0@ == "timestamp"@ && pairs@[1].1 == Json::UInt(p.timestamp)
            && pairs@[2].0@ == "sign"@ && pairs@[2].1 == Json::Str(p.sign)),
{
    let mut pairs: Vec<(String, Json)> = Vec::new();
    pairs.push((String::from_str("data"), p.data));
    pairs.push((String::from_str("timestamp"), Json::UInt(p.timestamp)));
    pairs.push((String::from_str("sign"), Json::Str(p.sign)));
    Json::Obj(pairs)
}

} // verus!
