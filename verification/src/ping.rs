//! The ping service's rules: the pong and version bodies, the Bearer-token
//! gate of `/secure`, and the per-client rate-limit key.
use vstd::prelude::*;
use crate::secrets::constant_time_eq;
use crate::text::{strip_prefix, trim, trimmed};

verus! {

/// How the ping routes are wired: a per-client request/second limit on the
/// routes (`0` turns rate limiting off), and an optional Bearer key that
/// enables `/secure`. The key's type is the caller's (a redacted secret).
#[derive(Clone)]
pub struct Options<K> {
    pub rate_limit_rps: u32,
    pub api_key: Option<std::sync::Arc<K>>,
}

impl<K> Default for Options<K> {
    fn default() -> (o: Self)
        ensures
            o.rate_limit_rps == 0,
            o.api_key is None,
    {
        Options { rate_limit_rps: 0, api_key: None }
    }
}

impl<K> Options<K> {
    /// Whether `/secure` is served: exactly when an API key is configured.
    pub fn serves_secure(&self) -> (r: bool)
        ensures
            r == self.api_key is Some,
    {
        self.api_key.is_some()
    }

    /// The per-client limit the routes are guarded with, or `None` when rate
    /// limiting is off.
    pub fn client_limit(&self) -> (r: Option<u32>)
        ensures
            self.rate_limit_rps == 0 ==> r is None,
            self.rate_limit_rps > 0 ==> r == Some(self.rate_limit_rps),
    {
        if self.rate_limit_rps > 0 {
            Some(self.rate_limit_rps)
        } else {
            None
        }
    }
}

/// Query string of `GET /ping` (`?msg=…`).
#[derive(Debug)]
pub struct PingQuery {
    pub msg: Option<String>,
}

/// Body returned by `GET /ping`.
#[derive(Debug)]
pub struct PongResponse {
    pub message: String,
    pub echo: Option<String>,
}

/// Body returned by `GET /version`.
#[derive(Debug)]
pub struct VersionResponse {
    pub service: String,
    pub version: String,
    pub build: String,
}

/// The reply to `GET /ping`: `pong`, echoing `msg` when it is given and not
/// empty.
pub fn pong(q: PingQuery) -> (r: PongResponse)
    ensures
        r.message@ == "pong"@,
        r.echo is Some <==> (q.msg is Some && q.msg->0@.len() > 0),
        r.echo is Some ==> r.echo->0@ == q.msg->0@,
{
    let echo = match q.msg {
        Some(m) => if m.as_str().is_empty() {
            None
        } else {
            Some(m)
        },
        None => None,
    };
    PongResponse { message: String::from_str("pong"), echo }
}

/// The reply to `GET /version`: service `ping`, the given version, and the
/// build id, `unknown` when there is none.
pub fn version(pkg_version: &str, build: Option<&str>) -> (r: VersionResponse)
    ensures
        r.service@ == "ping"@,
        r.version@ == pkg_version@,
        r.build@ == match build {
            Some(b) => b@,
            None => "unknown"@,
        },
{
    VersionResponse {
        service: String::from_str("ping"),
        version: String::from_str(pkg_version),
        build: match build {
            Some(b) => String::from_str(b),
            None => String::from_str("unknown"),
        },
    }
}

/// Whether an `Authorization` header authorizes a request for the API key
/// `key`: it must read `Bearer ` followed by exactly the key. The token is
/// compared in constant time.
pub fn authorize(authorization: Option<&str>, key: &str) -> (r: bool)
    ensures
        r == (authorization is Some && authorization->0@ == "Bearer "@ + key@),
{
    let header = match authorization {
        Some(h) => h,
        None => return false,
    };
    match strip_prefix(header, "Bearer ") {
        Some(token) => {
            let ok = constant_time_eq(token.as_bytes(), key.as_bytes());
            proof {
                vstd::utf8::encode_utf8_decode_utf8(token@);
                vstd::utf8::encode_utf8_decode_utf8(key@);
                if header@ == "Bearer "@ + key@ {
                    assert(token@ =~= key@) by {
                        assert(header@ == "Bearer "@ + token@);
                        assert forall|i: int| 0 <= i < key@.len() implies token@[i] == key@[i] by {
                            assert(header@[i + "Bearer "@.len()] == token@[i]);
                            assert(header@[i + "Bearer "@.len()] == key@[i]);
                        }
                    }
                }
            }
            ok
        },
        None => {
            proof {
                if header@ == "Bearer "@ + key@ {
                    assert(header@.take("Bearer "@.len() as int) =~= "Bearer "@);
                }
            }
            false
        },
    }
}

/// The part of `s` before its first `,` (all of `s` when it has none).
pub open spec fn first_segment(s: Seq<char>) -> Seq<char>
    decreases s.len(),
{
    if s.len() == 0 {
        s
    } else if s[0] == ',' {
        Seq::empty()
    } else {
        seq![s[0]] + first_segment(s.drop_first())
    }
}

fn before_comma(s: &str) -> (r: &str)
    ensures
        r@ == first_segment(s@),
{
    let n = s.unicode_len();
    let mut i: usize = 0;
    assert(s@.skip(0) =~= s@);
    assert(s@.take(0) + s@ =~= s@);
    while i < n && s.get_char(i) != ','
        invariant
            n == s@.len(),
            i <= n,
            forall|j: int| 0 <= j < i ==> s@[j] != ',',
            first_segment(s@) == s@.take(i as int) + first_segment(s@.skip(i as int)),
        decreases n - i,
    {
        proof {
            assert(s@.skip(i as int)[0] == s@[i as int]);
            assert(s@.skip(i as int).drop_first() =~= s@.skip(i + 1));
            assert(s@.take(i + 1) =~= s@.take(i as int) + seq![s@[i as int]]);
        }
        i = i + 1;
    }
    proof {
        if i < n {
            assert(s@.skip(i as int)[0] == s@[i as int]);
        } else {
            assert(s@.skip(i as int) =~= Seq::<char>::empty());
        }
        assert(s@.take(i as int) + Seq::<char>::empty() =~= s@.take(i as int));
    }
    s.substring_char(0, i)
}

/// The rate-limit bucket of a client: the first `X-Forwarded-For` entry,
/// trimmed; else the `X-Real-IP` value; else the shared bucket `global`.
pub fn client_key(forwarded_for: Option<&str>, real_ip: Option<&str>) -> (r: String)
    ensures
        r@ == match forwarded_for {
            Some(f) => trimmed(first_segment(f@)),
            None => match real_ip {
                Some(ip) => ip@,
                None => "global"@,
            },
        },
{
    match forwarded_for {
        Some(f) => String::from_str(trim(before_comma(f))),
        None => match real_ip {
            Some(ip) => String::from_str(ip),
            None => String::from_str("global"),
        },
    }
}

} // verus!
