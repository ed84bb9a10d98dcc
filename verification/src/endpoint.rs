//! The endpoint parser: turns a URI-like endpoint string plus the
//! credentials and database index from the settings into a normalized
//! connection descriptor.
//!
//! The accepted grammar is `scheme://host:port` or `scheme:///path`, with
//! schemes `tcp`, `redis`, `rediss`, `unix` and `redis+unix`, or no scheme
//! at all, which defaults to TCP. A missing host defaults to `127.0.0.1`
//! and a missing port to `6379`. `spec_parse_endpoint` states the whole
//! grammar; the executable parser is proved to follow it exactly.

use vstd::prelude::*;

use crate::error::Error;
use crate::error::ErrorKind;
use crate::settings::RedisSettings;
use crate::settings::opt_view;

verus! {

/// A normalized connection target: plain TCP, TCP with TLS enabled (with
/// default trust parameters, not configured as insecure), or a Unix-domain
/// socket path.
#[derive(Clone, Debug)]
pub enum Transport {
    /// Plain TCP to `host:port`.
    Tcp { host: String, port: u16 },
    /// TLS over TCP to `host:port`, using the default trust store.
    TcpTls { host: String, port: u16 },
    /// A Unix-domain socket at `path`.
    Unix { path: String },
}

/// A normalized, immutable connection descriptor: the transport target plus
/// the database index and credentials taken unchanged from the settings.
#[derive(Clone, Debug)]
pub struct ConnDescriptor {
    /// Where to connect.
    pub transport: Transport,
    /// The logical database index.
    pub db: i64,
    /// The username to authenticate with.
    pub username: Option<String>,
    /// The password to authenticate with.
    pub password: Option<String>,
}

/// The transport part of a parsed endpoint, at the specification level.
pub enum SpecEndpoint {
    /// A TCP target, possibly with TLS.
    Tcp { host: Seq<char>, port: u16, tls: bool },
    /// A Unix-domain socket target.
    Unix { path: Seq<char> },
}

/// What parsing an endpoint string yields: a transport, or one of the two
/// rejection reasons.
pub enum SpecParse {
    /// The string is well-formed and maps to this transport.
    Endpoint { ep: SpecEndpoint },
    /// The string does not match the accepted grammar.
    InvalidEndpoint,
    /// The string names a scheme outside the supported set.
    UnsupportedScheme,
}

/// Whether the three characters starting at `i` are `://`.
pub open spec fn sep_at(s: Seq<char>, i: int) -> bool {
    i + 3 <= s.len() && s[i] == ':' && s[i + 1] == '/' && s[i + 2] == '/'
}

/// The first position at or after `i` where `://` starts, if any.
pub open spec fn find_sep_from(s: Seq<char>, i: int) -> Option<int>
    decreases s.len() - i,
{
    if i < 0 || i + 3 > s.len() {
        None
    } else if sep_at(s, i) {
        Some(i)
    } else {
        find_sep_from(s, i + 1)
    }
}

/// The first position at or after `i` holding the character `c`, if any.
pub open spec fn find_char_from(s: Seq<char>, i: int, c: char) -> Option<int>
    decreases s.len() - i,
{
    if i < 0 || i >= s.len() {
        None
    } else if s[i] == c {
        Some(i)
    } else {
        find_char_from(s, i + 1, c)
    }
}

/// The last position at or before `i` holding the character `c`, if any.
pub open spec fn rfind_char(s: Seq<char>, i: int, c: char) -> Option<int>
    decreases i + 1,
{
    if i < 0 || i >= s.len() {
        None
    } else if s[i] == c {
        Some(i)
    } else {
        rfind_char(s, i - 1, c)
    }
}

/// Whether `c` is a decimal digit.
pub open spec fn is_digit_char(c: char) -> bool {
    '0' as int <= c as int && c as int <= '9' as int
}

/// The value of the decimal digit `c`.
pub open spec fn digit_value(c: char) -> int {
    c as int - '0' as int
}

/// Whether every character of `s` is a decimal digit.
pub open spec fn all_digits(s: Seq<char>) -> bool {
    forall|i: int| 0 <= i < s.len() ==> is_digit_char(s[i])
}

/// The value of `s` read as a decimal number, most significant digit first.
pub open spec fn digits_val(s: Seq<char>) -> int
    decreases s.len(),
{
    if s.len() == 0 {
        0
    } else {
        digits_val(s.drop_last()) * 10 + digit_value(s.last())
    }
}

/// Whether `s` is a port: a non-empty digit string whose value fits.
pub open spec fn valid_port(s: Seq<char>) -> bool {
    0 < s.len() && all_digits(s) && digits_val(s) <= 65535
}

/// The authority of the part after the scheme: everything up to the first
/// slash, or all of it when there is none.
pub open spec fn spec_authority(rest: Seq<char>) -> Seq<char> {
    match find_char_from(rest, 0, '/') {
        None => rest,
        Some(k) => rest.take(k),
    }
}

/// An absent host defaults to the loopback address.
pub open spec fn spec_default_host(h: Seq<char>) -> Seq<char> {
    if h.len() == 0 {
        "127.0.0.1"@
    } else {
        h
    }
}

/// Parsing of the part after a TCP-mapped scheme: the authority splits at
/// its last colon into host and port; without a colon the port defaults,
/// and an empty host defaults to the loopback address. A port that is not
/// a valid digit string rejects the endpoint.
pub open spec fn spec_parse_hostport(rest: Seq<char>, tls: bool) -> SpecParse {
    let a = spec_authority(rest);
    match rfind_char(a, a.len() - 1, ':') {
        None => SpecParse::Endpoint {
            ep: SpecEndpoint::Tcp { host: spec_default_host(a), port: 6379, tls },
        },
        Some(j) => {
            let p = a.subrange(j + 1, a.len() as int);
            if valid_port(p) {
                SpecParse::Endpoint {
                    ep: SpecEndpoint::Tcp {
                        host: spec_default_host(a.take(j)),
                        port: digits_val(p) as u16,
                        tls,
                    },
                }
            } else {
                SpecParse::InvalidEndpoint
            }
        },
    }
}

/// The path component of the part after a Unix-mapped scheme: everything
/// from the first slash on, empty when there is none.
pub open spec fn spec_unix_path(rest: Seq<char>) -> Seq<char> {
    match find_char_from(rest, 0, '/') {
        None => Seq::<char>::empty(),
        Some(k) => rest.subrange(k, rest.len() as int),
    }
}

/// The whole endpoint grammar. An empty string is rejected. A `://`
/// separator splits off the scheme, which picks the transport; without one
/// the whole string is parsed as `host:port` over plain TCP.
pub open spec fn spec_parse_endpoint(s: Seq<char>) -> SpecParse {
    if s.len() == 0 {
        SpecParse::InvalidEndpoint
    } else {
        match find_sep_from(s, 0) {
            None => spec_parse_hostport(s, false),
            Some(i) => {
                let scheme = s.take(i);
                let rest = s.subrange(i + 3, s.len() as int);
                if scheme == "tcp"@ || scheme == "redis"@ {
                    spec_parse_hostport(rest, false)
                } else if scheme == "rediss"@ {
                    spec_parse_hostport(rest, true)
                } else if scheme == "unix"@ || scheme == "redis+unix"@ {
                    SpecParse::Endpoint { ep: SpecEndpoint::Unix { path: spec_unix_path(rest) } }
                } else {
                    SpecParse::UnsupportedScheme
                }
            },
        }
    }
}

/// Whether the executable transport value realizes the parsed endpoint.
pub open spec fn transport_matches(t: Transport, se: SpecEndpoint) -> bool {
    match se {
        SpecEndpoint::Tcp { host: h, port: p, tls } => {
            if tls {
                t matches Transport::TcpTls { host, port } && host@ == h && port == p
            } else {
                t matches Transport::Tcp { host, port } && host@ == h && port == p
            }
        },
        SpecEndpoint::Unix { path: sp } => {
            t matches Transport::Unix { path } && path@ == sp
        },
    }
}

/// Whether the descriptor realizes the parsed endpoint and carries the
/// settings' database index and credentials unchanged.
pub open spec fn descriptor_matches(d: ConnDescriptor, se: SpecEndpoint, s: RedisSettings) -> bool {
    &&& transport_matches(d.transport, se)
    &&& d.db == s.db
    &&& opt_view(d.username) == opt_view(s.username)
    &&& opt_view(d.password) == opt_view(s.password)
}

/// The exact shape of the error for a string outside the grammar: it names
/// the offending endpoint as context and carries a causal source, and
/// nothing else.
pub open spec fn is_invalid_endpoint_error(e: Error, endpoint: Seq<char>) -> bool {
    &&& e.kind_spec() == ErrorKind::ConfigInvalid
    &&& e.message_spec() == "endpoint is invalid"@
    &&& e.context_spec() == seq![("endpoint"@, endpoint)]
    &&& e.source_spec() == Some("endpoint does not match the accepted grammar"@)
}

/// The exact shape of the error for an unsupported scheme.
pub open spec fn is_unsupported_scheme_error(e: Error) -> bool {
    &&& e.kind_spec() == ErrorKind::ConfigInvalid
    &&& e.message_spec() == "invalid or unsupported scheme"@
    &&& e.context_spec() == Seq::<(Seq<char>, Seq<char>)>::empty()
    &&& e.source_spec() is None
}

/// Whether `e` is exactly the error that parsing `endpoint` must produce.
/// The error is a function of the endpoint string alone: no credential
/// reaches it.
pub open spec fn parse_failed(e: Error, endpoint: Seq<char>) -> bool {
    match spec_parse_endpoint(endpoint) {
        SpecParse::Endpoint { ep: _ } => false,
        SpecParse::InvalidEndpoint => is_invalid_endpoint_error(e, endpoint),
        SpecParse::UnsupportedScheme => is_unsupported_scheme_error(e),
    }
}

/// Find the first `://` in `s`.
fn find_scheme_sep(s: &str) -> (r: Option<usize>)
    ensures
        match r {
            Some(i) => find_sep_from(s@, 0) == Some(i as int),
            None => find_sep_from(s@, 0) is None,
        },
{
    let n = s.unicode_len();
    if n < 3 {
        return None;
    }
    let mut i: usize = 0;
    while i <= n - 3
        invariant
            n == s@.len(),
            3 <= n,
            i <= n - 2,
            find_sep_from(s@, 0) == find_sep_from(s@, i as int),
        decreases n - i,
    {
        if s.get_char(i) == ':' && s.get_char(i + 1) == '/' && s.get_char(i + 2) == '/' {
            proof {
                assert(sep_at(s@, i as int));
            }
            return Some(i);
        }
        i = i + 1;
    }
    None
}

/// Find the first occurrence of `c` in `s`.
pub(crate) fn find_char(s: &str, c: char) -> (r: Option<usize>)
    ensures
        match r {
            Some(i) => find_char_from(s@, 0, c) == Some(i as int),
            None => find_char_from(s@, 0, c) is None,
        },
{
    let n = s.unicode_len();
    let mut i: usize = 0;
    while i < n
        invariant
            n == s@.len(),
            i <= n,
            find_char_from(s@, 0, c) == find_char_from(s@, i as int, c),
        decreases n - i,
    {
        if s.get_char(i) == c {
            return Some(i);
        }
        i = i + 1;
    }
    None
}

/// Find the last occurrence of `c` in `s`.
fn rfind_char_exec(s: &str, c: char) -> (r: Option<usize>)
    ensures
        match r {
            Some(i) => rfind_char(s@, s@.len() - 1, c) == Some(i as int),
            None => rfind_char(s@, s@.len() - 1, c) is None,
        },
{
    let n = s.unicode_len();
    let mut j: usize = n;
    while j > 0
        invariant
            n == s@.len(),
            j <= n,
            rfind_char(s@, s@.len() - 1, c) == rfind_char(s@, j as int - 1, c),
        decreases j,
    {
        j = j - 1;
        if s.get_char(j) == c {
            return Some(j);
        }
    }
    None
}

/// Whether two strings hold the same characters.
fn str_eq(a: &str, b: &str) -> (r: bool)
    ensures
        r <==> a@ == b@,
{
    let n = a.unicode_len();
    if n != b.unicode_len() {
        return false;
    }
    let mut i: usize = 0;
    while i < n
        invariant
            n == a@.len(),
            n == b@.len(),
            i <= n,
            forall|j: int| 0 <= j < i ==> a@[j] == b@[j],
        decreases n - i,
    {
        if a.get_char(i) != b.get_char(i) {
            return false;
        }
        i = i + 1;
    }
    proof {
        assert(a@ =~= b@);
    }
    true
}

/// A found separator is a real one at or after the start of the search.
pub proof fn lemma_find_sep_some(s: Seq<char>, i0: int, i: int)
    requires
        find_sep_from(s, i0) == Some(i),
    ensures
        i0 <= i,
        sep_at(s, i),
    decreases s.len() - i0,
{
    if 0 <= i0 && i0 + 3 <= s.len() && !sep_at(s, i0) {
        lemma_find_sep_some(s, i0 + 1, i);
    }
}

/// A found character is a real occurrence at or after the start.
pub proof fn lemma_find_char_some(s: Seq<char>, i0: int, c: char, k: int)
    requires
        find_char_from(s, i0, c) == Some(k),
    ensures
        i0 <= k < s.len(),
        s[k] == c,
    decreases s.len() - i0,
{
    if 0 <= i0 && i0 < s.len() && s[i0] != c {
        lemma_find_char_some(s, i0 + 1, c, k);
    }
}

/// A character found from the right is a real occurrence at or before the
/// start of the search.
pub proof fn lemma_rfind_some(s: Seq<char>, i0: int, c: char, j: int)
    requires
        rfind_char(s, i0, c) == Some(j),
    ensures
        0 <= j <= i0,
        j < s.len(),
        s[j] == c,
    decreases i0 + 1,
{
    if 0 <= i0 && i0 < s.len() && s[i0] != c {
        lemma_rfind_some(s, i0 - 1, c, j);
    }
}

/// Every digit string has a non-negative value.
pub proof fn lemma_digits_val_nonneg(s: Seq<char>)
    requires
        all_digits(s),
    ensures
        digits_val(s) >= 0,
    decreases s.len(),
{
    if s.len() > 0 {
        assert(all_digits(s.drop_last()));
        lemma_digits_val_nonneg(s.drop_last());
        assert(is_digit_char(s.last()));
    }
}

/// A digit string's value is at least the value of any of its prefixes.
pub proof fn lemma_digits_val_prefix(s: Seq<char>, i: int)
    requires
        all_digits(s),
        0 <= i <= s.len(),
    ensures
        digits_val(s.take(i)) <= digits_val(s),
    decreases s.len() - i,
{
    if i < s.len() {
        assert(all_digits(s.take(i)));
        lemma_digits_val_nonneg(s.take(i));
        assert(s.take(i + 1).drop_last() =~= s.take(i));
        assert(s.take(i + 1).last() == s[i]);
        assert(is_digit_char(s[i]));
        assert(digits_val(s.take(i + 1)) >= digits_val(s.take(i)));
        lemma_digits_val_prefix(s, i + 1);
    } else {
        assert(s.take(i) =~= s);
    }
}

/// Read `s` as a port number. Returns the value exactly when `s` is a
/// non-empty digit string not exceeding the largest port.
fn parse_port(s: &str) -> (r: Option<u16>)
    ensures
        r is Some <==> valid_port(s@),
        r is Some ==> r->0 as int == digits_val(s@),
{
    let n = s.unicode_len();
    if n == 0 {
        return None;
    }
    let mut val: u32 = 0;
    let mut i: usize = 0;
    while i < n
        invariant
            n == s@.len(),
            0 < n,
            i <= n,
            all_digits(s@.take(i as int)),
            val as int == digits_val(s@.take(i as int)),
            val <= 65535,
        decreases n - i,
    {
        let c = s.get_char(i);
        let u = c as u32;
        if u < 48 || u > 57 {
            proof {
                assert(!is_digit_char(s@[i as int]));
                assert(!all_digits(s@));
            }
            return None;
        }
        let d = u - 48;
        let next = val * 10 + d;
        proof {
            assert(s@.take(i + 1).drop_last() =~= s@.take(i as int));
            assert(s@.take(i + 1).last() == s@[i as int]);
            assert(is_digit_char(s@[i as int]));
            assert(digits_val(s@.take(i + 1)) == val * 10 + d);
        }
        if next > 65535 {
            proof {
                if all_digits(s@) {
                    lemma_digits_val_prefix(s@, i + 1);
                    assert(digits_val(s@) > 65535);
                }
                assert(!valid_port(s@));
            }
            return None;
        }
        val = next;
        i = i + 1;
    }
    proof {
        assert(s@.take(n as int) =~= s@);
    }
    Some(val as u16)
}

/// Clone an optional string.
fn clone_opt(o: &Option<String>) -> (r: Option<String>)
    ensures
        opt_view(r) == opt_view(*o),
{
    match o {
        Some(s) => Some(s.clone()),
        None => None,
    }
}

/// Attach the settings' database index and credentials to a transport.
fn mk_descriptor(t: Transport, settings: &RedisSettings) -> (d: ConnDescriptor)
    ensures
        d.transport == t,
        d.db == settings.db,
        opt_view(d.username) == opt_view(settings.username),
        opt_view(d.password) == opt_view(settings.password),
{
    ConnDescriptor {
        transport: t,
        db: settings.db,
        username: clone_opt(&settings.username),
        password: clone_opt(&settings.password),
    }
}

/// The error for a string outside the grammar, carrying the offending
/// endpoint as context and the rejection as causal source.
fn invalid_endpoint_error(endpoint: &str) -> (e: Error)
    ensures
        is_invalid_endpoint_error(e, endpoint@),
{
    let e = Error::new(ErrorKind::ConfigInvalid, "endpoint is invalid").with_context(
        "endpoint",
        endpoint.to_owned(),
    ).set_source("endpoint does not match the accepted grammar".to_owned());
    proof {
        assert(e.context_spec() =~= seq![("endpoint"@, endpoint@)]);
    }
    e
}

/// The host, with the default for an empty one.
fn default_host(h: &str) -> (r: String)
    ensures
        r@ == spec_default_host(h@),
{
    if h.unicode_len() == 0 {
        "127.0.0.1".to_owned()
    } else {
        h.to_owned()
    }
}

/// The Unix socket path of the part after the scheme.
fn unix_path(rest: &str) -> (r: String)
    ensures
        r@ == spec_unix_path(rest@),
{
    let n = rest.unicode_len();
    match find_char(rest, '/') {
        None => String::new(),
        Some(k) => {
            proof {
                lemma_find_char_some(rest@, 0, '/', k as int);
            }
            rest.substring_char(k, n).to_owned()
        },
    }
}

/// Parse the part after a TCP-mapped scheme as `host:port` with the
/// defaults, exactly as `spec_parse_hostport` says.
fn parse_hostport(rest: &str, tls: bool, endpoint: &str, settings: &RedisSettings) -> (r: Result<
    ConnDescriptor,
    Error,
>)
    ensures
        match r {
            Ok(d) => spec_parse_hostport(rest@, tls) matches SpecParse::Endpoint { ep }
                && descriptor_matches(d, ep, *settings),
            Err(e) => spec_parse_hostport(rest@, tls) is InvalidEndpoint
                && is_invalid_endpoint_error(e, endpoint@),
        },
{
    let n = rest.unicode_len();
    let a_end: usize = match find_char(rest, '/') {
        None => n,
        Some(k) => {
            proof {
                lemma_find_char_some(rest@, 0, '/', k as int);
            }
            k
        },
    };
    let a = rest.substring_char(0, a_end);
    proof {
        assert(rest@.subrange(0, a_end as int) =~= rest@.take(a_end as int));
        assert(a@ == spec_authority(rest@));
    }
    let m = a.unicode_len();
    match rfind_char_exec(a, ':') {
        None => {
            let host = default_host(a);
            let t = if tls {
                Transport::TcpTls { host, port: 6379 }
            } else {
                Transport::Tcp { host, port: 6379 }
            };
            Ok(mk_descriptor(t, settings))
        },
        Some(j) => {
            proof {
                lemma_rfind_some(a@, a@.len() - 1, ':', j as int);
            }
            let p = a.substring_char(j + 1, m);
            match parse_port(p) {
                Some(port) => {
                    let h = a.substring_char(0, j);
                    proof {
                        assert(a@.subrange(0, j as int) =~= a@.take(j as int));
                    }
                    let host = default_host(h);
                    let t = if tls {
                        Transport::TcpTls { host, port }
                    } else {
                        Transport::Tcp { host, port }
                    };
                    Ok(mk_descriptor(t, settings))
                },
                None => Err(invalid_endpoint_error(endpoint)),
            }
        },
    }
}

/// Parse an endpoint string, attaching the settings' database index and
/// credentials to the resulting descriptor unchanged. Succeeds exactly on
/// the strings the grammar accepts; each rejected string produces the
/// error `parse_failed` describes, which depends on the endpoint string
/// alone.
pub fn parse_endpoint(endpoint: &str, settings: &RedisSettings) -> (r: Result<
    ConnDescriptor,
    Error,
>)
    ensures
        match r {
            Ok(d) => spec_parse_endpoint(endpoint@) matches SpecParse::Endpoint { ep }
                && descriptor_matches(d, ep, *settings),
            Err(e) => parse_failed(e, endpoint@),
        },
{
    let n = endpoint.unicode_len();
    if n == 0 {
        return Err(invalid_endpoint_error(endpoint));
    }
    match find_scheme_sep(endpoint) {
        None => parse_hostport(endpoint, false, endpoint, settings),
        Some(i) => {
            proof {
                lemma_find_sep_some(endpoint@, 0, i as int);
            }
            let scheme = endpoint.substring_char(0, i);
            let rest = endpoint.substring_char(i + 3, n);
            proof {
                assert(endpoint@.subrange(0, i as int) =~= endpoint@.take(i as int));
            }
            if str_eq(scheme, "tcp") || str_eq(scheme, "redis") {
                parse_hostport(rest, false, endpoint, settings)
            } else if str_eq(scheme, "rediss") {
                parse_hostport(rest, true, endpoint, settings)
            } else if str_eq(scheme, "unix") || str_eq(scheme, "redis+unix") {
                Ok(mk_descriptor(Transport::Unix { path: unix_path(rest) }, settings))
            } else {
                Err(Error::new(ErrorKind::ConfigInvalid, "invalid or unsupported scheme"))
            }
        },
    }
}

} // verus!
