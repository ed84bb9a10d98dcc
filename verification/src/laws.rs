//! The guarantees this library states about its endpoint grammar and its
//! construction, each proved from the specifications alone.

use vstd::prelude::*;

use crate::client::cluster_descriptors_match;
use crate::client::cluster_pieces_accepted;
use crate::client::construction_post;
use crate::client::first_bad_from;
use crate::client::spec_split;
use crate::client::RedisClient;
use crate::endpoint::ConnDescriptor;
use crate::endpoint::SpecEndpoint;
use crate::endpoint::SpecParse;
use crate::endpoint::all_digits;
use crate::endpoint::digit_value;
use crate::endpoint::digits_val;
use crate::endpoint::find_char_from;
use crate::endpoint::find_sep_from;
use crate::endpoint::is_digit_char;
use crate::endpoint::rfind_char;
use crate::endpoint::sep_at;
use crate::endpoint::spec_authority;
use crate::endpoint::spec_default_host;
use crate::endpoint::spec_parse_endpoint;
use crate::endpoint::spec_parse_hostport;
use crate::endpoint::spec_unix_path;
use crate::endpoint::transport_matches;
use crate::endpoint::parse_failed;
use crate::endpoint::valid_port;
use crate::error::Error;
use crate::error::spec_detailed;
use crate::error::spec_single_line;
use crate::settings::RedisSettings;
use crate::settings::opt_view;

verus! {

/// A host the grammar passes through unchanged: free of the two
/// structural characters, the colon and the slash.
pub open spec fn valid_host(h: Seq<char>) -> bool {
    forall|j: int| 0 <= j < h.len() ==> h[j] != ':' && h[j] != '/'
}

/// Searching from `i` finds the separator at `m` when no colon stands
/// in between.
proof fn lemma_find_sep_skip(s: Seq<char>, i: int, m: int)
    requires
        0 <= i <= m,
        sep_at(s, m),
        forall|j: int| i <= j < m ==> s[j] != ':',
    ensures
        find_sep_from(s, i) == Some(m),
    decreases m - i,
{
    if i < m {
        assert(s[i] != ':');
        assert(!sep_at(s, i));
        lemma_find_sep_skip(s, i + 1, m);
    }
}

/// A character absent from `s` past `i` is never found from `i`.
proof fn lemma_find_char_none(s: Seq<char>, i: int, c: char)
    requires
        0 <= i,
        forall|j: int| i <= j < s.len() ==> s[j] != c,
    ensures
        find_char_from(s, i, c) is None,
    decreases s.len() - i,
{
    if i < s.len() {
        lemma_find_char_none(s, i + 1, c);
    }
}

/// Searching backwards from `i` finds the occurrence at `m` when no later
/// occurrence stands in between.
proof fn lemma_rfind_skip(s: Seq<char>, i: int, m: int, c: char)
    requires
        0 <= m <= i < s.len(),
        s[m] == c,
        forall|j: int| m < j <= i ==> s[j] != c,
    ensures
        rfind_char(s, i, c) == Some(m),
    decreases i - m,
{
    if i > m {
        assert(s[i] != c);
        lemma_rfind_skip(s, i - 1, m, c);
    }
}

/// A character absent from `s` is never found backwards either.
proof fn lemma_rfind_none(s: Seq<char>, i: int, c: char)
    requires
        forall|j: int| 0 <= j < s.len() ==> s[j] != c,
    ensures
        rfind_char(s, i, c) is None,
    decreases i + 1,
{
    if 0 <= i && i < s.len() {
        lemma_rfind_none(s, i - 1, c);
    }
}

/// Searching forward finds the occurrence at `m` when none stands before
/// it.
proof fn lemma_find_char_first(s: Seq<char>, i: int, m: int, c: char)
    requires
        0 <= i <= m < s.len(),
        s[m] == c,
        forall|j: int| i <= j < m ==> s[j] != c,
    ensures
        find_char_from(s, i, c) == Some(m),
    decreases m - i,
{
    if i < m {
        lemma_find_char_first(s, i + 1, m, c);
    }
}

/// A string with no scheme separator anywhere is never split at one.
proof fn lemma_find_sep_none(s: Seq<char>, i: int)
    requires
        0 <= i,
        forall|j: int| i <= j && j + 3 <= s.len() ==> !sep_at(s, j),
    ensures
        find_sep_from(s, i) is None,
    decreases s.len() - i,
{
    if i + 3 <= s.len() {
        lemma_find_sep_none(s, i + 1);
    }
}

/// A string of the shape `scheme://rest`, with no colon inside the scheme,
/// splits exactly there: the separator is found at the scheme's end, and
/// the scheme and the rest come back unchanged.
proof fn lemma_scheme_split(sch: Seq<char>, tail: Seq<char>)
    requires
        forall|j: int| 0 <= j < sch.len() ==> sch[j] != ':',
    ensures
        ({
            let s = sch + "://"@ + tail;
            &&& find_sep_from(s, 0) == Some(sch.len() as int)
            &&& s.take(sch.len() as int) == sch
            &&& s.subrange(sch.len() as int + 3, s.len() as int) == tail
            &&& s.len() == sch.len() + 3 + tail.len()
        }),
{
    reveal_strlit("://");
    let s = sch + "://"@ + tail;
    assert(s.len() == sch.len() + 3 + tail.len());
    assert(s[sch.len() as int] == ':');
    assert(s[sch.len() as int + 1] == '/');
    assert(s[sch.len() as int + 2] == '/');
    assert(sep_at(s, sch.len() as int));
    assert forall|j: int| 0 <= j < sch.len() implies s[j] != ':' by {
        assert(s[j] == sch[j]);
    }
    lemma_find_sep_skip(s, 0, sch.len() as int);
    assert(s.take(sch.len() as int) =~= sch);
    assert(s.subrange(sch.len() as int + 3, s.len() as int) =~= tail);
}

/// The part after a TCP-mapped scheme of the shape `host:port` parses to
/// exactly that host (with the empty-host default) and that port value.
proof fn lemma_hostport_with_port(h: Seq<char>, p: Seq<char>, tls: bool)
    requires
        valid_host(h),
        valid_port(p),
    ensures
        spec_parse_hostport(h + ":"@ + p, tls) == (SpecParse::Endpoint {
            ep: SpecEndpoint::Tcp {
                host: spec_default_host(h),
                port: digits_val(p) as u16,
                tls,
            },
        }),
{
    reveal_strlit(":");
    let hp = h + ":"@ + p;
    assert(hp.len() == h.len() + 1 + p.len());
    assert forall|j: int| 0 <= j < hp.len() implies hp[j] != '/' by {
        if j < h.len() {
            assert(hp[j] == h[j]);
        } else if j == h.len() {
            assert(hp[j] == ':');
        } else {
            assert(hp[j] == p[j - h.len() - 1]);
            assert(is_digit_char(p[j - h.len() - 1]));
        }
    }
    lemma_find_char_none(hp, 0, '/');
    assert(spec_authority(hp) == hp);
    assert(hp[h.len() as int] == ':');
    assert forall|j: int| h.len() < j < hp.len() implies hp[j] != ':' by {
        assert(hp[j] == p[j - h.len() - 1]);
        assert(is_digit_char(p[j - h.len() - 1]));
    }
    lemma_rfind_skip(hp, hp.len() as int - 1, h.len() as int, ':');
    assert(hp.subrange(h.len() as int + 1, hp.len() as int) =~= p);
    assert(hp.take(h.len() as int) =~= h);
}

/// The part after a TCP-mapped scheme of the shape `host:port/...` cuts
/// the authority at the first slash: the same host and port are read and
/// the path is ignored.
proof fn lemma_hostport_with_port_path(h: Seq<char>, p: Seq<char>, rest: Seq<char>, tls: bool)
    requires
        valid_host(h),
        valid_port(p),
    ensures
        spec_parse_hostport(h + ":"@ + p + "/"@ + rest, tls) == (SpecParse::Endpoint {
            ep: SpecEndpoint::Tcp {
                host: spec_default_host(h),
                port: digits_val(p) as u16,
                tls,
            },
        }),
{
    reveal_strlit(":");
    reveal_strlit("/");
    let a = h + ":"@ + p;
    let hp = h + ":"@ + p + "/"@ + rest;
    assert(a.len() == h.len() + 1 + p.len());
    assert(hp[a.len() as int] == '/');
    assert forall|j: int| 0 <= j < a.len() implies hp[j] != '/' by {
        assert(hp[j] == a[j]);
        if j < h.len() {
            assert(a[j] == h[j]);
        } else if j == h.len() {
            assert(a[j] == ':');
        } else {
            assert(a[j] == p[j - h.len() - 1]);
            assert(is_digit_char(p[j - h.len() - 1]));
        }
    }
    lemma_find_char_first(hp, 0, a.len() as int, '/');
    assert(spec_authority(hp) =~= a);
    assert(a[h.len() as int] == ':');
    assert forall|j: int| h.len() < j < a.len() implies a[j] != ':' by {
        assert(a[j] == p[j - h.len() - 1]);
        assert(is_digit_char(p[j - h.len() - 1]));
    }
    lemma_rfind_skip(a, a.len() as int - 1, h.len() as int, ':');
    assert(a.subrange(h.len() as int + 1, a.len() as int) =~= p);
    assert(a.take(h.len() as int) =~= h);
}

/// The part after a TCP-mapped scheme of the shape `host/...` reads the
/// host and the default port, ignoring the path.
proof fn lemma_hostport_no_port_path(h: Seq<char>, rest: Seq<char>, tls: bool)
    requires
        valid_host(h),
    ensures
        spec_parse_hostport(h + "/"@ + rest, tls) == (SpecParse::Endpoint {
            ep: SpecEndpoint::Tcp { host: spec_default_host(h), port: 6379, tls },
        }),
{
    reveal_strlit("/");
    let hp = h + "/"@ + rest;
    assert(hp[h.len() as int] == '/');
    assert forall|j: int| 0 <= j < h.len() implies hp[j] != '/' by {
        assert(hp[j] == h[j]);
    }
    lemma_find_char_first(hp, 0, h.len() as int, '/');
    assert(spec_authority(hp) =~= h);
    lemma_rfind_none(h, h.len() as int - 1, ':');
}

/// The part after a TCP-mapped scheme without a colon parses to that host
/// (with the empty-host default) and the default port.
proof fn lemma_hostport_no_port(h: Seq<char>, tls: bool)
    requires
        valid_host(h),
    ensures
        spec_parse_hostport(h, tls) == (SpecParse::Endpoint {
            ep: SpecEndpoint::Tcp { host: spec_default_host(h), port: 6379, tls },
        }),
{
    lemma_find_char_none(h, 0, '/');
    assert(spec_authority(h) == h);
    lemma_rfind_none(h, h.len() as int - 1, ':');
}

/// For every valid `tcp://host:port` string, the parsed transport holds
/// exactly that host and that port.
pub proof fn lemma_parse_tcp_host_port(h: Seq<char>, p: Seq<char>)
    requires
        0 < h.len(),
        valid_host(h),
        valid_port(p),
    ensures
        spec_parse_endpoint("tcp://"@ + h + ":"@ + p) == (SpecParse::Endpoint {
            ep: SpecEndpoint::Tcp { host: h, port: digits_val(p) as u16, tls: false },
        }),
{
    reveal_strlit("tcp://");
    reveal_strlit("tcp");
    reveal_strlit("://");
    reveal_strlit(":");
    let sch = "tcp"@;
    let tail = h + ":"@ + p;
    lemma_scheme_split(sch, tail);
    let s = sch + "://"@ + tail;
    assert("tcp://"@ + h + ":"@ + p =~= s);
    lemma_hostport_with_port(h, p, false);
    assert(spec_default_host(h) == h);
}

/// For every valid `tcp://host` string without a port, the parsed
/// transport holds that host and the default port.
pub proof fn lemma_parse_tcp_default_port(h: Seq<char>)
    requires
        0 < h.len(),
        valid_host(h),
    ensures
        spec_parse_endpoint("tcp://"@ + h) == (SpecParse::Endpoint {
            ep: SpecEndpoint::Tcp { host: h, port: 6379, tls: false },
        }),
{
    reveal_strlit("tcp://");
    reveal_strlit("tcp");
    reveal_strlit("://");
    let sch = "tcp"@;
    lemma_scheme_split(sch, h);
    let s = sch + "://"@ + h;
    assert("tcp://"@ + h =~= s);
    lemma_hostport_no_port(h, false);
    assert(spec_default_host(h) == h);
}

/// For every `tcp://host:port/path` string, the host and port are read
/// exactly as without the path, which is ignored; an empty host falls
/// back to the loopback default.
pub proof fn lemma_parse_tcp_host_port_path(h: Seq<char>, p: Seq<char>, rest: Seq<char>)
    requires
        valid_host(h),
        valid_port(p),
    ensures
        spec_parse_endpoint("tcp://"@ + h + ":"@ + p + "/"@ + rest) == (SpecParse::Endpoint {
            ep: SpecEndpoint::Tcp {
                host: spec_default_host(h),
                port: digits_val(p) as u16,
                tls: false,
            },
        }),
{
    reveal_strlit("tcp://");
    reveal_strlit("tcp");
    reveal_strlit("://");
    reveal_strlit(":");
    reveal_strlit("/");
    let sch = "tcp"@;
    let tail = h + ":"@ + p + "/"@ + rest;
    lemma_scheme_split(sch, tail);
    let s = sch + "://"@ + tail;
    assert("tcp://"@ + h + ":"@ + p + "/"@ + rest =~= s);
    lemma_hostport_with_port_path(h, p, rest, false);
}

/// For every `tcp://host/path` string without a port, the host is read
/// with the default port and the path is ignored; an empty host falls
/// back to the loopback default.
pub proof fn lemma_parse_tcp_default_port_path(h: Seq<char>, rest: Seq<char>)
    requires
        valid_host(h),
    ensures
        spec_parse_endpoint("tcp://"@ + h + "/"@ + rest) == (SpecParse::Endpoint {
            ep: SpecEndpoint::Tcp { host: spec_default_host(h), port: 6379, tls: false },
        }),
{
    reveal_strlit("tcp://");
    reveal_strlit("tcp");
    reveal_strlit("://");
    reveal_strlit("/");
    let sch = "tcp"@;
    let tail = h + "/"@ + rest;
    lemma_scheme_split(sch, tail);
    let s = sch + "://"@ + tail;
    assert("tcp://"@ + h + "/"@ + rest =~= s);
    lemma_hostport_no_port_path(h, rest, false);
}

/// A bare `host:port` string, with no scheme at all, parses as plain TCP
/// with exactly that host and port.
pub proof fn lemma_parse_bare_host_port(h: Seq<char>, p: Seq<char>)
    requires
        0 < h.len(),
        valid_host(h),
        valid_port(p),
    ensures
        spec_parse_endpoint(h + ":"@ + p) == (SpecParse::Endpoint {
            ep: SpecEndpoint::Tcp { host: h, port: digits_val(p) as u16, tls: false },
        }),
{
    reveal_strlit(":");
    let s = h + ":"@ + p;
    assert(s.len() == h.len() + 1 + p.len());
    assert forall|j: int| 0 <= j && j + 3 <= s.len() implies !sep_at(s, j) by {
        if j < h.len() {
            assert(s[j] == h[j]);
        } else if j == h.len() {
            assert(s[j + 1] == p[0]);
            assert(is_digit_char(p[0]));
        } else {
            assert(s[j] == p[j - h.len() - 1]);
            assert(is_digit_char(p[j - h.len() - 1]));
        }
    }
    lemma_find_sep_none(s, 0);
    lemma_hostport_with_port(h, p, false);
    assert(spec_default_host(h) == h);
}

/// A bare `tcp://` gets both defaults: the loopback host and the default
/// port.
pub proof fn lemma_parse_tcp_default_host_port()
    ensures
        spec_parse_endpoint("tcp://"@) == (SpecParse::Endpoint {
            ep: SpecEndpoint::Tcp { host: "127.0.0.1"@, port: 6379, tls: false },
        }),
{
    reveal_strlit("tcp://");
    reveal_strlit("tcp");
    reveal_strlit("://");
    reveal_strlit("127.0.0.1");
    let sch = "tcp"@;
    let tail = Seq::<char>::empty();
    lemma_scheme_split(sch, tail);
    let s = sch + "://"@ + tail;
    assert("tcp://"@ =~= s);
    lemma_hostport_no_port(tail, false);
}

/// For every string with scheme `rediss`, TLS is enabled in the parsed
/// transport, with the same host and port reading as for `tcp`.
pub proof fn lemma_parse_rediss_tls(h: Seq<char>, p: Seq<char>)
    requires
        0 < h.len(),
        valid_host(h),
        valid_port(p),
    ensures
        spec_parse_endpoint("rediss://"@ + h + ":"@ + p) == (SpecParse::Endpoint {
            ep: SpecEndpoint::Tcp { host: h, port: digits_val(p) as u16, tls: true },
        }),
{
    reveal_strlit("rediss://");
    reveal_strlit("rediss");
    reveal_strlit("redis");
    reveal_strlit("tcp");
    reveal_strlit("://");
    reveal_strlit(":");
    let sch = "rediss"@;
    let tail = h + ":"@ + p;
    lemma_scheme_split(sch, tail);
    let s = sch + "://"@ + tail;
    assert("rediss://"@ + h + ":"@ + p =~= s);
    assert(sch != "tcp"@);
    assert(sch != "redis"@);
    lemma_hostport_with_port(h, p, true);
    assert(spec_default_host(h) == h);
}

/// For every string with scheme `unix` whose rest is an absolute path,
/// the parsed socket path equals that path exactly.
pub proof fn lemma_parse_unix_path(p: Seq<char>)
    requires
        0 < p.len(),
        p[0] == '/',
    ensures
        spec_parse_endpoint("unix://"@ + p) == (SpecParse::Endpoint {
            ep: SpecEndpoint::Unix { path: p },
        }),
{
    reveal_strlit("unix://");
    reveal_strlit("unix");
    reveal_strlit("redis");
    reveal_strlit("rediss");
    reveal_strlit("tcp");
    reveal_strlit("://");
    let sch = "unix"@;
    lemma_scheme_split(sch, p);
    let s = sch + "://"@ + p;
    assert("unix://"@ + p =~= s);
    assert(sch != "tcp"@);
    assert(sch != "redis"@);
    assert(sch != "rediss"@);
    assert(find_char_from(p, 0, '/') == Some(0int));
    assert(spec_unix_path(p) =~= p);
}

/// The `redis+unix` scheme maps to the same socket path reading as
/// `unix`.
pub proof fn lemma_parse_redis_unix_path(p: Seq<char>)
    requires
        0 < p.len(),
        p[0] == '/',
    ensures
        spec_parse_endpoint("redis+unix://"@ + p) == (SpecParse::Endpoint {
            ep: SpecEndpoint::Unix { path: p },
        }),
{
    reveal_strlit("redis+unix://");
    reveal_strlit("redis+unix");
    reveal_strlit("unix");
    reveal_strlit("redis");
    reveal_strlit("rediss");
    reveal_strlit("tcp");
    reveal_strlit("://");
    let sch = "redis+unix"@;
    assert forall|j: int| 0 <= j < sch.len() implies sch[j] != ':' by {}
    lemma_scheme_split(sch, p);
    let s = sch + "://"@ + p;
    assert("redis+unix://"@ + p =~= s);
    assert(sch != "tcp"@);
    assert(sch != "redis"@);
    assert(sch != "rediss"@);
    assert(sch != "unix"@);
    assert(find_char_from(p, 0, '/') == Some(0int));
    assert(spec_unix_path(p) =~= p);
}

/// Every scheme outside the supported set is rejected as unsupported,
/// whatever follows it.
pub proof fn lemma_parse_unsupported_scheme(sch: Seq<char>, tail: Seq<char>)
    requires
        forall|j: int| 0 <= j < sch.len() ==> sch[j] != ':',
        sch != "tcp"@,
        sch != "redis"@,
        sch != "rediss"@,
        sch != "unix"@,
        sch != "redis+unix"@,
    ensures
        spec_parse_endpoint(sch + "://"@ + tail) == SpecParse::UnsupportedScheme,
{
    lemma_scheme_split(sch, tail);
}

/// The default endpoint parses to the loopback host at the default port
/// over plain TCP.
pub proof fn lemma_parse_default_endpoint()
    ensures
        spec_parse_endpoint("tcp://127.0.0.1:6379"@) == (SpecParse::Endpoint {
            ep: SpecEndpoint::Tcp { host: "127.0.0.1"@, port: 6379, tls: false },
        }),
{
    reveal_strlit("tcp://127.0.0.1:6379");
    reveal_strlit("tcp://");
    reveal_strlit("127.0.0.1");
    reveal_strlit(":");
    reveal_strlit("6379");
    let h = "127.0.0.1"@;
    let p = "6379"@;
    assert(valid_host(h)) by {
        assert forall|j: int| 0 <= j < h.len() implies h[j] != ':' && h[j] != '/' by {}
    }
    assert(p =~= seq!['6', '3', '7', '9']);
    let p1 = seq!['6'];
    let p2 = seq!['6', '3'];
    let p3 = seq!['6', '3', '7'];
    let p4 = seq!['6', '3', '7', '9'];
    assert(p1.drop_last() =~= Seq::<char>::empty());
    assert(digits_val(Seq::<char>::empty()) == 0);
    assert(digit_value('6') == 6);
    assert(digits_val(p1) == 6);
    assert(p2.drop_last() =~= p1);
    assert(digits_val(p2) == 63);
    assert(p3.drop_last() =~= p2);
    assert(digits_val(p3) == 637);
    assert(p4.drop_last() =~= p3);
    assert(digits_val(p4) == 6379);
    assert(digits_val(p) == 6379);
    assert(all_digits(p));
    assert(valid_port(p));
    lemma_parse_tcp_host_port(h, p);
    assert("tcp://"@ + h + ":"@ + p =~= "tcp://127.0.0.1:6379"@);
}

/// With neither `address` nor `addresses` configured, construction
/// succeeds: the handle is well-formed, in single mode, and its descriptor
/// targets the loopback host at the default port over plain TCP.
pub proof fn lemma_default_settings_construct(s: RedisSettings, r: Result<RedisClient, Error>)
    requires
        s.address is None,
        s.addresses is None,
        construction_post(s, r),
    ensures
        r is Ok,
        r->Ok_0.wf(),
        !r->Ok_0.is_cluster(),
        r->Ok_0.descriptor is Some,
        transport_matches(
            r->Ok_0.descriptor->0.transport,
            SpecEndpoint::Tcp { host: "127.0.0.1"@, port: 6379, tls: false },
        ),
{
    lemma_parse_default_endpoint();
}

/// A rejected endpoint determines its error in full: two parse failures
/// for the same endpoint string agree on every field, whatever settings
/// were in play, and so render identically. No credential reaches a parse
/// error.
pub proof fn lemma_parse_error_ignores_credentials(e1: Error, e2: Error, endpoint: Seq<char>)
    requires
        parse_failed(e1, endpoint),
        parse_failed(e2, endpoint),
    ensures
        e1.kind_spec() == e2.kind_spec(),
        e1.message_spec() == e2.message_spec(),
        e1.context_spec() == e2.context_spec(),
        e1.source_spec() == e2.source_spec(),
        spec_single_line(e1.kind_spec(), e1.message_spec(), e1.context_spec(), e1.source_spec())
            == spec_single_line(
            e2.kind_spec(),
            e2.message_spec(),
            e2.context_spec(),
            e2.source_spec(),
        ),
        spec_detailed(e1.kind_spec(), e1.message_spec(), e1.context_spec(), e1.source_spec())
            == spec_detailed(
            e2.kind_spec(),
            e2.message_spec(),
            e2.context_spec(),
            e2.source_spec(),
        ),
{
}

/// A well-formed cluster address list constructs successfully: when every
/// piece parses and the topology is one the driver's builder accepts —
/// every piece TCP, one TLS mode throughout — construction returns a
/// well-formed handle in cluster mode.
pub proof fn lemma_cluster_construction_succeeds(s: RedisSettings, r: Result<RedisClient, Error>)
    requires
        s.addresses is Some,
        construction_post(s, r),
        first_bad_from(spec_split(s.addresses->0@), 0) is None,
        cluster_pieces_accepted(spec_split(s.addresses->0@)),
    ensures
        r is Ok,
        r->Ok_0.wf(),
        r->Ok_0.is_cluster(),
        cluster_descriptors_match(
            r->Ok_0.cluster_descriptors@,
            spec_split(s.addresses->0@),
            s,
        ),
{
}

/// Matching descriptor lists care only about the database index and the
/// credential views of the settings, not about any address field.
proof fn lemma_cluster_match_settings_equiv(
    descs: Seq<ConnDescriptor>,
    pieces: Seq<Seq<char>>,
    s1: RedisSettings,
    s2: RedisSettings,
)
    requires
        s1.db == s2.db,
        opt_view(s1.username) == opt_view(s2.username),
        opt_view(s1.password) == opt_view(s2.password),
    ensures
        cluster_descriptors_match(descs, pieces, s1) == cluster_descriptors_match(
            descs,
            pieces,
            s2,
        ),
    decreases pieces.len(),
{
    if pieces.len() > 0 {
        lemma_cluster_match_settings_equiv(descs.drop_last(), pieces.drop_last(), s1, s2);
    }
}

/// Presence of `addresses` selects cluster mode and the single-node
/// `address` is ignored: two settings that agree on everything except
/// `address` put exactly the same constraints on the construction
/// outcome.
pub proof fn lemma_cluster_mode_ignores_address(
    s1: RedisSettings,
    s2: RedisSettings,
    r: Result<RedisClient, Error>,
)
    requires
        s1.addresses is Some,
        s2.addresses is Some,
        opt_view(s1.addresses) == opt_view(s2.addresses),
        s1.db == s2.db,
        opt_view(s1.username) == opt_view(s2.username),
        opt_view(s1.password) == opt_view(s2.password),
    ensures
        construction_post(s1, r) == construction_post(s2, r),
{
    match r {
        Ok(c) => {
            lemma_cluster_match_settings_equiv(
                c.cluster_descriptors@,
                crate::client::spec_split(s1.addresses->0@),
                s1,
                s2,
            );
        },
        Err(_) => {},
    }
}

} // verus!


