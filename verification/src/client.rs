//! The connection resolver: turns the settings into a client handle holding
//! either a single-node client template or a cluster client template —
//! exactly one of the two — without opening any network connection.
//!
//! The templates themselves come from the `redis` driver through trusted
//! wrappers; everything decided here — mode selection, endpoint splitting
//! and parsing, which template is built, the exact error for every failure
//! path — is verified against `construction_post`.

use vstd::prelude::*;

use crate::endpoint::ConnDescriptor;
use crate::endpoint::Transport;
use crate::endpoint::descriptor_matches;
use crate::endpoint::parse_endpoint;
use crate::endpoint::parse_failed;
use crate::endpoint::spec_parse_endpoint;
use crate::endpoint::find_char_from;
use crate::endpoint::lemma_find_char_some;
use crate::endpoint::find_char;
use crate::endpoint::SpecParse;
use crate::endpoint::SpecEndpoint;
use crate::error::Error;
use crate::error::ErrorKind;
use crate::settings::RedisSettings;
use crate::settings::opt_view;

verus! {

#[verifier::external_type_specification]
#[verifier::external_body]
pub struct ExClient(redis::Client);

#[verifier::external_type_specification]
#[verifier::external_body]
pub struct ExClusterClient(redis::cluster::ClusterClient);

#[verifier::external_type_specification]
#[verifier::external_body]
pub struct ExClusterClientBuilder(redis::cluster::ClusterClientBuilder);

#[verifier::external_type_specification]
#[verifier::external_body]
pub struct ExConnectionInfo(redis::ConnectionInfo);

#[verifier::external_type_specification]
#[verifier::external_body]
pub struct ExRedisError(redis::RedisError);

/// What the cluster builder's checks read from a connection info: the
/// address family, the TLS mode (absent, or secure/insecure), the
/// credentials, and whether the protocol is the default one.
pub struct InfoView {
    /// Whether the address is a Unix-domain socket.
    pub unix: bool,
    /// The TLS mode: `None` for plain TCP, `Some(true)` for secure TLS,
    /// `Some(false)` for TLS without hostname verification.
    pub tls: Option<bool>,
    /// The username carried for the handshake.
    pub username: Option<Seq<char>>,
    /// The password carried for the handshake.
    pub password: Option<Seq<char>>,
    /// Whether the protocol field holds the driver's default.
    pub default_protocol: bool,
}

/// The name for what a connection-info value holds, as far as the cluster
/// builder's checks read it.
pub uninterp spec fn info_view(i: redis::ConnectionInfo) -> InfoView;

/// The info view a descriptor converts to: TLS exactly for the TLS
/// transport and never insecure, the descriptor's credentials, the
/// default protocol.
pub open spec fn info_view_of_descriptor(d: ConnDescriptor) -> InfoView {
    InfoView {
        unix: d.transport is Unix,
        tls: if d.transport is TcpTls {
            Some(true)
        } else {
            None
        },
        username: opt_view(d.username),
        password: opt_view(d.password),
        default_protocol: true,
    }
}

/// Relies on the driver's connection-info structs: copies the descriptor's
/// fields into them one for one, choosing the address variant that matches
/// the transport. The result's view follows the descriptor exactly.
#[verifier::external_body]
fn descriptor_to_info(d: &ConnDescriptor) -> (r: redis::ConnectionInfo)
    ensures
        info_view(r) == info_view_of_descriptor(*d),
{
    let addr = match &d.transport {
        Transport::Tcp { host, port } => redis::ConnectionAddr::Tcp(host.clone(), *port),
        Transport::TcpTls { host, port } => redis::ConnectionAddr::TcpTls {
            host: host.clone(), port: *port, insecure: false, tls_params: None,
        },
        Transport::Unix { path } => redis::ConnectionAddr::Unix(path.clone().into()),
    };
    let redis = redis::RedisConnectionInfo {
        db: d.db, username: d.username.clone(), password: d.password.clone(),
        ..Default::default()
    };
    redis::ConnectionInfo { addr, redis }
}

/// Relies on redis::Client::open, which for an already-built connection
/// info only stores it: it performs no I/O and, per its source, cannot
/// fail on this input, so the unwrap never panics.
#[verifier::external_body]
fn client_open(info: redis::ConnectionInfo) -> redis::Client {
    redis::Client::open(info).unwrap()
}

/// What the cluster builder accumulates, as far as its final checks read
/// it: the node list (and that collecting it succeeded), the builder-level
/// credentials, and whether every other builder parameter still holds its
/// default.
pub struct BuilderView {
    /// The initial nodes handed to the builder.
    pub nodes: Seq<redis::ConnectionInfo>,
    /// Whether collecting the nodes succeeded.
    pub nodes_ok: bool,
    /// The builder-level username, if one was set.
    pub username: Option<Seq<char>>,
    /// The builder-level password, if one was set.
    pub password: Option<Seq<char>>,
    /// Whether every builder parameter besides the credentials holds its
    /// default.
    pub extras_default: bool,
}

/// The name for what a cluster builder holds.
pub uninterp spec fn builder_view(b: redis::cluster::ClusterClientBuilder) -> BuilderView;

/// A node list the cluster builder accepts: non-empty, no Unix-domain
/// socket, one TLS mode throughout, uniform credentials, and the default
/// protocol — with all other builder parameters at their defaults. Per
/// the builder's source these conditions pass every one of its checks.
pub open spec fn builder_accepts(v: BuilderView) -> bool {
    &&& v.nodes_ok
    &&& v.extras_default
    &&& v.nodes.len() > 0
    &&& forall|i: int|
        0 <= i < v.nodes.len() ==> {
            let nv = #[trigger] info_view(v.nodes[i]);
            &&& !nv.unix
            &&& nv.tls == info_view(v.nodes[0]).tls
            &&& nv.username == info_view(v.nodes[0]).username
            &&& nv.password == info_view(v.nodes[0]).password
            &&& nv.default_protocol
        }
}

/// Relies on redis::cluster::ClusterClientBuilder::new: stores the given
/// nodes — already-built infos always collect — with every other
/// parameter at its default.
#[verifier::external_body]
fn cluster_builder_new(infos: Vec<redis::ConnectionInfo>) -> (r: redis::cluster::ClusterClientBuilder)
    ensures
        builder_view(r) == (BuilderView {
            nodes: infos@,
            nodes_ok: true,
            username: None,
            password: None,
            extras_default: true,
        }),
{
    redis::cluster::ClusterClientBuilder::new(infos)
}

/// Relies on ClusterClientBuilder::username: stores the username shared
/// by the whole topology and touches nothing else.
#[verifier::external_body]
fn cluster_builder_username(
    b: redis::cluster::ClusterClientBuilder,
    username: String,
) -> (r: redis::cluster::ClusterClientBuilder)
    ensures
        builder_view(r) == (BuilderView { username: Some(username@), ..builder_view(b) }),
{
    b.username(username)
}

/// Relies on ClusterClientBuilder::password: stores the password shared
/// by the whole topology and touches nothing else.
#[verifier::external_body]
fn cluster_builder_password(
    b: redis::cluster::ClusterClientBuilder,
    password: String,
) -> (r: redis::cluster::ClusterClientBuilder)
    ensures
        builder_view(r) == (BuilderView { password: Some(password@), ..builder_view(b) }),
{
    b.password(password)
}

/// Relies on ClusterClientBuilder::build, which checks the initial nodes
/// without opening a network connection: a node list it accepts always
/// builds, and a refusal returns its error.
#[verifier::external_body]
fn cluster_builder_build(b: redis::cluster::ClusterClientBuilder) -> (r: Result<
    redis::cluster::ClusterClient,
    redis::RedisError,
>)
    ensures
        builder_accepts(builder_view(b)) ==> r is Ok,
{
    b.build()
}

/// The category string of a driver error: a fixed name per error class,
/// a function of the error value alone.
pub uninterp spec fn category_of(e: redis::RedisError) -> Seq<char>;

/// Relies on redis::RedisError::category: a fixed name for the class of a
/// driver error, determined by the error value alone.
#[verifier::external_body]
fn redis_error_category(e: &redis::RedisError) -> (r: String)
    ensures
        r@ == category_of(*e),
{
    e.category().to_owned()
}

/// Relies on the driver error's own rendering for the detail text. The
/// text may depend on the platform and the moment of rendering (an OS
/// error's message comes from the C library), so nothing is claimed of
/// its content.
#[verifier::external_body]
fn redis_error_detail(e: &redis::RedisError) -> String {
    format!("{}", e)
}

/// The error carrying a driver failure: kind `Unexpected`, the driver's
/// category as the message, the detail as the causal source, no context.
pub fn unexpected_error(category: String, detail: String) -> (r: Error)
    ensures
        r.kind_spec() == ErrorKind::Unexpected,
        r.message_spec() == category@,
        r.context_spec() == Seq::<(Seq<char>, Seq<char>)>::empty(),
        r.source_spec() == Some(detail@),
{
    Error::new(ErrorKind::Unexpected, category.as_str()).set_source(detail)
}

/// Map a driver error to the unified error type: kind `Unexpected`, the
/// driver's own category as the message, the driver's rendered text as
/// the causal source, no context. The source text itself is not pinned:
/// the driver's rendering is not a function of the error value alone.
pub fn format_redis_error(e: redis::RedisError) -> (r: Error)
    ensures
        is_driver_error(r),
        r.kind_spec() == ErrorKind::Unexpected,
        r.message_spec() == category_of(e),
        r.context_spec() == Seq::<(Seq<char>, Seq<char>)>::empty(),
        r.source_spec() is Some,
{
    let category = redis_error_category(&e);
    let detail = redis_error_detail(&e);
    unexpected_error(category, detail)
}

/// The shape every error mapped from the driver has: kind `Unexpected`,
/// no context pairs, some driver error's category as the message, and a
/// causal source present.
pub open spec fn is_driver_error(e: Error) -> bool {
    &&& e.kind_spec() == ErrorKind::Unexpected
    &&& e.context_spec() == Seq::<(Seq<char>, Seq<char>)>::empty()
    &&& exists|be: redis::RedisError| e.message_spec() == #[trigger] category_of(be)
    &&& e.source_spec() is Some
}

/// Splitting on commas: the piece up to the first comma, then the split of
/// what follows it. A string without a comma is one piece, so the result
/// is never empty.
pub open spec fn spec_split(s: Seq<char>) -> Seq<Seq<char>>
    decreases s.len(),
{
    match find_char_from(s, 0, ',') {
        None => seq![s],
        // A found comma always lies inside the string; the guard makes the
        // recursion visibly well-founded.
        Some(k) => if 0 <= k < s.len() {
            seq![s.take(k)] + spec_split(s.subrange(k + 1, s.len() as int))
        } else {
            seq![s]
        },
    }
}

/// The views of a sequence of strings.
pub open spec fn views_of(v: Seq<String>) -> Seq<Seq<char>> {
    v.map_values(|x: String| x@)
}

/// Split `s` on commas, exactly as `spec_split` says.
fn split_commas(s: &str) -> (r: Vec<String>)
    ensures
        views_of(r@) == spec_split(s@),
    decreases s@.len(),
{
    let n = s.unicode_len();
    match find_char(s, ',') {
        None => {
            let mut v: Vec<String> = Vec::new();
            v.push(s.to_owned());
            proof {
                assert(views_of(v@) =~= seq![s@]);
            }
            v
        },
        Some(k) => {
            proof {
                lemma_find_char_some(s@, 0, ',', k as int);
            }
            let head = s.substring_char(0, k).to_owned();
            let tail = s.substring_char(k + 1, n);
            let mut rest = split_commas(tail);
            let mut v: Vec<String> = Vec::new();
            v.push(head);
            v.append(&mut rest);
            proof {
                assert(s@.subrange(0, k as int) =~= s@.take(k as int));
                assert(views_of(v@) =~= seq![s@.take(k as int)] + spec_split(
                    s@.subrange(k + 1, s@.len() as int),
                ));
            }
            v
        },
    }
}

/// The first piece at or after `i` that the endpoint grammar rejects.
pub open spec fn first_bad_from(pieces: Seq<Seq<char>>, i: int) -> Option<int>
    decreases pieces.len() - i,
{
    if i < 0 || i >= pieces.len() {
        None
    } else if !(spec_parse_endpoint(pieces[i]) is Endpoint) {
        Some(i)
    } else {
        first_bad_from(pieces, i + 1)
    }
}

/// Whether `descs` realizes, piece by piece, the parses of `pieces` with
/// the settings' database index and credentials attached.
pub open spec fn cluster_descriptors_match(
    descs: Seq<ConnDescriptor>,
    pieces: Seq<Seq<char>>,
    s: RedisSettings,
) -> bool
    decreases pieces.len(),
{
    if pieces.len() == 0 {
        descs.len() == 0
    } else {
        &&& descs.len() == pieces.len()
        &&& spec_parse_endpoint(pieces.last()) is Endpoint
        &&& descriptor_matches(
            descs.last(),
            spec_parse_endpoint(pieces.last())->Endpoint_ep,
            s,
        )
        &&& cluster_descriptors_match(descs.drop_last(), pieces.drop_last(), s)
    }
}

/// Each position of a matching descriptor list realizes the parse of its
/// piece.
pub proof fn lemma_cluster_match_index(
    descs: Seq<ConnDescriptor>,
    pieces: Seq<Seq<char>>,
    s: RedisSettings,
    j: int,
)
    requires
        cluster_descriptors_match(descs, pieces, s),
        0 <= j < pieces.len(),
    ensures
        descs.len() == pieces.len(),
        spec_parse_endpoint(pieces[j]) is Endpoint,
        descriptor_matches(descs[j], spec_parse_endpoint(pieces[j])->Endpoint_ep, s),
    decreases pieces.len(),
{
    if j + 1 < pieces.len() {
        assert(pieces.drop_last()[j] == pieces[j]);
        assert(descs.drop_last()[j] == descs[j]);
        lemma_cluster_match_index(descs.drop_last(), pieces.drop_last(), s, j);
    }
}

/// Whether each info is the conversion of the descriptor at the same
/// position.
pub open spec fn infos_match(infos: Seq<redis::ConnectionInfo>, descs: Seq<ConnDescriptor>) -> bool
    decreases descs.len(),
{
    if descs.len() == 0 {
        infos.len() == 0
    } else {
        &&& infos.len() == descs.len()
        &&& info_view(infos.last()) == info_view_of_descriptor(descs.last())
        &&& infos_match(infos.drop_last(), descs.drop_last())
    }
}

/// Each position of a matching info list views as its descriptor does.
pub proof fn lemma_infos_match_index(
    infos: Seq<redis::ConnectionInfo>,
    descs: Seq<ConnDescriptor>,
    j: int,
)
    requires
        infos_match(infos, descs),
        0 <= j < descs.len(),
    ensures
        infos.len() == descs.len(),
        info_view(infos[j]) == info_view_of_descriptor(descs[j]),
    decreases descs.len(),
{
    if j + 1 < descs.len() {
        assert(infos.drop_last()[j] == infos[j]);
        assert(descs.drop_last()[j] == descs[j]);
        lemma_infos_match_index(infos.drop_last(), descs.drop_last(), j);
    }
}

/// Whether a piece parses to a TCP transport, plain or TLS.
pub open spec fn parsed_tcp(piece: Seq<char>) -> bool {
    spec_parse_endpoint(piece) matches SpecParse::Endpoint { ep: SpecEndpoint::Tcp { .. } }
}

/// Whether a piece parses to the TLS transport.
pub open spec fn parsed_tls(piece: Seq<char>) -> bool {
    spec_parse_endpoint(piece) matches SpecParse::Endpoint { ep: SpecEndpoint::Tcp { tls: true, .. } }
}

/// A cluster address list the driver's builder is sure to accept: every
/// piece maps to TCP — the builder refuses Unix-domain sockets — and the
/// pieces agree on whether TLS is on. The credentials and protocol are
/// uniform by construction, since one settings value supplies them all.
pub open spec fn cluster_pieces_accepted(pieces: Seq<Seq<char>>) -> bool {
    &&& pieces.len() > 0
    &&& forall|i: int| 0 <= i < pieces.len() ==> #[trigger] parsed_tcp(pieces[i])
    &&& forall|i: int|
        0 <= i < pieces.len() ==> #[trigger] parsed_tls(pieces[i]) == parsed_tls(pieces[0])
}

/// An accepted address list, converted descriptor by descriptor, yields a
/// builder state that passes every check of the driver's build step.
proof fn lemma_accepted_topology(
    infos: Seq<redis::ConnectionInfo>,
    descs: Seq<ConnDescriptor>,
    pieces: Seq<Seq<char>>,
    s: RedisSettings,
    v: BuilderView,
)
    requires
        infos_match(infos, descs),
        cluster_descriptors_match(descs, pieces, s),
        cluster_pieces_accepted(pieces),
        v.nodes == infos,
        v.nodes_ok,
        v.extras_default,
    ensures
        builder_accepts(v),
{
    lemma_cluster_match_index(descs, pieces, s, 0);
    lemma_infos_match_index(infos, descs, 0);
    assert forall|i: int|
        0 <= i < v.nodes.len() implies {
            let nv = #[trigger] info_view(v.nodes[i]);
            &&& !nv.unix
            &&& nv.tls == info_view(v.nodes[0]).tls
            &&& nv.username == info_view(v.nodes[0]).username
            &&& nv.password == info_view(v.nodes[0]).password
            &&& nv.default_protocol
        } by {
        lemma_cluster_match_index(descs, pieces, s, i);
        lemma_infos_match_index(infos, descs, i);
        assert(parsed_tcp(pieces[i]) && parsed_tcp(pieces[0]));
        assert(parsed_tls(pieces[i]) == parsed_tls(pieces[0]));
        assert(descs[i].transport is TcpTls <==> parsed_tls(pieces[i]));
        assert(descs[0].transport is TcpTls <==> parsed_tls(pieces[0]));
        assert(!(descs[i].transport is Unix));
    }
}

/// The endpoint single mode connects to: the configured address, or the
/// default when none is set.
pub open spec fn spec_settings_endpoint(s: RedisSettings) -> Seq<char> {
    match s.address {
        Option::Some(a) => a@,
        Option::None => "tcp://127.0.0.1:6379"@,
    }
}

/// A handle on the store: exactly one of the single-node client template
/// and the cluster client template is populated, the matching normalized
/// descriptors beside it. No network connection is open yet.
pub struct RedisClient {
    /// The endpoint string(s) this handle was built from, for diagnostics.
    pub addresses: String,
    /// The single-node client template, in single mode.
    pub client: Option<redis::Client>,
    /// The cluster client template, in cluster mode.
    pub cluster_client: Option<redis::cluster::ClusterClient>,
    /// The normalized descriptor behind `client`.
    pub descriptor: Option<ConnDescriptor>,
    /// The normalized descriptors behind `cluster_client`, one per piece.
    pub cluster_descriptors: Vec<ConnDescriptor>,
}

/// Which code path an operation must take to materialize the connection.
#[derive(Clone, Copy, Debug, PartialEq, Eq, Structural)]
pub enum ConnectPlan {
    /// Build a managed single-node connection from the client template.
    Single,
    /// Obtain a cluster connection from the cluster client template.
    Cluster,
}

impl RedisClient {
    /// The structural invariant: exactly one of the two templates is
    /// populated, with its descriptor model beside it.
    pub open spec fn wf(&self) -> bool {
        &&& (self.client is Some <==> self.descriptor is Some)
        &&& (self.cluster_client is Some <==> self.client is None)
        &&& (self.client is Some ==> self.cluster_descriptors@.len() == 0)
    }

    /// Whether this handle routes to a cluster.
    pub open spec fn is_cluster(&self) -> bool {
        self.cluster_client is Some
    }

    /// The mode-dispatch decision for the lazy connection setup: single
    /// mode exactly when the single-node template is the populated one.
    pub fn connect_plan(&self) -> (p: ConnectPlan)
        requires
            self.wf(),
        ensures
            p == ConnectPlan::Single <==> !self.is_cluster(),
            p == ConnectPlan::Cluster <==> self.is_cluster(),
    {
        match &self.client {
            Some(_) => ConnectPlan::Single,
            None => ConnectPlan::Cluster,
        }
    }

    /// Render the handle for diagnostics: a function of the endpoint
    /// string(s) alone. No credential is stored outside the descriptors,
    /// and none is rendered.
    pub fn describe(&self) -> (r: String)
        ensures
            r@ == "RedisClient { addresses: \""@ + self.addresses@ + "\" }"@,
    {
        let mut out = "RedisClient { addresses: \"".to_owned();
        out.append(self.addresses.as_str());
        out.append("\" }");
        out
    }
}

/// Everything construction guarantees. Presence of `addresses` selects
/// cluster mode, whatever `address` holds: the pieces are parsed in order,
/// the first rejected piece produces exactly its parse error, and on
/// success the handle is well-formed, in cluster mode, with one descriptor
/// per piece; a driver refusal of the topology surfaces as a driver error.
/// Without `addresses`, the configured or default endpoint is parsed; on
/// acceptance construction cannot fail and yields a well-formed
/// single-mode handle, and on rejection it produces exactly the parse
/// error.
pub open spec fn construction_post(s: RedisSettings, r: Result<RedisClient, Error>) -> bool {
    match s.addresses {
        Option::Some(a) => {
            let pieces = spec_split(a@);
            match first_bad_from(pieces, 0) {
                Some(k) => r is Err && parse_failed(r->Err_0, pieces[k]),
                None => {
                    &&& (cluster_pieces_accepted(pieces) ==> r is Ok)
                    &&& match r {
                        Ok(c) => {
                            &&& c.wf()
                            &&& c.is_cluster()
                            &&& c.addresses@ == a@
                            &&& cluster_descriptors_match(c.cluster_descriptors@, pieces, s)
                        },
                        Err(e) => is_driver_error(e),
                    }
                },
            }
        },
        Option::None => {
            let ep = spec_settings_endpoint(s);
            match spec_parse_endpoint(ep) {
                SpecParse::Endpoint { ep: se } => match r {
                    Ok(c) => {
                        &&& c.wf()
                        &&& !c.is_cluster()
                        &&& c.addresses@ == ep
                        &&& c.descriptor is Some
                        &&& descriptor_matches(c.descriptor->0, se, s)
                    },
                    Err(_) => false,
                },
                _ => r is Err && parse_failed(r->Err_0, ep),
            }
        },
    }
}

impl RedisClient {
    /// Build a client handle from the settings: select the mode, parse the
    /// endpoint(s), and build the matching driver template, without opening
    /// a network connection. `construction_post` states every outcome.
    #[verifier::loop_isolation(false)]
    #[verifier::rlimit(100)]
    #[verifier::spinoff_prover]
    pub fn new(settings: &RedisSettings) -> (r: Result<RedisClient, Error>)
        ensures
            construction_post(*settings, r),
    {
        match &settings.addresses {
            Some(addresses) => {
                let ghost pieces = spec_split(addresses@);
                let parts = split_commas(addresses.as_str());
                let mut descs: Vec<ConnDescriptor> = Vec::new();
                let mut infos: Vec<redis::ConnectionInfo> = Vec::new();
                let mut i: usize = 0;
                while i < parts.len()
                    invariant
                        pieces == spec_split(addresses@),
                        views_of(parts@) == pieces,
                        pieces.len() == parts.len(),
                        i <= parts.len(),
                        descs.len() == i,
                        first_bad_from(pieces, 0) == first_bad_from(pieces, i as int),
                        cluster_descriptors_match(descs@, pieces.take(i as int), *settings),
                        infos.len() == descs.len(),
                        infos_match(infos@, descs@),
                    decreases parts.len() - i,
                {
                    proof {
                        assert(pieces[i as int] == parts@[i as int]@);
                    }
                    let ghost descs_before = descs@;
                    let piece = parts[i].as_str();
                    proof {
                        assert(piece@ == pieces[i as int]);
                    }
                    match parse_endpoint(piece, settings) {
                        Ok(d) => {
                            let ghost gd = d;
                            let ghost infos_before = infos@;
                            let info = descriptor_to_info(&d);
                            let ghost ginfo = info;
                            infos.push(info);
                            descs.push(d);
                            proof {
                                assert(infos@.drop_last() =~= infos_before);
                                assert(infos@.last() == ginfo);
                                assert(info_view(ginfo) == info_view_of_descriptor(gd));
                                assert(first_bad_from(pieces, i as int) == first_bad_from(
                                    pieces,
                                    i as int + 1,
                                ));
                                assert(descs@.drop_last() =~= descs_before);
                                assert(pieces.take(i as int + 1).drop_last() =~= pieces.take(
                                    i as int,
                                ));
                                assert(pieces.take(i as int + 1).last() == pieces[i as int]);
                                assert(descs@.last() == gd);
                                assert(cluster_descriptors_match(
                                    descs@,
                                    pieces.take(i as int + 1),
                                    *settings,
                                ));
                                assert(infos_match(infos@, descs@));
                            }
                        },
                        Err(e) => {
                            proof {
                                assert(parse_failed(e, pieces[i as int]));
                                assert(first_bad_from(pieces, i as int) == Some(i as int));
                            }
                            let out: Result<RedisClient, Error> = Err(e);
                            proof {
                                assert(construction_post(*settings, out));
                            }
                            return out;
                        },
                    }
                    i = i + 1;
                }
                proof {
                    assert(first_bad_from(pieces, i as int) is None);
                    assert(pieces.take(i as int) =~= pieces);
                    assert(cluster_descriptors_match(descs@, pieces, *settings));
                }
                let ghost ginfos = infos@;
                let mut b = cluster_builder_new(infos);
                match &settings.username {
                    Some(u) => {
                        b = cluster_builder_username(b, u.clone());
                    },
                    None => {},
                }
                match &settings.password {
                    Some(p) => {
                        b = cluster_builder_password(b, p.clone());
                    },
                    None => {},
                }
                let ghost gbv = builder_view(b);
                proof {
                    assert(gbv.nodes == ginfos);
                    assert(gbv.nodes_ok);
                    assert(gbv.extras_default);
                }
                match cluster_builder_build(b) {
                    Ok(cc) => {
                        let ghost gdescs = descs@;
                        let c = RedisClient {
                            addresses: addresses.clone(),
                            client: None,
                            cluster_client: Some(cc),
                            descriptor: None,
                            cluster_descriptors: descs,
                        };
                        let out: Result<RedisClient, Error> = Ok(c);
                        proof {
                            assert(out->Ok_0.wf());
                            assert(out->Ok_0.is_cluster());
                            assert(out->Ok_0.addresses@ == addresses@);
                            assert(cluster_descriptors_match(gdescs, pieces, *settings));
                            assert(construction_post(*settings, out));
                        }
                        out
                    },
                    Err(e) => {
                        proof {
                            if cluster_pieces_accepted(pieces) {
                                lemma_accepted_topology(ginfos, descs@, pieces, *settings, gbv);
                                assert(false);
                            }
                        }
                        let out: Result<RedisClient, Error> = Err(format_redis_error(e));
                        proof {
                            assert(construction_post(*settings, out));
                        }
                        out
                    },
                }
            },
            None => {
                let address: String = match &settings.address {
                    Some(a) => a.clone(),
                    None => "tcp://127.0.0.1:6379".to_owned(),
                };
                match parse_endpoint(address.as_str(), settings) {
                    Ok(d) => {
                        let info = descriptor_to_info(&d);
                        let c = client_open(info);
                        let out: Result<RedisClient, Error> = Ok(
                            RedisClient {
                                addresses: address,
                                client: Some(c),
                                cluster_client: None,
                                descriptor: Some(d),
                                cluster_descriptors: Vec::new(),
                            },
                        );
                        proof {
                            assert(construction_post(*settings, out));
                        }
                        out
                    },
                    Err(e) => {
                        let out: Result<RedisClient, Error> = Err(e);
                        proof {
                            assert(construction_post(*settings, out));
                        }
                        out
                    },
                }
            },
        }
    }
}

} // verus!
