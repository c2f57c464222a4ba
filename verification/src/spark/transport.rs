//! How operators are connected to.
use crate::bytes::same_bytes;
use crate::text::{join3, same_text, text_option};
use vstd::prelude::*;
use vstd::string::*;

verus! {

broadcast use vstd::string::group_string_axioms;

/// The host of a URL; nothing where it is no URL or has no host.
pub uninterp spec fn http_host(url: Seq<char>) -> Option<Seq<char>>;

/// `http::Uri::from_str` and `host`: the host, which the text alone decides, or
/// nothing where the text is no URI or has no host.
#[verifier::external_body]
fn uri_host(url: &str) -> (res: Option<String>)
    ensures
        text_option(res) == http_host(url@),
{
    url.parse::<http::Uri>().ok().and_then(|uri| uri.host().map(|host| host.to_string()))
}

pub open spec fn ends_with(s: Seq<char>, suffix: Seq<char>) -> bool {
    s.len() >= suffix.len() && s.skip(s.len() - suffix.len()) == suffix
}

fn has_suffix(s: &str, suffix: &str) -> (res: bool)
    ensures
        res == ends_with(s@, suffix@),
{
    let n: usize = s.unicode_len();
    let m: usize = suffix.unicode_len();
    if n < m {
        return false;
    }
    let tail = s.substring_char(n - m, n);
    assert(tail@ =~= s@.skip(n - m));
    same_text(tail, suffix)
}

/// Whether a host is this machine or a local cluster.
pub open spec fn is_local(host: Seq<char>) -> bool {
    ||| host == "localhost"@
    ||| host == "127.0.0.1"@
    ||| host == "::1"@
    ||| ends_with(host, ".minikube.local"@)
}

/// Whether a host is this machine or a local cluster.
pub fn is_local_host(host: &str) -> (res: bool)
    ensures
        res == is_local(host@),
{
    same_text(host, "localhost") || same_text(host, "127.0.0.1") || same_text(host, "::1")
        || has_suffix(host, ".minikube.local")
}

/// Whether the certificate of a server is left unverified: only that of a local
/// host, and not where a certificate authority is given.
pub fn should_bypass_tls_verification(server_url: &str, ca_cert: Option<&[u8]>) -> (res: bool)
    ensures
        res == (ca_cert is None && match http_host(server_url@) {
            Some(host) => is_local(host),
            None => false,
        }),
        ca_cert is Some ==> !res,
        res ==> http_host(server_url@) is Some,
{
    if ca_cert.is_some() {
        return false;
    }
    match uri_host(server_url) {
        Some(host) => is_local_host(host.as_str()),
        None => false,
    }
}

/// Whether `what` stands in `s` at `i`.
pub open spec fn occurs_at(s: Seq<char>, what: Seq<char>, i: int) -> bool {
    0 <= i && i + what.len() <= s.len() && s.subrange(i, i + what.len()) == what
}

/// The first place at or behind `from` where `what` stands in `s`.
pub open spec fn first_occurrence(s: Seq<char>, what: Seq<char>, from: int) -> Option<int>
    decreases s.len() + 1 - from,
{
    if from < 0 || from + what.len() > s.len() {
        None
    } else if occurs_at(s, what, from) {
        Some(from)
    } else {
        first_occurrence(s, what, from + 1)
    }
}

/// The text with the first `what` replaced.
pub open spec fn replaced_once(s: Seq<char>, what: Seq<char>, by: Seq<char>) -> Seq<char> {
    match first_occurrence(s, what, 0) {
        Some(i) => s.take(i) + by + s.skip(i + what.len()),
        None => s,
    }
}

fn replace_once(s: &str, what: &str, by: &str) -> (res: String)
    requires
        what@.len() > 0,
    ensures
        res@ == replaced_once(s@, what@, by@),
{
    let n: usize = s.unicode_len();
    let m: usize = what.unicode_len();
    let mut i: usize = 0;
    while i < n && m <= n - i
        invariant
            i <= n,
            n == s@.len(),
            m == what@.len(),
            m > 0,
            first_occurrence(s@, what@, 0) == first_occurrence(s@, what@, i as int),
        decreases n - i,
    {
        let here = s.substring_char(i, i + m);
        if same_text(here, what) {
            let head = s.substring_char(0, i);
            let tail = s.substring_char(i + m, n);
            assert(head@ =~= s@.take(i as int));
            assert(tail@ =~= s@.skip(i + m));
            return join3(head, by, tail);
        }
        i = i + 1;
    }
    s.to_string()
}

/// How a server's certificate is verified.
#[derive(Debug)]
pub enum TlsChoice {
    /// It is not verified, and the encryption is set up by the connector
    Bypass,
    /// By a certificate authority of one's own
    CustomCa(Vec<u8>),
    /// By the well-known certificate authorities
    WebpkiRoots,
}

/// How a server is connected to. Durations are in seconds.
#[derive(Debug)]
pub struct EndpointSettings {
    pub url: String,
    pub tls: TlsChoice,
    pub http2_keep_alive_interval_secs: u64,
    pub tcp_keepalive_secs: u64,
    pub keep_alive_timeout_secs: u64,
    pub keep_alive_while_idle: bool,
    pub timeout_secs: Option<u64>,
    pub user_agent: String,
}

/// Whether the settings are the usual ones with that time limit.
pub open spec fn keeps_alive(s: EndpointSettings, timeout_secs: Option<u64>) -> bool {
    &&& s.http2_keep_alive_interval_secs == 5
    &&& s.tcp_keepalive_secs == 5
    &&& s.keep_alive_timeout_secs == 5
    &&& s.keep_alive_while_idle
    &&& s.timeout_secs == timeout_secs
}

impl EndpointSettings {
    /// The settings for an operator. A local operator without a certificate
    /// authority is reached without verification, over a plain URL.
    pub fn for_operator(
        server_url: &str,
        ca_cert: Option<Vec<u8>>,
        user_agent: Option<String>,
        default_user_agent: String,
    ) -> (res: EndpointSettings)
        ensures
            keeps_alive(res, Some(60)),
            res.user_agent == match user_agent {
                Some(t) => t,
                None => default_user_agent,
            },
            match ca_cert {
                Some(c) => res.tls == TlsChoice::CustomCa(c) && res.url@ == server_url@,
                None => if (http_host(server_url@) matches Some(host) && is_local(host)) {
                    res.tls == TlsChoice::Bypass && res.url@ == replaced_once(
                        server_url@,
                        "https://"@,
                        "http://"@,
                    )
                } else {
                    res.tls == TlsChoice::WebpkiRoots && res.url@ == server_url@
                },
            },
            res.tls is Bypass ==> ca_cert is None && http_host(server_url@) is Some,
            res.tls is CustomCa <==> ca_cert is Some,
            res.tls !is Bypass ==> res.url@ == server_url@,
    {
        let bypass = match &ca_cert {
            Some(_) => false,
            None => should_bypass_tls_verification(server_url, None),
        };
        proof {
            reveal_strlit("https://");
        }
        let url = if bypass {
            replace_once(server_url, "https://", "http://")
        } else {
            server_url.to_string()
        };
        let tls = match ca_cert {
            Some(c) => TlsChoice::CustomCa(c),
            None => if bypass {
                TlsChoice::Bypass
            } else {
                TlsChoice::WebpkiRoots
            },
        };
        EndpointSettings {
            url,
            tls,
            http2_keep_alive_interval_secs: 5,
            tcp_keepalive_secs: 5,
            keep_alive_timeout_secs: 5,
            keep_alive_while_idle: true,
            timeout_secs: Some(60),
            user_agent: match user_agent {
                Some(t) => t,
                None => default_user_agent,
            },
        }
    }

    /// The settings for one of the SDK's own services.
    pub fn for_service(server_url: &str, user_agent: &str) -> (res: EndpointSettings)
        ensures
            keeps_alive(res, None),
            res.url@ == server_url@,
            res.tls == TlsChoice::WebpkiRoots,
            res.user_agent@ == user_agent@,
    {
        EndpointSettings {
            url: server_url.to_string(),
            tls: TlsChoice::WebpkiRoots,
            http2_keep_alive_interval_secs: 5,
            tcp_keepalive_secs: 5,
            keep_alive_timeout_secs: 5,
            keep_alive_while_idle: true,
            timeout_secs: None,
            user_agent: user_agent.to_string(),
        }
    }
}

/// Where a connection without verification goes: the URL's host and port, and
/// the usual port of HTTPS where it has none.
pub fn connect_target(host: Option<String>, port: Option<u16>) -> (res: Result<
    (String, u16),
    String,
>)
    ensures
        match (host, res) {
            (Some(h), Ok((target, p))) => target == h && p == match port {
                Some(p) => p,
                None => 443,
            },
            (None, Err(e)) => e@ == "missing host"@,
            _ => false,
        },
{
    match host {
        None => Err("missing host".to_string()),
        Some(h) => {
            let p: u16 = match port {
                Some(p) => p,
                None => 443,
            };
            Ok((h, p))
        },
    }
}

/// The error where a host is no name that a certificate can bear.
pub fn invalid_host(host: &str, error: &str) -> (res: String)
    ensures
        res@ == "invalid host "@ + host@ + ": "@ + error@,
{
    "invalid host ".to_string().concat(host).concat(": ").concat(error)
}

/// Whether a connection speaks HTTP/2, which the protocol needs.
pub fn check_protocol(protocol: Option<&[u8]>) -> (res: Result<(), String>)
    ensures
        match res {
            Ok(_) => protocol is Some && protocol->0@ == seq![104u8, 50u8],
            Err(e) => (protocol is None || protocol->0@ != seq![104u8, 50u8]) && e@
                == "gRPC TLS handshake did not negotiate h2"@,
        },
{
    let h2: Vec<u8> = vec![104, 50];
    assert(h2@ =~= seq![104u8, 50u8]);
    if let Some(p) = protocol {
        if same_bytes(p, h2.as_slice()) {
            return Ok(());
        }
    }
    Err("gRPC TLS handshake did not negotiate h2".to_string())
}

/// An operator as the configuration names it.
#[derive(Debug)]
pub struct OperatorConfig {
    pub address: String,
    pub ca_cert: Option<Vec<u8>>,
    pub user_agent: Option<String>,
}

/// The connections that are open, by the operator's address.
pub struct DefaultConnectionManager<T> {
    connections: Vec<(String, T)>,
}

pub open spec fn folded_connections<T>(connections: Seq<(String, T)>) -> Map<Seq<char>, T>
    decreases connections.len(),
{
    if connections.len() == 0 {
        Map::empty()
    } else {
        folded_connections(connections.drop_last()).insert(
            connections.last().0@,
            connections.last().1,
        )
    }
}

impl<T> View for DefaultConnectionManager<T> {
    type V = Map<Seq<char>, T>;

    closed spec fn view(&self) -> Map<Seq<char>, T> {
        folded_connections(self.connections@)
    }
}

/// A connection that is kept is the one that its operator's next request uses,
/// whichever settings the operator is named with then, and the connections of
/// other operators stay as they are.
pub proof fn connections_are_kept<T>(
    connections: DefaultConnectionManager<T>,
    after: DefaultConnectionManager<T>,
    operator: OperatorConfig,
    transport: T,
    next: OperatorConfig,
)
    requires
        after@ == connections@.insert(operator.address@, transport),
    ensures
        next.address@ == operator.address@ ==> after@.contains_key(next.address@)
            && after@[next.address@] == transport,
        next.address@ != operator.address@ ==> {
            &&& after@.contains_key(next.address@) == connections@.contains_key(next.address@)
            &&& connections@.contains_key(next.address@) ==> after@[next.address@]
                == connections@[next.address@]
        },
{
}

impl<T> DefaultConnectionManager<T> {
    /// No connections.
    pub fn new() -> (res: DefaultConnectionManager<T>)
        ensures
            res@ == Map::<Seq<char>, T>::empty(),
    {
        DefaultConnectionManager { connections: Vec::new() }
    }

    /// The connection to an operator, if there is one. An operator is connected to
    /// once: the connection that is there is used again.
    pub fn get_transport(&self, operator: &OperatorConfig) -> (res: Option<&T>)
        ensures
            match res {
                Some(t) => self@.contains_key(operator.address@) && *t == self@[operator.address@],
                None => !self@.contains_key(operator.address@),
            },
    {
        let mut i: usize = self.connections.len();
        assert(self.connections@.take(i as int) =~= self.connections@);
        while i > 0
            invariant
                i <= self.connections@.len(),
                folded_connections(self.connections@).contains_key(operator.address@)
                    == folded_connections(self.connections@.take(i as int)).contains_key(
                    operator.address@,
                ),
                folded_connections(self.connections@).contains_key(operator.address@)
                    ==> folded_connections(self.connections@)[operator.address@]
                    == folded_connections(self.connections@.take(i as int))[operator.address@],
            decreases i,
        {
            assert(self.connections@.take(i as int).drop_last() =~= self.connections@.take(i - 1));
            i = i - 1;
            if self.connections[i].0 == operator.address {
                return Some(&self.connections[i].1);
            }
        }
        None
    }

    /// Keeps a new connection to an operator.
    pub fn remember(&mut self, operator: &OperatorConfig, transport: T)
        ensures
            final(self)@ == old(self)@.insert(operator.address@, transport),
    {
        let ghost before = self.connections@;
        self.connections.push((operator.address.clone(), transport));
        assert(self.connections@.drop_last() =~= before);
    }
}

/// A host is local exactly where it is one of three names of this machine, or some
/// name below `minikube.local`.
pub proof fn local_hosts_are_these(host: Seq<char>, name: Seq<char>)
    ensures
        is_local("localhost"@) && is_local("127.0.0.1"@) && is_local("::1"@),
        is_local(name + ".minikube.local"@),
        is_local(host) ==> host == "localhost"@ || host == "127.0.0.1"@ || host == "::1"@ || host
            == host.take(host.len() - ".minikube.local"@.len()) + ".minikube.local"@,
{
    let suffix = ".minikube.local"@;
    let below = name + suffix;
    assert(below.skip(below.len() - suffix.len()) =~= suffix);
    if ends_with(host, suffix) {
        assert(host =~= host.take(host.len() - suffix.len()) + host.skip(
            host.len() - suffix.len(),
        ));
    }
}

/// An encrypted URL becomes a plain one: only its scheme changes. A text without that
/// scheme stays as it is.
pub proof fn only_the_scheme_is_replaced(rest: Seq<char>, s: Seq<char>)
    ensures
        replaced_once("https://"@ + rest, "https://"@, "http://"@) == "http://"@ + rest,
        (forall|i: int| !occurs_at(s, "https://"@, i)) ==> replaced_once(
            s,
            "https://"@,
            "http://"@,
        ) == s,
{
    reveal_strlit("https://");
    reveal_strlit("http://");
    let url = "https://"@ + rest;
    assert(url.subrange(0, 8) =~= "https://"@);
    assert(occurs_at(url, "https://"@, 0));
    assert(url.take(0) + "http://"@ + url.skip(8) =~= "http://"@ + rest);
    lemma_first_occurrence(s, "https://"@, 0);
}

proof fn lemma_first_occurrence(s: Seq<char>, what: Seq<char>, from: int)
    requires
        from >= 0,
    ensures
        first_occurrence(s, what, from) matches Some(i) ==> occurs_at(s, what, i),
    decreases s.len() + 1 - from,
{
    if from + what.len() <= s.len() && !occurs_at(s, what, from) {
        lemma_first_occurrence(s, what, from + 1);
    }
}

/// Connections are kept alive every five seconds.
pub proof fn connections_are_kept_alive(s: EndpointSettings, timeout_secs: Option<u64>)
    requires
        keeps_alive(s, timeout_secs),
    ensures
        s.http2_keep_alive_interval_secs == 5,
        s.tcp_keepalive_secs == 5,
        s.keep_alive_timeout_secs == 5,
        s.keep_alive_while_idle,
        s.timeout_secs == timeout_secs,
{
}

/// Of the connections kept for an operator, the last counts.
pub proof fn later_connections_count<T>(connections: Seq<(String, T)>, address: String, t: T)
    ensures
        folded_connections(Seq::<(String, T)>::empty()) == Map::<Seq<char>, T>::empty(),
        folded_connections(connections.push((address, t))) == folded_connections(
            connections,
        ).insert(address@, t),
{
    assert(connections.push((address, t)).drop_last() =~= connections);
}

} // verus!
