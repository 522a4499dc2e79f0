//! Finding the server, pairing with it, and holding on to the connection.

use vstd::prelude::*;
use vstd::string::StringExecFns;

use crate::config::{Config, ConfigView};
use crate::credentials::Credentials;
use crate::identity::{is_random_id, new_agent_id};
use crate::protocol::optional_text;
use crate::text::{append_decimal, contains, decimal, equals, occurs_in, trim_end_matches, without_trailing};
use crate::web::{retarget, scheme_of, url_retargeted, url_scheme, URL_TEXT_LIMIT};

verus! {

/// An address that a server was found at.
#[derive(Debug)]
pub struct Address {
    pub text: String,
    pub loopback: bool,
}

/// The URL of a server at `address` and `port`.
pub open spec fn server_at(address: Seq<char>, port: u16) -> Seq<char> {
    "http://"@ + address + ":"@ + decimal(port as nat)
}

/// The first address that other machines can reach.
pub open spec fn reachable(addresses: Seq<Address>) -> Option<Seq<char>>
    decreases addresses.len(),
{
    if addresses.len() == 0 {
        None
    } else if !addresses[0].loopback {
        Some(addresses[0].text@)
    } else {
        reachable(addresses.drop_first())
    }
}

/// The servers found so far, each once.
#[derive(Debug)]
pub struct Discovery {
    servers: Vec<String>,
}

impl View for Discovery {
    type V = Seq<Seq<char>>;

    closed spec fn view(&self) -> Seq<Seq<char>> {
        self.servers@.map_values(|server: String| server@)
    }
}

/// The servers once the one with `addresses` and `port` was found.
pub open spec fn servers_with(
    servers: Seq<Seq<char>>,
    addresses: Seq<Address>,
    port: u16,
) -> Seq<Seq<char>> {
    match reachable(addresses) {
        Some(address) => if servers.contains(server_at(address, port)) {
            servers
        } else {
            servers.push(server_at(address, port))
        },
        None => servers,
    }
}

/// Why no server was chosen.
#[derive(Debug, Clone, Copy, PartialEq, Eq, Structural)]
pub enum DiscoveryError {
    NoServer,
    ManyServers,
}

impl DiscoveryError {
    /// The error in words.
    pub fn to_string(&self) -> (text: String)
        ensures
            text@ == match *self {
                DiscoveryError::NoServer => "no _kma._tcp Server discovered"@,
                DiscoveryError::ManyServers => {
                    "multiple _kma._tcp Servers discovered; configure server_url explicitly"@
                },
            },
    {
        match self {
            DiscoveryError::NoServer => "no _kma._tcp Server discovered".to_string(),
            DiscoveryError::ManyServers => {
                "multiple _kma._tcp Servers discovered; configure server_url explicitly".to_string()
            },
        }
    }
}

/// The server to connect to: the configured one, else the only one that was found.
pub open spec fn chosen_server(config: ConfigView, servers: Seq<Seq<char>>) -> Result<
    Seq<char>,
    DiscoveryError,
> {
    match config.server_url {
        Some(url) => Ok(without_trailing(url, '/')),
        None => if servers.len() == 0 {
            Err(DiscoveryError::NoServer)
        } else if servers.len() == 1 {
            Ok(servers[0])
        } else {
            Err(DiscoveryError::ManyServers)
        },
    }
}

impl Discovery {
    /// No server was found yet.
    pub fn new() -> (discovery: Self)
        ensures
            discovery@ == Seq::<Seq<char>>::empty(),
    {
        let discovery = Discovery { servers: Vec::new() };
        assert(discovery@ =~= Seq::empty());
        discovery
    }

    /// Whether the server was found before.
    fn knows(&self, server: &String) -> (known: bool)
        ensures
            known == self@.contains(server@),
    {
        let mut i: usize = 0;
        while i < self.servers.len()
            invariant
                i <= self.servers@.len(),
                forall|j: int| 0 <= j < i ==> self@[j] != server@,
            decreases self.servers@.len() - i,
        {
            if self.servers[i] == *server {
                assert(self@[i as int] == server@);
                return true;
            }
            i = i + 1;
        }
        false
    }

    /// A server was found at `addresses` and `port`. It counts where one of the
    /// addresses can be reached from other machines.
    pub fn found(&mut self, addresses: &Vec<Address>, port: u16)
        ensures
            final(self)@ == servers_with(old(self)@, addresses@, port),
    {
        let mut i: usize = 0;
        assert(addresses@.skip(0) =~= addresses@);
        while i < addresses.len() && addresses[i].loopback
            invariant
                i <= addresses@.len(),
                reachable(addresses@.skip(i as int)) == reachable(addresses@),
            decreases addresses@.len() - i,
        {
            assert(addresses@.skip(i as int).drop_first() =~= addresses@.skip(i + 1));
            i = i + 1;
        }
        if i < addresses.len() {
            let mut server: String = "http://".to_string();
            server.append(addresses[i].text.as_str());
            server.append(":");
            append_decimal(&mut server, port as u64);
            if !self.knows(&server) {
                let ghost before = self@;
                self.servers.push(server);
                assert(self@ =~= before.push(server@));
            }
        }
    }
}

/// The server to connect to: the configured one, else the only one that was found.
pub fn resolve_server(config: &Config, discovery: &Discovery) -> (server: Result<
    String,
    DiscoveryError,
>)
    ensures
        match server {
            Ok(server) => chosen_server(config@, discovery@) == Ok::<Seq<char>, DiscoveryError>(
                server@,
            ),
            Err(error) => chosen_server(config@, discovery@) == Err::<Seq<char>, DiscoveryError>(
                error,
            ),
        },
{
    if let Some(url) = &config.server_url {
        return Ok(trim_end_matches(url.as_str(), '/').to_string());
    }
    let count: usize = discovery.servers.len();
    if count == 0 {
        Err(DiscoveryError::NoServer)
    } else if count == 1 {
        assert(discovery@[0] == discovery.servers@[0]@);
        Ok(discovery.servers[0].clone())
    } else {
        Err(DiscoveryError::ManyServers)
    }
}

/// A server that is found twice counts once, and a configured server makes
/// discovery needless.
pub proof fn law_repeated_finds_count_once(
    servers: Seq<Seq<char>>,
    addresses: Seq<Address>,
    port: u16,
    config: ConfigView,
)
    requires
        servers.no_duplicates(),
    ensures
        servers_with(servers, addresses, port).no_duplicates(),
        servers_with(servers_with(servers, addresses, port), addresses, port) == servers_with(
            servers,
            addresses,
            port,
        ),
        config.server_url is Some ==> chosen_server(config, servers_with(servers, addresses, port))
            == chosen_server(config, servers),
{
    let more = servers_with(servers, addresses, port);
    if let Some(address) = reachable(addresses) {
        let server = server_at(address, port);
        if !servers.contains(server) {
            assert(more.last() == server);
            assert forall|i: int, j: int| 0 <= i < more.len() && 0 <= j < more.len() && i != j implies more[i]
                != more[j] by {
                if i == servers.len() {
                    assert(servers[j] != server);
                } else if j == servers.len() {
                    assert(servers[i] != server);
                }
            }
        }
    }
}

/// Which server is chosen does not depend on which of two was found first.
pub proof fn law_order_of_finds_does_not_matter(
    config: ConfigView,
    servers: Seq<Seq<char>>,
    one: Seq<Address>,
    one_port: u16,
    other: Seq<Address>,
    other_port: u16,
)
    ensures
        chosen_server(
            config,
            servers_with(servers_with(servers, one, one_port), other, other_port),
        ) == chosen_server(
            config,
            servers_with(servers_with(servers, other, other_port), one, one_port),
        ),
{
    let first = servers_with(servers, one, one_port);
    let second = servers_with(servers, other, other_port);
    if let (Some(a), Some(b)) = (reachable(one), reachable(other)) {
        let here = server_at(a, one_port);
        let there = server_at(b, other_port);
        if !servers.contains(here) {
            assert(first.last() == here);
            assert(forall|i: int| 0 <= i < servers.len() ==> first[i] == servers[i]);
        }
        if !servers.contains(there) {
            assert(second.last() == there);
            assert(forall|i: int| 0 <= i < servers.len() ==> second[i] == servers[i]);
        }
        assert(first.contains(there) <==> servers.contains(there) || here == there) by {
            if servers.contains(there) {
                let i = choose|i: int| 0 <= i < servers.len() && servers[i] == there;
                assert(first[i] == there);
            }
            if here == there && !servers.contains(here) {
                assert(first[servers.len() as int] == there);
            }
        }
        assert(second.contains(here) <==> servers.contains(here) || here == there) by {
            if servers.contains(here) {
                let i = choose|i: int| 0 <= i < servers.len() && servers[i] == here;
                assert(second[i] == here);
            }
            if here == there && !servers.contains(there) {
                assert(second[servers.len() as int] == here);
            }
        }
    }
}

/// Why the URL of the server cannot be connected to.
#[derive(Debug)]
pub enum ConnectError {
    /// It is no URL, for the reason given.
    InvalidUrl(String),
    /// It is a URL that no socket can have.
    InvalidScheme,
}

impl View for ConnectError {
    type V = Seq<char>;

    /// The error in words.
    open spec fn view(&self) -> Seq<char> {
        match *self {
            ConnectError::InvalidUrl(reason) => reason@,
            ConnectError::InvalidScheme => "invalid Server URL scheme"@,
        }
    }
}

impl ConnectError {
    /// The error in words.
    pub fn to_string(&self) -> (text: String)
        ensures
            text@ == self@,
    {
        match self {
            ConnectError::InvalidUrl(reason) => reason.clone(),
            ConnectError::InvalidScheme => "invalid Server URL scheme".to_string(),
        }
    }
}

/// The scheme of the socket of a server with the given scheme: secure where the
/// server is.
pub open spec fn secure_like(scheme: Seq<char>) -> Seq<char> {
    if scheme == "https"@ {
        "wss"@
    } else {
        "ws"@
    }
}

/// The scheme of the socket of a server with the given scheme.
pub fn socket_scheme(scheme: &str) -> (socket: &'static str)
    ensures
        socket@ == secure_like(scheme@),
{
    if equals(scheme, "https") {
        "wss"
    } else {
        "ws"
    }
}

/// The URL of the socket of the server at `server_url`.
pub fn connect_url(server_url: &str) -> (url: Result<String, ConnectError>)
    requires
        server_url@.len() <= URL_TEXT_LIMIT,
    ensures
        match url_scheme(server_url@) {
            Err(reason) => url matches Err(ConnectError::InvalidUrl(found)) && found@ == reason,
            Ok(scheme) => match url_retargeted(
                server_url@,
                secure_like(scheme),
                "/api/v1/audio-agent/connect"@,
            ) {
                Some(target) => url matches Ok(url) && url@ == target,
                None => url matches Err(ConnectError::InvalidScheme),
            },
        },
{
    let scheme = match scheme_of(server_url) {
        Ok(scheme) => scheme,
        Err(reason) => {
            return Err(ConnectError::InvalidUrl(reason));
        },
    };
    proof {
        reveal_strlit("ws");
        reveal_strlit("wss");
        reveal_strlit("/api/v1/audio-agent/connect");
    }
    match retarget(server_url, socket_scheme(scheme.as_str()), "/api/v1/audio-agent/connect") {
        Some(url) => Ok(url),
        None => Err(ConnectError::InvalidScheme),
    }
}

/// How a connection ended.
#[derive(Debug, Clone, Copy, PartialEq, Eq, Structural)]
pub enum Ending {
    /// The server no longer knows the credentials.
    Revoked,
    /// Anything else.
    Lost,
}

/// How a connection ended that the server refused with an HTTP status.
pub fn refused(status: u16) -> (ending: Ending)
    ensures
        ending == if status == 401 || status == 403 {
            Ending::Revoked
        } else {
            Ending::Lost
        },
{
    if status == 401 || status == 403 {
        Ending::Revoked
    } else {
        Ending::Lost
    }
}

/// How a connection ended that the server closed, for the reason given where there
/// is one.
pub fn closed(reason: &Option<String>) -> (ending: Ending)
    ensures
        ending == match optional_text(*reason) {
            Some(reason) if occurs_in(reason, "revoked"@) => Ending::Revoked,
            _ => Ending::Lost,
        },
{
    match reason {
        Some(reason) => if contains(reason.as_str(), "revoked") {
            Ending::Revoked
        } else {
            Ending::Lost
        },
        None => Ending::Lost,
    }
}

/// How long a connection may be lost before playback stops, in nanoseconds.
pub const GRACE_NS: u64 = 3_000_000_000;

/// How long to wait before the next connection, in milliseconds.
pub const RETRY_DELAY_MS: u64 = 500;

/// What is to be done after a connection ended.
#[derive(Debug, Clone, Copy, PartialEq, Eq, Structural)]
pub enum Next {
    /// Playback is stopped and the take is kept, the credentials are removed, and the
    /// agent has to be paired again.
    PairAgain,
    /// Another connection is tried after a while. Where `stop` holds, playback is
    /// stopped and the take is kept before that.
    Reconnect { stop: bool },
}

/// Watches over the connections that follow each other.
#[derive(Debug)]
pub struct Supervisor {
    disconnected_since_ns: Option<u64>,
    interrupted: bool,
}

/// Since when there is no connection, and whether playback was stopped for it.
#[verifier::ext_equal]
pub struct SupervisorView {
    pub disconnected_since_ns: Option<u64>,
    pub interrupted: bool,
}

impl View for Supervisor {
    type V = SupervisorView;

    closed spec fn view(&self) -> SupervisorView {
        SupervisorView {
            disconnected_since_ns: self.disconnected_since_ns,
            interrupted: self.interrupted,
        }
    }
}

impl SupervisorView {
    /// There was no connection yet.
    pub open spec fn initial() -> Self {
        SupervisorView { disconnected_since_ns: None, interrupted: false }
    }

    /// Since when there is no connection, where one ended or could not be had at
    /// `now_ns`.
    pub open spec fn since(self, established: bool, now_ns: u64) -> u64 {
        match self.disconnected_since_ns {
            Some(since_ns) if !established => since_ns,
            _ => now_ns,
        }
    }

    /// Playback is to be stopped and the take to be kept: the grace is over, and it was
    /// not done yet.
    pub open spec fn expires(self, established: bool, now_ns: u64) -> bool {
        &&& now_ns - self.since(established, now_ns) >= GRACE_NS
        &&& !(self.interrupted && !established)
    }

    /// The supervisor once a connection ended that had stood where `established` holds.
    pub open spec fn lost(self, established: bool, now_ns: u64) -> Self {
        SupervisorView {
            disconnected_since_ns: Some(self.since(established, now_ns)),
            interrupted: (self.interrupted && !established) || self.expires(established, now_ns),
        }
    }
}

impl Supervisor {
    /// There was no connection yet.
    pub fn new() -> (supervisor: Self)
        ensures
            supervisor@ == SupervisorView::initial(),
    {
        Supervisor { disconnected_since_ns: None, interrupted: false }
    }

    /// A connection ended or could not be had at `now_ns`; it had stood where
    /// `established` holds.
    pub fn on_ended(&mut self, ending: Ending, established: bool, now_ns: u64) -> (next: Next)
        ensures
            match ending {
                Ending::Revoked => next == Next::PairAgain && final(self)@ == old(self)@,
                Ending::Lost => {
                    &&& next == Next::Reconnect { stop: old(self)@.expires(established, now_ns) }
                    &&& final(self)@ == old(self)@.lost(established, now_ns)
                },
            },
    {
        if ending == Ending::Revoked {
            return Next::PairAgain;
        }
        if established {
            self.disconnected_since_ns = Some(now_ns);
            self.interrupted = false;
        }
        let since_ns: u64 = match self.disconnected_since_ns {
            Some(since_ns) => since_ns,
            None => now_ns,
        };
        self.disconnected_since_ns = Some(since_ns);
        let expired = now_ns.saturating_sub(since_ns) >= GRACE_NS && !self.interrupted;
        if expired {
            self.interrupted = true;
        }
        Next::Reconnect { stop: expired }
    }
}

/// The supervisor after connections that were tried and not had, at the given times.
pub open spec fn after_failures(supervisor: SupervisorView, times_ns: Seq<u64>) -> SupervisorView
    decreases times_ns.len(),
{
    if times_ns.len() == 0 {
        supervisor
    } else {
        after_failures(supervisor, times_ns.drop_last()).lost(false, times_ns.last())
    }
}

/// While there is no connection, playback is stopped once at most.
pub proof fn law_grace_expires_once(
    supervisor: SupervisorView,
    now_ns: u64,
    later_ns: Seq<u64>,
    last_ns: u64,
)
    requires
        supervisor.expires(false, now_ns),
    ensures
        !after_failures(supervisor.lost(false, now_ns), later_ns).expires(false, last_ns),
{
    lemma_stays_interrupted(supervisor.lost(false, now_ns), later_ns);
}

proof fn lemma_stays_interrupted(supervisor: SupervisorView, times_ns: Seq<u64>)
    requires
        supervisor.interrupted,
    ensures
        after_failures(supervisor, times_ns).interrupted,
    decreases times_ns.len(),
{
    if times_ns.len() > 0 {
        lemma_stays_interrupted(supervisor, times_ns.drop_last());
    }
}

/// A connection that had stood starts the grace anew: playback goes on when it is
/// lost, and is stopped by the first attempt that fails once the grace is over.
pub proof fn law_grace_runs_from_the_lost_connection(
    supervisor: SupervisorView,
    lost_ns: u64,
    earlier_ns: Seq<u64>,
    now_ns: u64,
)
    requires
        forall|i: int|
            0 <= i < earlier_ns.len() ==> (#[trigger] earlier_ns[i]) < lost_ns + GRACE_NS,
    ensures
        !supervisor.expires(true, lost_ns),
        after_failures(supervisor.lost(true, lost_ns), earlier_ns).expires(false, now_ns) <==> now_ns
            >= lost_ns + GRACE_NS,
{
    lemma_grace_waits(supervisor.lost(true, lost_ns), lost_ns, earlier_ns);
}

proof fn lemma_grace_waits(supervisor: SupervisorView, lost_ns: u64, times_ns: Seq<u64>)
    requires
        supervisor == (SupervisorView {
            disconnected_since_ns: Some(lost_ns),
            interrupted: false,
        }),
        forall|i: int| 0 <= i < times_ns.len() ==> (#[trigger] times_ns[i]) < lost_ns + GRACE_NS,
    ensures
        after_failures(supervisor, times_ns) == supervisor,
    decreases times_ns.len(),
{
    if times_ns.len() > 0 {
        let fewer = times_ns.drop_last();
        assert forall|i: int| 0 <= i < fewer.len() implies (#[trigger] fewer[i]) < lost_ns
            + GRACE_NS by {
            assert(fewer[i] == times_ns[i]);
        }
        lemma_grace_waits(supervisor, lost_ns, fewer);
        assert(times_ns[times_ns.len() - 1] < lost_ns + GRACE_NS);
    }
}

/// What the agent asks a server to be paired with.
#[derive(Debug)]
pub struct PairingRequest {
    pub agent_id: u128,
    pub agent_name: String,
    pub room_id: String,
}

impl PairingRequest {
    /// The request of an agent that has no id yet: its id is new, and by chance.
    pub fn new(config: &Config) -> (request: Self)
        ensures
            is_random_id(request.agent_id),
            request.room_id@ == config@.room_id,
            config@.agent_name matches Some(name) ==> request.agent_name@ == name,
    {
        let agent_id: u128 = new_agent_id();
        PairingRequest::with_id(config, agent_id, config.agent_name())
    }

    /// The request of the agent `agent_id` with the given name.
    pub fn with_id(config: &Config, agent_id: u128, agent_name: String) -> (request: Self)
        ensures
            request.agent_id == agent_id,
            request.agent_name@ == agent_name@,
            request.room_id@ == config@.room_id,
    {
        PairingRequest { agent_id, agent_name, room_id: config.room_id.clone() }
    }
}

/// Where a pairing is asked for.
pub fn pairing_url(server_url: &str) -> (url: String)
    ensures
        url@ == server_url@ + "/api/v1/audio-agent/pairing"@,
{
    let mut url: String = server_url.to_string();
    url.append("/api/v1/audio-agent/pairing");
    url
}

/// Where a pairing is claimed.
pub fn claim_url(server_url: &str, pairing_id: &str) -> (url: String)
    ensures
        url@ == server_url@ + "/api/v1/audio-agent/pairing/"@ + pairing_id@ + "/claim"@,
{
    let mut url: String = server_url.to_string();
    url.append("/api/v1/audio-agent/pairing/");
    url.append(pairing_id);
    url.append("/claim");
    url
}

/// What the server answers when a pairing is asked for.
#[derive(Debug)]
pub struct PairingCreated {
    pub id: String,
    pub code: String,
    pub expires_at: String,
}

/// A pairing that waits for its approval.
#[derive(Debug)]
pub struct PairingState {
    pub agent_id: u128,
    pub pairing_id: String,
    pub code: String,
    pub expires_at: String,
}

impl PairingState {
    /// The pairing that the server created for the agent.
    pub fn created(agent_id: u128, created: PairingCreated) -> (state: Self)
        ensures
            state == (PairingState {
                agent_id,
                pairing_id: created.id,
                code: created.code,
                expires_at: created.expires_at,
            }),
    {
        PairingState {
            agent_id,
            pairing_id: created.id,
            code: created.code,
            expires_at: created.expires_at,
        }
    }
}

/// What the server answers when a pairing is claimed.
#[derive(Debug)]
pub struct PairingClaimed {
    pub agent_id: Option<u128>,
    pub room_id: Option<String>,
    pub token: Option<String>,
    pub status: Option<String>,
}

/// What becomes of a claim with the given HTTP status.
#[derive(Debug, Clone, Copy, PartialEq, Eq, Structural)]
pub enum ClaimStatus {
    /// The answer has to be read.
    Answered,
    /// The pairing has failed.
    Failed,
}

/// How long to wait before a pairing is claimed again, in seconds.
pub const CLAIM_DELAY_SECONDS: u64 = 2;

/// What becomes of a claim with the given HTTP status.
pub fn claim_status(status: u16) -> (claim: ClaimStatus)
    ensures
        claim == if 200 <= status < 300 {
            ClaimStatus::Answered
        } else {
            ClaimStatus::Failed
        },
{
    if 200 <= status && status < 300 {
        ClaimStatus::Answered
    } else {
        ClaimStatus::Failed
    }
}

/// What the answer to a claim says.
#[derive(Debug)]
pub enum Claim {
    /// The agent is paired.
    Paired(Credentials),
    /// The claim is to be made again later.
    Pending,
    /// The answer makes no sense.
    Invalid,
}

/// The credentials in the answer to a claim, where they are complete.
pub open spec fn claimed_credentials(claimed: PairingClaimed) -> Option<Credentials> {
    match (claimed.agent_id, claimed.room_id, claimed.token) {
        (Some(agent_id), Some(room_id), Some(token)) => Some(
            Credentials { agent_id, room_id, token },
        ),
        _ => None,
    }
}

/// What the answer to a claim says.
pub fn judge_claim(claimed: PairingClaimed) -> (claim: Claim)
    ensures
        match claimed_credentials(claimed) {
            Some(credentials) => claim == Claim::Paired(credentials),
            None => if optional_text(claimed.status) == Some("pending"@) {
                claim is Pending
            } else {
                claim is Invalid
            },
        },
{
    let pending = match &claimed.status {
        Some(status) => equals(status.as_str(), "pending"),
        None => false,
    };
    match (claimed.agent_id, claimed.room_id, claimed.token) {
        (Some(agent_id), Some(room_id), Some(token)) => {
            Claim::Paired(Credentials { agent_id, room_id, token })
        },
        _ => if pending {
            Claim::Pending
        } else {
            Claim::Invalid
        },
    }
}

/// Why an agent could not be paired.
#[derive(Debug, Clone, Copy, PartialEq, Eq, Structural)]
pub enum PairingFailure {
    /// The answer to the claim makes no sense.
    InvalidClaim,
    /// The claim was refused with this HTTP status.
    Refused(u16),
}

/// How far the pairing of an agent has come: what is to be done next, or how it
/// ended.
#[derive(Debug)]
pub enum Pairing {
    /// The stored credentials are to be loaded.
    Load,
    /// The stored pairing is to be read.
    Read,
    /// A pairing is to be asked for.
    Create,
    /// The pairing is to be stored.
    Keep(PairingState),
    /// The pairing is to be claimed.
    Claim(PairingState),
    /// The pairing is to be claimed again after a while.
    Wait(PairingState),
    /// The credentials are to be stored.
    Store(Credentials),
    /// The stored pairing is to be removed.
    Remove(Credentials),
    /// The agent is paired.
    Paired(Credentials),
    /// The agent cannot be paired.
    Failed(PairingFailure),
}

/// How a step of the pairing turned out. A step that fails for another reason ends
/// the pairing.
#[derive(Debug)]
pub enum PairingReply {
    /// It is done.
    Done,
    /// The credentials, where some are stored.
    Loaded(Option<Credentials>),
    /// The pairing, where one is stored.
    Found(Option<PairingState>),
    /// The pairing that the server created for the agent.
    Created { agent_id: u128, created: PairingCreated },
    /// The answer to the claim.
    Claimed(PairingClaimed),
    /// The claim was refused with this HTTP status.
    Refused(u16),
}

impl Pairing {
    /// The pairing after `reply`. A reply that answers nothing changes nothing.
    pub open spec fn after(self, reply: PairingReply) -> Self {
        match (self, reply) {
            (Pairing::Load, PairingReply::Loaded(Some(credentials))) => Pairing::Paired(
                credentials,
            ),
            (Pairing::Load, PairingReply::Loaded(None)) => Pairing::Read,
            (Pairing::Read, PairingReply::Found(Some(state))) => Pairing::Claim(state),
            (Pairing::Read, PairingReply::Found(None)) => Pairing::Create,
            (Pairing::Create, PairingReply::Created { agent_id, created }) => Pairing::Keep(
                PairingState {
                    agent_id,
                    pairing_id: created.id,
                    code: created.code,
                    expires_at: created.expires_at,
                },
            ),
            (Pairing::Keep(state), PairingReply::Done) => Pairing::Claim(state),
            (Pairing::Claim(state), PairingReply::Claimed(claimed)) => match claimed_credentials(
                claimed,
            ) {
                Some(credentials) => Pairing::Store(credentials),
                None => if optional_text(claimed.status) == Some("pending"@) {
                    Pairing::Wait(state)
                } else {
                    Pairing::Failed(PairingFailure::InvalidClaim)
                },
            },
            (Pairing::Claim(_), PairingReply::Refused(status)) => Pairing::Failed(
                PairingFailure::Refused(status),
            ),
            (Pairing::Wait(state), PairingReply::Done) => Pairing::Claim(state),
            (Pairing::Store(credentials), PairingReply::Done) => Pairing::Remove(credentials),
            (Pairing::Remove(credentials), PairingReply::Done) => Pairing::Paired(credentials),
            _ => self,
        }
    }

    /// The first step of a pairing.
    pub fn begin() -> (pairing: Self)
        ensures
            pairing == Pairing::Load,
    {
        Pairing::Load
    }

    /// The step after `reply`.
    pub fn resume(self, reply: PairingReply) -> (next: Self)
        ensures
            next == self.after(reply),
    {
        match (self, reply) {
            (Pairing::Load, PairingReply::Loaded(Some(credentials))) => Pairing::Paired(
                credentials,
            ),
            (Pairing::Load, PairingReply::Loaded(None)) => Pairing::Read,
            (Pairing::Read, PairingReply::Found(Some(state))) => Pairing::Claim(state),
            (Pairing::Read, PairingReply::Found(None)) => Pairing::Create,
            (Pairing::Create, PairingReply::Created { agent_id, created }) => {
                Pairing::Keep(PairingState::created(agent_id, created))
            },
            (Pairing::Keep(state), PairingReply::Done) => Pairing::Claim(state),
            (Pairing::Claim(state), PairingReply::Claimed(claimed)) => match judge_claim(claimed) {
                Claim::Paired(credentials) => Pairing::Store(credentials),
                Claim::Pending => Pairing::Wait(state),
                Claim::Invalid => Pairing::Failed(PairingFailure::InvalidClaim),
            },
            (Pairing::Claim(_), PairingReply::Refused(status)) => {
                Pairing::Failed(PairingFailure::Refused(status))
            },
            (Pairing::Wait(state), PairingReply::Done) => Pairing::Claim(state),
            (Pairing::Store(credentials), PairingReply::Done) => Pairing::Remove(credentials),
            (Pairing::Remove(credentials), PairingReply::Done) => Pairing::Paired(credentials),
            (pairing, _) => pairing,
        }
    }
}

/// A pairing that was once stored is claimed as it is, however often the agent asks
/// and however often it is started: no other one is created.
pub proof fn law_stored_pairing_is_claimed(state: PairingState, claimed: PairingClaimed)
    requires
        claimed_credentials(claimed) is None,
        optional_text(claimed.status) == Some("pending"@),
    ensures
        Pairing::Load.after(PairingReply::Loaded(None)).after(PairingReply::Found(Some(state)))
            == Pairing::Claim(state),
        Pairing::Keep(state).after(PairingReply::Done) == Pairing::Claim(state),
        Pairing::Claim(state).after(PairingReply::Claimed(claimed)).after(PairingReply::Done)
            == Pairing::Claim(state),
{
}

/// The credentials of an approved claim are stored before the pairing is removed,
/// and are those that the agent goes on with. An agent that has credentials asks for
/// none.
pub proof fn law_approved_claim_pairs(
    state: PairingState,
    claimed: PairingClaimed,
    credentials: Credentials,
)
    requires
        claimed.agent_id == Some(credentials.agent_id),
        claimed.room_id == Some(credentials.room_id),
        claimed.token == Some(credentials.token),
    ensures
        ({
            let approved = Pairing::Claim(state).after(PairingReply::Claimed(claimed));
            let stored = approved.after(PairingReply::Done);
            &&& approved == Pairing::Store(credentials)
            &&& stored == Pairing::Remove(credentials)
            &&& stored.after(PairingReply::Done) == Pairing::Paired(credentials)
        }),
        Pairing::Load.after(PairingReply::Loaded(Some(credentials))) == Pairing::Paired(
            credentials,
        ),
{
}

/// The address that counts is the first one that is no loopback; there is none exactly
/// where all are.
pub proof fn law_first_reachable_address_counts(addresses: Seq<Address>, i: int)
    ensures
        reachable(addresses) is None <==> forall|j: int|
            0 <= j < addresses.len() ==> (#[trigger] addresses[j]).loopback,
        0 <= i < addresses.len() && !addresses[i].loopback && (forall|j: int|
            0 <= j < i ==> (#[trigger] addresses[j]).loopback) ==> reachable(addresses) == Some(
            addresses[i].text@,
        ),
    decreases addresses.len(),
{
    if addresses.len() > 0 {
        let rest = addresses.drop_first();
        law_first_reachable_address_counts(rest, i - 1);
        assert(forall|j: int| 0 <= j < rest.len() ==> rest[j] == addresses[j + 1]);
        if addresses[0].loopback {
            if reachable(rest) is None {
                assert forall|j: int| 0 <= j < addresses.len() implies (
                #[trigger] addresses[j]).loopback by {
                    if j > 0 {
                        assert(rest[j - 1].loopback);
                    }
                }
            } else {
                let j = choose|j: int| 0 <= j < rest.len() && !(#[trigger] rest[j]).loopback;
                assert(!addresses[j + 1].loopback);
            }
            if 0 < i < addresses.len() && !addresses[i].loopback && (forall|j: int|
                0 <= j < i ==> (#[trigger] addresses[j]).loopback) {
                assert(rest[i - 1] == addresses[i]);
                assert forall|j: int| 0 <= j < i - 1 implies (#[trigger] rest[j]).loopback by {
                    assert(addresses[j + 1].loopback);
                }
            }
        }
    }
}

/// A server that was found is known from then on, by its address and port; the servers
/// that were known stay, in their order.
pub proof fn law_found_server_is_known(
    servers: Seq<Seq<char>>,
    addresses: Seq<Address>,
    port: u16,
)
    ensures
        ({
            let more = servers_with(servers, addresses, port);
            &&& servers.len() <= more.len() <= servers.len() + 1
            &&& servers == more.take(servers.len() as int)
            &&& reachable(addresses) is None ==> more == servers
            &&& reachable(addresses) matches Some(address) ==> {
                let server = seq!['h', 't', 't', 'p', ':', '/', '/'] + address + seq![':']
                    + decimal(port as nat);
                &&& more.contains(server)
                &&& more.len() == servers.len() + 1 ==> more.last() == server
                &&& servers.contains(server) ==> more == servers
            }
        }),
{
    reveal_strlit("http://");
    reveal_strlit(":");
    let more = servers_with(servers, addresses, port);
    assert(servers =~= more.take(servers.len() as int));
    if let Some(address) = reachable(addresses) {
        let server = seq!['h', 't', 't', 'p', ':', '/', '/'] + address + seq![':'] + decimal(
            port as nat,
        );
        assert("http://"@ =~= seq!['h', 't', 't', 'p', ':', '/', '/']);
        assert(":"@ =~= seq![':']);
        assert(server == server_at(address, port));
        if !servers.contains(server) {
            assert(more[servers.len() as int] == server);
        }
    }
}

/// A configured server is the one, without the slashes at its end. Otherwise it is the one
/// that was found, if exactly one was.
pub proof fn law_server_is_configured_or_the_only_one(
    config: ConfigView,
    servers: Seq<Seq<char>>,
    url: Seq<char>,
)
    requires
        url.len() > 0 && url.last() != '/',
    ensures
        config.server_url == Some(url) ==> chosen_server(config, servers) == Ok::<
            Seq<char>,
            DiscoveryError,
        >(url),
        config.server_url == Some(url.push('/')) ==> chosen_server(config, servers) == Ok::<
            Seq<char>,
            DiscoveryError,
        >(url),
        config.server_url is None ==> {
            &&& chosen_server(config, servers) == Err::<Seq<char>, DiscoveryError>(
                DiscoveryError::NoServer,
            ) <==> servers.len() == 0
            &&& chosen_server(config, servers) == Err::<Seq<char>, DiscoveryError>(
                DiscoveryError::ManyServers,
            ) <==> servers.len() > 1
            &&& chosen_server(config, seq![url]) == Ok::<Seq<char>, DiscoveryError>(url)
        },
{
    reveal_with_fuel(without_trailing, 2);
    assert(url.push('/').drop_last() =~= url);
}

/// The socket of a server is secure exactly where the server is.
pub proof fn law_socket_is_secure_like_the_server(scheme: Seq<char>)
    ensures
        secure_like(scheme) == seq!['w', 's', 's'] <==> scheme == seq!['h', 't', 't', 'p', 's'],
        secure_like(scheme) == seq!['w', 's'] <==> scheme != seq!['h', 't', 't', 'p', 's'],
{
    reveal_strlit("https");
    reveal_strlit("wss");
    reveal_strlit("ws");
    assert("https"@ =~= seq!['h', 't', 't', 'p', 's']);
    assert("wss"@ =~= seq!['w', 's', 's']);
    assert("ws"@ =~= seq!['w', 's']);
    assert("wss"@.len() == 3 && "ws"@.len() == 2);
    assert(seq!['w', 's', 's'].len() == 3 && seq!['w', 's'].len() == 2);
}

/// The grace is three seconds from when the connection was lost, or from the first attempt
/// where there was none. Playback is stopped when it is over and was not stopped for it
/// before; that it was is kept until a connection stands again.
pub proof fn law_grace_is_three_seconds(
    supervisor: SupervisorView,
    since_ns: u64,
    now_ns: u64,
)
    ensures
        SupervisorView::initial() == (SupervisorView {
            disconnected_since_ns: None,
            interrupted: false,
        }),
        supervisor.lost(true, now_ns) == (SupervisorView {
            disconnected_since_ns: Some(now_ns),
            interrupted: false,
        }),
        !supervisor.expires(true, now_ns),
        supervisor.disconnected_since_ns is None ==> !supervisor.expires(false, now_ns)
            && supervisor.lost(false, now_ns) == (SupervisorView {
            disconnected_since_ns: Some(now_ns),
            interrupted: supervisor.interrupted,
        }),
        supervisor.disconnected_since_ns == Some(since_ns) ==> {
            &&& supervisor.expires(false, now_ns) <==> now_ns >= since_ns + 3_000_000_000
                && !supervisor.interrupted
            &&& supervisor.lost(false, now_ns).disconnected_since_ns == Some(since_ns)
            &&& supervisor.lost(false, now_ns).interrupted == (supervisor.interrupted || now_ns
                >= since_ns + 3_000_000_000)
        },
{
}

/// The next connection is tried after half a second, and a pairing is claimed again after
/// two seconds.
pub proof fn law_pauses_between_attempts()
    ensures
        2 * RETRY_DELAY_MS == 1_000,
        CLAIM_DELAY_SECONDS == 2,
{
}

/// The answer to a claim holds credentials exactly where it names the agent, the room and
/// the token, and they are those.
pub proof fn law_complete_claims_hold_credentials(claimed: PairingClaimed)
    ensures
        claimed_credentials(claimed) is Some <==> claimed.agent_id is Some && claimed.room_id is Some
            && claimed.token is Some,
        claimed_credentials(claimed) matches Some(credentials) ==> claimed.agent_id == Some(
            credentials.agent_id,
        ) && claimed.room_id == Some(credentials.room_id) && claimed.token == Some(
            credentials.token,
        ),
{
}

/// An agent without credentials asks for a pairing unless one is stored, and keeps the one
/// that the server created, for the agent that asked. A claim that is refused, or answered
/// with neither credentials nor the word that it is pending, ends the pairing.
pub proof fn law_pairing_is_created_and_can_fail(
    state: PairingState,
    agent_id: u128,
    created: PairingCreated,
    claimed: PairingClaimed,
    status: u16,
)
    ensures
        Pairing::Load.after(PairingReply::Loaded(None)) == Pairing::Read,
        Pairing::Read.after(PairingReply::Found(None)) == Pairing::Create,
        Pairing::Create.after(PairingReply::Created { agent_id, created }) matches Pairing::Keep(
            kept,
        ) && kept.agent_id == agent_id && kept.pairing_id == created.id && kept.code == created.code
            && kept.expires_at == created.expires_at,
        Pairing::Claim(state).after(PairingReply::Refused(status)) == Pairing::Failed(
            PairingFailure::Refused(status),
        ),
        ({
            let complete = claimed.agent_id is Some && claimed.room_id is Some
                && claimed.token is Some;
            let pending = claimed.status is Some && claimed.status->0@ == "pending"@;
            let next = Pairing::Claim(state).after(PairingReply::Claimed(claimed));
            &&& next is Store <==> complete
            &&& next == Pairing::Wait(state) <==> !complete && pending
            &&& next == Pairing::Failed(PairingFailure::InvalidClaim) <==> !complete && !pending
        }),
{
}

/// A reply that does not answer the step changes nothing, and a pairing that has ended
/// stays as it is.
pub proof fn law_pairing_waits_for_its_answer(pairing: Pairing, reply: PairingReply)
    requires
        match pairing {
            Pairing::Load => !(reply is Loaded),
            Pairing::Read => !(reply is Found),
            Pairing::Create => !(reply is Created),
            Pairing::Claim(_) => !(reply is Claimed || reply is Refused),
            Pairing::Keep(_) | Pairing::Wait(_) | Pairing::Store(_) | Pairing::Remove(_) => !(
            reply is Done),
            Pairing::Paired(_) | Pairing::Failed(_) => true,
        },
    ensures
        pairing.after(reply) == pairing,
{
}

} // verus!
