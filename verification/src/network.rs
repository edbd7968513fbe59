//! The connection state machine of the local game instance, and the rules
//! that turn environment settings into a network configuration.
use vstd::prelude::*;

verus! {

/// The port the server listens on unless told otherwise.
pub const DEFAULT_SERVER_PORT: u16 = 6767;

/// The Steam App ID of development builds that set none.
pub const DEFAULT_STEAM_APP_ID: u32 = 480;

/// Where the local instance stands in the network.
#[derive(Clone, Copy, Debug, PartialEq, Eq, Structural)]
pub enum ConnectionStatus {
    Disconnected,
    Hosting,
    Connecting,
    Connected,
}

/// The connection status of the local instance.
#[derive(Clone, Copy, Debug, PartialEq, Eq, Structural)]
pub struct ConnectionState {
    pub status: ConnectionStatus,
}

impl Default for ConnectionStatus {
    fn default() -> (r: ConnectionStatus)
        ensures
            r == ConnectionStatus::Disconnected,
    {
        ConnectionStatus::Disconnected
    }
}

impl Default for ConnectionState {
    fn default() -> (r: ConnectionState)
        ensures
            r.status == ConnectionStatus::Disconnected,
    {
        ConnectionState::new()
    }
}

/// What a connect request comes to.
#[derive(Clone, Copy, Debug, PartialEq, Eq, Structural)]
pub enum ConnectOutcome {
    /// The request came from hosting; the host's own client connects itself.
    HostMode,
    /// A session is already up or underway; the request is ignored.
    Duplicate,
    /// Open a client connection to the configured server.
    Connect,
}

/// A host request is granted: nothing is running or starting yet.
pub open spec fn host_granted(status: ConnectionStatus, server_exists: bool, local_client_exists: bool) -> bool {
    status == ConnectionStatus::Disconnected && !server_exists && !local_client_exists
}

/// What a connect request comes to in a given state.
pub open spec fn connect_outcome(status: ConnectionStatus, host_mode: bool, local_client_exists: bool) -> ConnectOutcome {
    if host_mode {
        ConnectOutcome::HostMode
    } else if status != ConnectionStatus::Disconnected || local_client_exists {
        ConnectOutcome::Duplicate
    } else {
        ConnectOutcome::Connect
    }
}

/// The status after a host request.
pub open spec fn after_host(status: ConnectionStatus, server_exists: bool, local_client_exists: bool) -> ConnectionStatus {
    if host_granted(status, server_exists, local_client_exists) { ConnectionStatus::Hosting } else { status }
}

/// The status after a connect request.
pub open spec fn after_connect(status: ConnectionStatus, host_mode: bool, local_client_exists: bool) -> ConnectionStatus {
    if connect_outcome(status, host_mode, local_client_exists) == ConnectOutcome::Connect {
        ConnectionStatus::Connecting
    } else {
        status
    }
}

/// The status after a link connects.
pub open spec fn after_connected(status: ConnectionStatus, is_local_client: bool) -> ConnectionStatus {
    if is_local_client { ConnectionStatus::Connected } else { status }
}

/// The status after a link disconnects.
pub open spec fn after_disconnected(status: ConnectionStatus, is_local_client: bool) -> ConnectionStatus {
    if is_local_client { ConnectionStatus::Disconnected } else { status }
}

impl ConnectionState {
    /// The state at start-up: disconnected.
    pub fn new() -> (r: ConnectionState)
        ensures
            r.status == ConnectionStatus::Disconnected,
    {
        ConnectionState { status: ConnectionStatus::Disconnected }
    }

    /// A request to host. Granted, and the status becomes `Hosting`, only when
    /// disconnected with no server and no local client; otherwise nothing
    /// changes. Returns whether the host is to be started.
    pub fn request_host(&mut self, server_exists: bool, local_client_exists: bool) -> (start: bool)
        ensures
            start == host_granted(old(self).status, server_exists, local_client_exists),
            final(self).status == after_host(old(self).status, server_exists, local_client_exists),
    {
        if self.status != ConnectionStatus::Disconnected || server_exists || local_client_exists {
            return false;
        }
        self.status = ConnectionStatus::Hosting;
        true
    }

    /// A request to connect as a client. Only a `Connect` outcome changes the
    /// status, to `Connecting`.
    pub fn request_connect(&mut self, host_mode: bool, local_client_exists: bool) -> (outcome: ConnectOutcome)
        ensures
            outcome == connect_outcome(old(self).status, host_mode, local_client_exists),
            final(self).status == after_connect(old(self).status, host_mode, local_client_exists),
    {
        if host_mode {
            return ConnectOutcome::HostMode;
        }
        if self.status != ConnectionStatus::Disconnected || local_client_exists {
            return ConnectOutcome::Duplicate;
        }
        self.status = ConnectionStatus::Connecting;
        ConnectOutcome::Connect
    }

    /// A link has connected: where it is the local client, the status becomes
    /// `Connected`.
    pub fn client_connected(&mut self, is_local_client: bool)
        ensures
            final(self).status == after_connected(old(self).status, is_local_client),
    {
        if is_local_client {
            self.status = ConnectionStatus::Connected;
        }
    }

    /// A link has disconnected: where it is the local client, the status
    /// becomes `Disconnected` and the client entity is to be despawned.
    /// Returns whether to despawn it.
    pub fn client_disconnected(&mut self, is_local_client: bool) -> (despawn: bool)
        ensures
            despawn == is_local_client,
            final(self).status == after_disconnected(old(self).status, is_local_client),
    {
        if !is_local_client {
            return false;
        }
        self.status = ConnectionStatus::Disconnected;
        true
    }
}

/// Once a session is hosted or being joined, every further host or connect
/// request is refused until the local client disconnects.
pub proof fn one_session_at_a_time(
    status: ConnectionStatus,
    server_exists: bool,
    local_client_exists: bool,
    host_mode: bool,
)
    requires
        status != ConnectionStatus::Disconnected,
    ensures
        !host_granted(status, server_exists, local_client_exists),
        connect_outcome(status, host_mode, local_client_exists) != ConnectOutcome::Connect,
{
}

/// After the local client disconnects, from whatever state, a host or
/// connect request is granted again once no server and no local client
/// remain.
pub proof fn disconnect_reopens_the_session(status: ConnectionStatus)
    ensures
        host_granted(after_disconnected(status, true), false, false),
        connect_outcome(after_disconnected(status, true), false, false) == ConnectOutcome::Connect,
{
}

/// A client session runs its course: a connect request from a fresh state
/// starts connecting, only the local client's link makes it connected, and
/// the local client's disconnect ends it.
pub proof fn client_session_lifecycle()
    ensures
        ({
            let connecting = after_connect(ConnectionStatus::Disconnected, false, false);
            &&& connecting == ConnectionStatus::Connecting
            &&& after_connected(connecting, false) == ConnectionStatus::Connecting
            &&& after_connected(connecting, true) == ConnectionStatus::Connected
            &&& after_disconnected(after_connected(connecting, true), false) == ConnectionStatus::Connected
            &&& after_disconnected(after_connected(connecting, true), true) == ConnectionStatus::Disconnected
        }),
{
}

/// A link of the local client that connects always leaves the instance
/// connected, whatever it was doing before (the host's own client included);
/// a link of another client changes nothing. Likewise a disconnect of the
/// local client always leaves it disconnected.
pub proof fn local_links_decide_the_status(status: ConnectionStatus)
    ensures
        after_connected(status, true) == ConnectionStatus::Connected,
        after_connected(status, false) == status,
        after_disconnected(status, true) == ConnectionStatus::Disconnected,
        after_disconnected(status, false) == status,
{
}

/// A raw environment variable as the process sees it.
#[derive(Clone, Debug)]
pub enum EnvValue {
    /// The variable is set to these bytes of valid UTF-8.
    Present(Vec<u8>),
    /// The variable is not set.
    NotPresent,
    /// The variable is set but is not valid UTF-8.
    NotUnicode,
}

/// Why the Steam App ID setting was refused.
#[derive(Clone, Copy, Debug, PartialEq, Eq, Structural)]
pub enum SteamAppIdError {
    /// The value is not a number that fits a `u32`.
    NotNumeric,
    /// Release builds must set the variable.
    Missing,
    /// The value is not valid UTF-8.
    NotUnicode,
}

/// The byte is an ASCII decimal digit.
pub open spec fn is_digit(b: u8) -> bool {
    48 <= b <= 57
}

/// Every byte is an ASCII decimal digit.
pub open spec fn all_digits(s: Seq<u8>) -> bool {
    forall|i: int| 0 <= i < s.len() ==> is_digit(#[trigger] s[i])
}

/// The number that a string of decimal digits writes.
pub open spec fn digits_value(s: Seq<u8>) -> nat
    decreases s.len(),
{
    if s.len() == 0 {
        0
    } else {
        digits_value(s.drop_last()) * 10 + (s.last() - 48) as nat
    }
}

/// The digits of a decimal number: all but a single leading `+`.
pub open spec fn unsigned_digits(s: Seq<u8>) -> Seq<u8> {
    if s.len() > 0 && s[0] == 43 { s.drop_first() } else { s }
}

/// The `u32` that a string writes in decimal, as `u32::from_str` reads it:
/// an optional `+`, then at least one ASCII digit and nothing else, and a
/// value that fits; `None` for anything else.
pub open spec fn parse_u32_spec(s: Seq<u8>) -> Option<u32> {
    let d = unsigned_digits(s);
    if d.len() > 0 && all_digits(d) && digits_value(d) <= u32::MAX {
        Some(digits_value(d) as u32)
    } else {
        None
    }
}

/// Appending digits never makes a number smaller.
proof fn digits_value_grows(s: Seq<u8>, n: int)
    requires
        0 <= n <= s.len(),
        all_digits(s),
    ensures
        digits_value(s.take(n)) <= digits_value(s),
    decreases s.len() - n,
{
    if n < s.len() {
        digits_value_grows(s, n + 1);
        assert(s.take(n + 1).drop_last() =~= s.take(n));
    } else {
        assert(s.take(n) =~= s);
    }
}

/// Reads a decimal `u32` the way `u32::from_str` does.
pub fn parse_u32(s: &[u8]) -> (r: Option<u32>)
    ensures
        r == parse_u32_spec(s@),
{
    let len = s.len();
    let mut start: usize = 0;
    if len > 0 && s[0] == 43u8 {
        start = 1;
    }
    let ghost d = unsigned_digits(s@);
    assert(d =~= s@.subrange(start as int, len as int));
    if start == len {
        return None;
    }
    let mut acc: u64 = 0;
    let mut i: usize = start;
    while i < len
        invariant
            start <= i <= len,
            len == s@.len(),
            d =~= s@.subrange(start as int, len as int),
            d.len() > 0,
            d == unsigned_digits(s@),
            all_digits(d.take(i - start)),
            acc as nat == digits_value(d.take(i - start)),
            acc <= u32::MAX,
        decreases len - i,
    {
        let b = s[i];
        if b < 48u8 || b > 57u8 {
            assert(d[i - start] == b);
            return None;
        }
        proof {
            assert(d.take(i - start + 1).drop_last() =~= d.take(i - start));
            assert(d.take(i - start + 1).last() == b);
        }
        acc = acc * 10 + (b - 48u8) as u64;
        if acc > 0xffff_ffffu64 {
            proof {
                if all_digits(d) {
                    digits_value_grows(d, i - start + 1);
                }
            }
            return None;
        }
        i = i + 1;
    }
    assert(d.take(len - start) =~= d);
    Some(acc as u32)
}

/// The Steam App ID from its environment variable. A set value must be a
/// decimal `u32`; an unset variable gives the default in development builds
/// and is refused in release builds; a value that is not UTF-8 is refused.
pub fn steam_app_id_from_env(value: &EnvValue, dev_build: bool) -> (r: Result<u32, SteamAppIdError>)
    ensures
        r == (match value {
            EnvValue::Present(bytes) => match parse_u32_spec(bytes@) {
                Some(id) => Ok(id),
                None => Err(SteamAppIdError::NotNumeric),
            },
            EnvValue::NotPresent => if dev_build {
                Ok(DEFAULT_STEAM_APP_ID)
            } else {
                Err(SteamAppIdError::Missing)
            },
            EnvValue::NotUnicode => Err(SteamAppIdError::NotUnicode),
        }),
{
    match value {
        EnvValue::Present(bytes) => match parse_u32(bytes.as_slice()) {
            Some(id) => Ok(id),
            None => Err(SteamAppIdError::NotNumeric),
        },
        EnvValue::NotPresent => if dev_build {
            Ok(DEFAULT_STEAM_APP_ID)
        } else {
            Err(SteamAppIdError::Missing)
        },
        EnvValue::NotUnicode => Err(SteamAppIdError::NotUnicode),
    }
}

/// A setting read from the environment and parsed.
#[derive(Clone, Copy, Debug)]
pub enum SettingLookup<T> {
    /// The variable is not set.
    Missing,
    /// The variable holds a valid value.
    Parsed(T),
    /// The variable is set but does not parse.
    Invalid,
}

/// The value of a setting: the parsed value, else the default. The flag is
/// set where an invalid value was replaced by the default, which is to be
/// reported.
pub fn resolve_setting<T>(lookup: SettingLookup<T>, default: T) -> (r: (T, bool))
    ensures
        r == (match lookup {
            SettingLookup::Missing => (default, false),
            SettingLookup::Parsed(v) => (v, false),
            SettingLookup::Invalid => (default, true),
        }),
{
    match lookup {
        SettingLookup::Missing => (default, false),
        SettingLookup::Parsed(v) => (v, false),
        SettingLookup::Invalid => (default, true),
    }
}

} // verus!
