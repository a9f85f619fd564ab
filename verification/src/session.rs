//! The per-connection SOCKS5 state machine: method negotiation, CONNECT
//! request parsing, mapping of connect failures to reply codes, and the
//! relay bookkeeping. The caller performs every read and write; the session
//! decides what each batch of bytes means, which bytes to send back, and
//! when the connection must close.

use vstd::prelude::*;
use crate::codec::ATYP_DOMAIN;
use crate::codec::ATYP_IPV4;
use crate::codec::ATYP_IPV6;
use crate::codec::BindAddr;
use crate::codec::CONNECT_COMMAND;
use crate::codec::HostAddr;
use crate::codec::NO_ACCEPTABLE_METHODS;
use crate::codec::NO_AUTHENTICATION;
use crate::codec::REP_CONNECTION_REFUSED;
use crate::codec::REP_GENERAL_FAILURE;
use crate::codec::REP_HOST_UNREACHABLE;
use crate::codec::REP_SUCCEEDED;
use crate::codec::REP_TTL_EXPIRED;
use crate::codec::RSV;
use crate::codec::SOCKS_VERSION;
use crate::codec::encode_reply;
use crate::codec::lossy_of;
use crate::codec::port_value;
use crate::codec::spec_failure_reply;
use crate::codec::spec_reply;
use crate::codec::unspecified_addr;

verus! {

/// The stage a client session has reached. A session only ever moves
/// forward through these stages; `Failed` absorbs every protocol or
/// connection error.
#[derive(Clone, Copy, Debug, PartialEq, Eq, Structural)]
pub enum SessionState {
    AwaitingMethods,
    AwaitingRequest,
    Connecting,
    Relaying,
    Closed,
    Failed,
}

/// The position of a state in the forward order of a session's life.
/// Every transition weakly increases this rank: no session re-enters an
/// earlier stage.
pub open spec fn state_rank(s: SessionState) -> int {
    match s {
        SessionState::AwaitingMethods => 0,
        SessionState::AwaitingRequest => 1,
        SessionState::Connecting => 2,
        SessionState::Relaying => 3,
        SessionState::Closed => 4,
        SessionState::Failed => 5,
    }
}

/// Why a session ended before (or instead of) relaying.
#[derive(Clone, Copy, Debug, PartialEq, Eq, Structural)]
pub enum SessionError {
    /// A version byte other than `0x05`, in either stage.
    UnsupportedVersion,
    /// A method-selection message offering zero methods.
    NoMethodsOffered,
    /// The client did not offer the "no authentication" method.
    NoAcceptableAuthMethod,
    /// A reserved byte other than `0x00` in the request.
    MalformedRequest,
    /// A command other than CONNECT.
    UnsupportedCommand,
    /// An address-type byte other than IPv4, domain, or IPv6.
    UnsupportedAddressType,
    /// Name resolution produced no address for the target.
    TargetUnresolvable,
    /// The target refused the connection.
    ConnectionRefused,
    /// The target address was unreachable.
    HostUnreachable,
    /// The connect attempt timed out.
    ConnectTimedOut,
    /// Any other connect failure.
    ConnectFailed,
}

/// How many bytes of address follow the request header: a fixed 4 or 16,
/// or a 1-byte length prefix followed by that many domain bytes.
#[derive(Clone, Copy, Debug, PartialEq, Eq, Structural)]
pub enum AddrPlan {
    Ipv4,
    Domain,
    Ipv6,
}

impl AddrPlan {
    /// The fixed address byte count of this plan; zero for a domain name,
    /// whose count comes from the 1-byte length prefix instead.
    pub fn fixed_len(&self) -> (n: usize)
        ensures
            (*self == AddrPlan::Ipv4 ==> n == 4),
            (*self == AddrPlan::Ipv6 ==> n == 16),
            (*self == AddrPlan::Domain ==> n == 0),
    {
        match self {
            AddrPlan::Ipv4 => 4,
            AddrPlan::Ipv6 => 16,
            AddrPlan::Domain => 0,
        }
    }

    /// Whether the address is a length-prefixed domain name.
    pub fn is_domain(&self) -> (r: bool)
        ensures
            r == (*self == AddrPlan::Domain),
    {
        match self {
            AddrPlan::Domain => true,
            _ => false,
        }
    }
}

/// The parsed CONNECT request: the target address and port the client
/// asked to be connected to. Immutable once constructed.
#[derive(Debug, PartialEq, Eq)]
pub struct ConnectRequest {
    pub addr: HostAddr,
    pub port: u16,
}

/// What the caller's resolution and connect attempt came to: an open
/// upstream connection bound to a local address, or one of the failure
/// classes the protocol distinguishes.
#[derive(Debug)]
pub enum ConnectOutcome {
    /// The upstream connection is open; the value is the local address the
    /// outbound socket is bound to.
    Connected(BindAddr),
    /// Name resolution yielded no address.
    Unresolvable,
    /// The target refused the connection.
    Refused,
    /// The target address was unreachable.
    Unreachable,
    /// The connect attempt timed out.
    TimedOut,
    /// Any other connect failure.
    OtherError,
}

impl ConnectOutcome {
    /// Well formed when a connected outcome carries a well-formed local
    /// address.
    pub open spec fn wf(&self) -> bool {
        match self {
            ConnectOutcome::Connected(b) => b.wf(),
            _ => true,
        }
    }
}

/// A protocol failure during negotiation or request parsing: the error,
/// and the bytes (if any) that must still be sent to the client before the
/// connection closes.
#[derive(Debug)]
pub struct ProtocolFailure {
    pub reply: Option<Vec<u8>>,
    pub error: SessionError,
}

/// A failed connect attempt: the failure reply that must be sent to the
/// client, and the error that ends the session.
#[derive(Debug)]
pub struct ConnectFailure {
    pub reply: Vec<u8>,
    pub error: SessionError,
}

/// The byte counters reported when a relay ends.
#[derive(Clone, Copy, Debug, PartialEq, Eq, Structural)]
pub struct RelayOutcome {
    pub client_to_target: u64,
    pub target_to_client: u64,
}

/// The wire form of the method-selection reply: acceptance sends the
/// "no authentication" method byte, rejection the "no acceptable methods"
/// byte.
pub open spec fn spec_method_reply(accept: bool) -> Seq<u8> {
    seq![SOCKS_VERSION, if accept { NO_AUTHENTICATION } else { NO_ACCEPTABLE_METHODS }]
}

/// Whether a method list offers the "no authentication" method.
pub fn offers_no_auth(methods: &Vec<u8>) -> (r: bool)
    ensures
        r == methods@.contains(NO_AUTHENTICATION),
{
    let mut i: usize = 0;
    while i < methods.len()
        invariant
            i <= methods.len(),
            forall|k: int| 0 <= k < i ==> methods@[k] != NO_AUTHENTICATION,
        decreases methods.len() - i,
    {
        if methods[i] == NO_AUTHENTICATION {
            return true;
        }
        i = i + 1;
    }
    false
}

/// One client session, advancing strictly forward from method negotiation
/// to relaying or failure. `atyp` holds the request's address-type byte
/// once the request header has been accepted, and is zero before that.
pub struct Session {
    pub state: SessionState,
    pub atyp: u8,
}

impl Session {
    /// A fresh session awaiting the client's method-selection message.
    pub fn new() -> (s: Session)
        ensures
            s.state == SessionState::AwaitingMethods,
            s.atyp == 0,
    {
        Session { state: SessionState::AwaitingMethods, atyp: 0 }
    }

    /// Consumes the two-byte method-selection header. Returns the number
    /// of method bytes the caller must read next, or fails the session on
    /// a wrong version byte or an empty method list. No reply is owed to
    /// the client on either failure.
    pub fn method_header(&mut self, ver: u8, nmethods: u8) -> (r: Result<u8, SessionError>)
        requires
            old(self).state == SessionState::AwaitingMethods,
        ensures
            final(self).atyp == old(self).atyp,
            state_rank(old(self).state) <= state_rank(final(self).state),
            ver != SOCKS_VERSION ==> (r == Err::<u8, SessionError>(
                SessionError::UnsupportedVersion,
            ) && final(self).state == SessionState::Failed),
            ver == SOCKS_VERSION && nmethods == 0 ==> (r == Err::<u8, SessionError>(
                SessionError::NoMethodsOffered,
            ) && final(self).state == SessionState::Failed),
            ver == SOCKS_VERSION && nmethods > 0 ==> (r == Ok::<u8, SessionError>(nmethods)
                && final(self).state == SessionState::AwaitingMethods),
    {
        if ver != SOCKS_VERSION {
            self.state = SessionState::Failed;
            Err(SessionError::UnsupportedVersion)
        } else if nmethods == 0 {
            self.state = SessionState::Failed;
            Err(SessionError::NoMethodsOffered)
        } else {
            Ok(nmethods)
        }
    }

    /// Decides on the client's offered method list. The returned bytes are
    /// the method-selection reply and are always sent: `05 00` when the
    /// list contains the "no authentication" method, `05 FF` otherwise.
    /// Acceptance advances the session to the request stage; rejection
    /// fails it, and the connection closes after the reply is sent.
    pub fn methods(&mut self, methods: &Vec<u8>) -> (r: (Vec<u8>, Result<(), SessionError>))
        requires
            old(self).state == SessionState::AwaitingMethods,
        ensures
            final(self).atyp == old(self).atyp,
            state_rank(old(self).state) <= state_rank(final(self).state),
            r.0@ == spec_method_reply(methods@.contains(NO_AUTHENTICATION)),
            methods@.contains(NO_AUTHENTICATION) ==> (r.1 == Ok::<(), SessionError>(())
                && final(self).state == SessionState::AwaitingRequest),
            !methods@.contains(NO_AUTHENTICATION) ==> (r.1 == Err::<(), SessionError>(
                SessionError::NoAcceptableAuthMethod,
            ) && final(self).state == SessionState::Failed),
    {
        let accept = offers_no_auth(methods);
        let mut reply: Vec<u8> = Vec::new();
        reply.push(SOCKS_VERSION);
        if accept {
            reply.push(NO_AUTHENTICATION);
            self.state = SessionState::AwaitingRequest;
            proof {
                assert(reply@ =~= spec_method_reply(true));
            }
            (reply, Ok(()))
        } else {
            reply.push(NO_ACCEPTABLE_METHODS);
            self.state = SessionState::Failed;
            proof {
                assert(reply@ =~= spec_method_reply(false));
            }
            (reply, Err(SessionError::NoAcceptableAuthMethod))
        }
    }

    /// Consumes the four-byte request header. Checks the version byte,
    /// then the reserved byte, then the command, then the address type, and
    /// fails the session at the first violation. A wrong version or
    /// reserved byte closes the connection with no reply; an unsupported
    /// command or address type owes the client a general-failure reply
    /// bound to `0.0.0.0:0` first. On success the session remembers the
    /// address type and the caller learns how many address bytes follow.
    pub fn request_header(&mut self, ver: u8, cmd: u8, rsv: u8, atyp: u8) -> (r: Result<
        AddrPlan,
        ProtocolFailure,
    >)
        requires
            old(self).state == SessionState::AwaitingRequest,
        ensures
            state_rank(old(self).state) <= state_rank(final(self).state),
            ver != SOCKS_VERSION ==> (r matches Err(f) && f.error
                == SessionError::UnsupportedVersion && f.reply is None && final(self).state
                == SessionState::Failed && final(self).atyp == old(self).atyp),
            ver == SOCKS_VERSION && rsv != RSV ==> (r matches Err(f) && f.error
                == SessionError::MalformedRequest && f.reply is None && final(self).state
                == SessionState::Failed && final(self).atyp == old(self).atyp),
            ver == SOCKS_VERSION && rsv == RSV && cmd != CONNECT_COMMAND ==> (r matches Err(f)
                && f.error == SessionError::UnsupportedCommand && (f.reply matches Some(v) && v@
                == spec_failure_reply(REP_GENERAL_FAILURE)) && final(self).state
                == SessionState::Failed && final(self).atyp == old(self).atyp),
            ver == SOCKS_VERSION && rsv == RSV && cmd == CONNECT_COMMAND && atyp != ATYP_IPV4
                && atyp != ATYP_DOMAIN && atyp != ATYP_IPV6 ==> (r matches Err(f) && f.error
                == SessionError::UnsupportedAddressType && (f.reply matches Some(v) && v@
                == spec_failure_reply(REP_GENERAL_FAILURE)) && final(self).state
                == SessionState::Failed && final(self).atyp == old(self).atyp),
            ver == SOCKS_VERSION && rsv == RSV && cmd == CONNECT_COMMAND && (atyp == ATYP_IPV4
                || atyp == ATYP_DOMAIN || atyp == ATYP_IPV6) ==> (final(self).state
                == SessionState::AwaitingRequest && final(self).atyp == atyp && (r matches Ok(plan)
                && plan == (if atyp == ATYP_IPV4 {
                AddrPlan::Ipv4
            } else if atyp == ATYP_DOMAIN {
                AddrPlan::Domain
            } else {
                AddrPlan::Ipv6
            }))),
    {
        if ver != SOCKS_VERSION {
            self.state = SessionState::Failed;
            Err(ProtocolFailure { reply: None, error: SessionError::UnsupportedVersion })
        } else if rsv != RSV {
            self.state = SessionState::Failed;
            Err(ProtocolFailure { reply: None, error: SessionError::MalformedRequest })
        } else if cmd != CONNECT_COMMAND {
            self.state = SessionState::Failed;
            let reply = encode_reply(REP_GENERAL_FAILURE, &unspecified_addr());
            Err(ProtocolFailure { reply: Some(reply), error: SessionError::UnsupportedCommand })
        } else if atyp == ATYP_IPV4 {
            self.atyp = atyp;
            Ok(AddrPlan::Ipv4)
        } else if atyp == ATYP_DOMAIN {
            self.atyp = atyp;
            Ok(AddrPlan::Domain)
        } else if atyp == ATYP_IPV6 {
            self.atyp = atyp;
            Ok(AddrPlan::Ipv6)
        } else {
            self.state = SessionState::Failed;
            let reply = encode_reply(REP_GENERAL_FAILURE, &unspecified_addr());
            Err(ProtocolFailure { reply: Some(reply), error: SessionError::UnsupportedAddressType })
        }
    }

    /// Consumes the address bytes and the two big-endian port bytes and
    /// produces the parsed CONNECT request: raw octets for an IP target,
    /// the lossily decoded name for a domain target. The session moves to
    /// the connecting stage; resolution is deferred to the caller.
    pub fn request_target(&mut self, addr_bytes: &Vec<u8>, port_hi: u8, port_lo: u8) -> (req:
        ConnectRequest)
        requires
            old(self).state == SessionState::AwaitingRequest,
            old(self).atyp == ATYP_IPV4 || old(self).atyp == ATYP_DOMAIN || old(self).atyp
                == ATYP_IPV6,
            old(self).atyp == ATYP_IPV4 ==> addr_bytes@.len() == 4,
            old(self).atyp == ATYP_IPV6 ==> addr_bytes@.len() == 16,
        ensures
            final(self).state == SessionState::Connecting,
            final(self).atyp == old(self).atyp,
            state_rank(old(self).state) <= state_rank(final(self).state),
            req.addr.wf(),
            req.port == port_value(port_hi, port_lo),
            old(self).atyp == ATYP_IPV4 ==> (req.addr matches HostAddr::Ipv4(b) && b@
                == addr_bytes@),
            old(self).atyp == ATYP_IPV6 ==> (req.addr matches HostAddr::Ipv6(b) && b@
                == addr_bytes@),
            old(self).atyp == ATYP_DOMAIN ==> (req.addr matches HostAddr::Domain(d) && d@
                == lossy_of(addr_bytes@)),
    {
        let addr = crate::codec::decode_address(self.atyp, addr_bytes);
        self.state = SessionState::Connecting;
        ConnectRequest { addr, port: crate::codec::port_from_be(port_hi, port_lo) }
    }

    /// Turns the caller's connect attempt into the reply owed to the
    /// client. Success yields the success reply bound to the upstream
    /// socket's local address and starts the relay stage; each failure
    /// yields its reply code — general failure for an unresolvable name or
    /// an unclassified error, connection refused, host unreachable, or TTL
    /// expired for a timeout — bound to `0.0.0.0:0`, and fails the session.
    pub fn connect_outcome(&mut self, outcome: ConnectOutcome) -> (r: Result<
        Vec<u8>,
        ConnectFailure,
    >)
        requires
            old(self).state == SessionState::Connecting,
            outcome.wf(),
        ensures
            final(self).atyp == old(self).atyp,
            state_rank(old(self).state) <= state_rank(final(self).state),
            (outcome matches ConnectOutcome::Connected(b) ==> (r matches Ok(v) && v@ == spec_reply(
                REP_SUCCEEDED,
                b.ip.atyp(),
                b.ip.bytes(),
                b.port,
            ) && final(self).state == SessionState::Relaying)),
            outcome is Unresolvable ==> (r matches Err(f) && f.error
                == SessionError::TargetUnresolvable && f.reply@ == spec_failure_reply(
                REP_GENERAL_FAILURE,
            ) && final(self).state == SessionState::Failed),
            outcome is Refused ==> (r matches Err(f) && f.error == SessionError::ConnectionRefused
                && f.reply@ == spec_failure_reply(REP_CONNECTION_REFUSED) && final(self).state
                == SessionState::Failed),
            outcome is Unreachable ==> (r matches Err(f) && f.error
                == SessionError::HostUnreachable && f.reply@ == spec_failure_reply(
                REP_HOST_UNREACHABLE,
            ) && final(self).state == SessionState::Failed),
            outcome is TimedOut ==> (r matches Err(f) && f.error == SessionError::ConnectTimedOut
                && f.reply@ == spec_failure_reply(REP_TTL_EXPIRED) && final(self).state
                == SessionState::Failed),
            outcome is OtherError ==> (r matches Err(f) && f.error == SessionError::ConnectFailed
                && f.reply@ == spec_failure_reply(REP_GENERAL_FAILURE) && final(self).state
                == SessionState::Failed),
    {
        match outcome {
            ConnectOutcome::Connected(b) => {
                self.state = SessionState::Relaying;
                Ok(encode_reply(REP_SUCCEEDED, &b))
            }
            ConnectOutcome::Unresolvable => {
                self.state = SessionState::Failed;
                Err(ConnectFailure {
                    reply: encode_reply(REP_GENERAL_FAILURE, &unspecified_addr()),
                    error: SessionError::TargetUnresolvable,
                })
            }
            ConnectOutcome::Refused => {
                self.state = SessionState::Failed;
                Err(ConnectFailure {
                    reply: encode_reply(REP_CONNECTION_REFUSED, &unspecified_addr()),
                    error: SessionError::ConnectionRefused,
                })
            }
            ConnectOutcome::Unreachable => {
                self.state = SessionState::Failed;
                Err(ConnectFailure {
                    reply: encode_reply(REP_HOST_UNREACHABLE, &unspecified_addr()),
                    error: SessionError::HostUnreachable,
                })
            }
            ConnectOutcome::TimedOut => {
                self.state = SessionState::Failed;
                Err(ConnectFailure {
                    reply: encode_reply(REP_TTL_EXPIRED, &unspecified_addr()),
                    error: SessionError::ConnectTimedOut,
                })
            }
            ConnectOutcome::OtherError => {
                self.state = SessionState::Failed;
                Err(ConnectFailure {
                    reply: encode_reply(REP_GENERAL_FAILURE, &unspecified_addr()),
                    error: SessionError::ConnectFailed,
                })
            }
        }
    }

    /// Ends the relay stage normally, closing the session and reporting
    /// how many bytes flowed in each direction.
    pub fn finish_relay(&mut self, client_to_target: u64, target_to_client: u64) -> (r:
        RelayOutcome)
        requires
            old(self).state == SessionState::Relaying,
        ensures
            final(self).state == SessionState::Closed,
            final(self).atyp == old(self).atyp,
            state_rank(old(self).state) <= state_rank(final(self).state),
            r.client_to_target == client_to_target,
            r.target_to_client == target_to_client,
    {
        self.state = SessionState::Closed;
        RelayOutcome { client_to_target, target_to_client }
    }

    /// Ends the relay stage after an I/O failure. The error is not
    /// retried: the session simply closes, with no byte counts to report.
    pub fn relay_failed(&mut self)
        requires
            old(self).state == SessionState::Relaying,
        ensures
            final(self).state == SessionState::Closed,
            final(self).atyp == old(self).atyp,
            state_rank(old(self).state) <= state_rank(final(self).state),
    {
        self.state = SessionState::Closed;
    }
}

} // verus!
