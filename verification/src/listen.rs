use vstd::prelude::*;

verus! {

/// Which peer transports a listener opens.
#[derive(Debug, Clone, Copy)]
pub enum ListenerMode {
    TcpOnly,
    UtpOnly,
    TcpAndUtp,
}

impl ListenerMode {
    /// Whether a TCP listener is opened in this mode.
    #[verifier::allow_in_spec]
    pub fn tcp_enabled(&self) -> bool
        returns
            match self {
                ListenerMode::TcpOnly => true,
                ListenerMode::UtpOnly => false,
                ListenerMode::TcpAndUtp => true,
            },
    {
        match self {
            ListenerMode::TcpOnly => true,
            ListenerMode::UtpOnly => false,
            ListenerMode::TcpAndUtp => true,
        }
    }

    /// Whether a uTP (UDP) socket is opened in this mode.
    #[verifier::allow_in_spec]
    pub fn utp_enabled(&self) -> bool
        returns
            match self {
                ListenerMode::TcpOnly => false,
                ListenerMode::UtpOnly => true,
                ListenerMode::TcpAndUtp => true,
            },
    {
        match self {
            ListenerMode::TcpOnly => false,
            ListenerMode::UtpOnly => true,
            ListenerMode::TcpAndUtp => true,
        }
    }
}

/// Every listener mode opens at least one transport, and both are open
/// exactly in the combined mode.
pub proof fn lemma_mode_opens_a_transport(mode: ListenerMode)
    ensures
        mode.tcp_enabled() || mode.utp_enabled(),
        (mode.tcp_enabled() && mode.utp_enabled()) <==> (mode is TcpAndUtp),
        mode.tcp_enabled() <==> !(mode is UtpOnly),
        mode.utp_enabled() <==> !(mode is TcpOnly),
{
}


/// A socket address as the listener logic sees it: IPv4 addresses and IPv6
/// addresses as their 32- and 128-bit big-endian integer values.
#[derive(Debug, Clone, Copy, PartialEq, Eq, Structural)]
pub enum ListenAddr {
    V4 { ip: u32, port: u16 },
    V6 { ip: u128, port: u16, flowinfo: u32, scope_id: u32 },
}

impl ListenAddr {
    /// The port of the address.
    #[verifier::allow_in_spec]
    pub fn port(&self) -> u16
        returns
            match self {
                ListenAddr::V4 { port, .. } => *port,
                ListenAddr::V6 { port, .. } => *port,
            },
    {
        match self {
            ListenAddr::V4 { port, .. } => *port,
            ListenAddr::V6 { port, .. } => *port,
        }
    }

    /// Whether this is an IPv6 address.
    #[verifier::allow_in_spec]
    pub fn is_ipv6(&self) -> bool
        returns
            self is V6,
    {
        match self {
            ListenAddr::V4 { .. } => false,
            ListenAddr::V6 { .. } => true,
        }
    }

    /// Whether the IP is the unspecified address (`0.0.0.0` or `::`).
    #[verifier::allow_in_spec]
    pub fn ip_is_unspecified(&self) -> bool
        returns
            match self {
                ListenAddr::V4 { ip, .. } => *ip == 0,
                ListenAddr::V6 { ip, .. } => *ip == 0,
            },
    {
        match self {
            ListenAddr::V4 { ip, .. } => *ip == 0,
            ListenAddr::V6 { ip, .. } => *ip == 0,
        }
    }

    /// Whether the IP is a loopback address: `127.0.0.0/8` for IPv4, `::1`
    /// for IPv6.
    #[verifier::allow_in_spec]
    pub fn ip_is_loopback(&self) -> bool
        returns
            match self {
                ListenAddr::V4 { ip, .. } => 0x7f00_0000 <= *ip && *ip <= 0x7fff_ffff,
                ListenAddr::V6 { ip, .. } => *ip == 1,
            },
    {
        match self {
            ListenAddr::V4 { ip, .. } => 0x7f00_0000 <= *ip && *ip <= 0x7fff_ffff,
            ListenAddr::V6 { ip, .. } => *ip == 1,
        }
    }
}

/// How the peer listeners are set up.
#[derive(Debug, Clone, Copy)]
pub struct ListenerOptions {
    pub mode: ListenerMode,
    pub listen_addr: ListenAddr,
    pub enable_upnp_port_forwarding: bool,
    pub announce_port: Option<u16>,
    pub ipv4_only: bool,
}

impl Default for ListenerOptions {
    /// TCP only, on `[::]:0`, no UPnP, no announce-port override, dual-stack.
    fn default() -> (res: Self)
        ensures
            res.mode is TcpOnly,
            res.listen_addr == (ListenAddr::V6 { ip: 0, port: 0, flowinfo: 0, scope_id: 0 }),
            !res.enable_upnp_port_forwarding,
            res.announce_port is None,
            !res.ipv4_only,
    {
        ListenerOptions {
            mode: ListenerMode::TcpOnly,
            listen_addr: ListenAddr::V6 { ip: 0, port: 0, flowinfo: 0, scope_id: 0 },
            enable_upnp_port_forwarding: false,
            announce_port: None,
            ipv4_only: false,
        }
    }
}

/// The address the listeners are first bound to: with `ipv4_only`, a request
/// for the IPv6 unspecified address becomes the IPv4 unspecified address on
/// the same port; any other address is kept.
pub open spec fn spec_effective_listen_addr(opts: ListenerOptions) -> ListenAddr {
    if opts.ipv4_only && opts.listen_addr.is_ipv6() && opts.listen_addr.ip_is_unspecified() {
        ListenAddr::V4 { ip: 0, port: opts.listen_addr.port() }
    } else {
        opts.listen_addr
    }
}

/// The port announced to peers: the configured one if any, otherwise none for
/// a loopback address and the bound port for any other address.
pub open spec fn spec_announce_port(opts: ListenerOptions, bound: ListenAddr) -> Option<u16> {
    match opts.announce_port {
        Some(p) => Some(p),
        None => if bound.ip_is_loopback() {
            None
        } else {
            Some(bound.port())
        },
    }
}

impl ListenerOptions {
    /// The address the listeners are first bound to.
    pub fn effective_listen_addr(&self) -> (res: ListenAddr)
        ensures
            res == spec_effective_listen_addr(*self),
    {
        if self.ipv4_only && self.listen_addr.is_ipv6() && self.listen_addr.ip_is_unspecified() {
            ListenAddr::V4 { ip: 0, port: self.listen_addr.port() }
        } else {
            self.listen_addr
        }
    }

    /// The port announced to peers once the listeners are bound to `bound`.
    pub fn announce_port_for(&self, bound: &ListenAddr) -> (res: Option<u16>)
        ensures
            res == spec_announce_port(*self, *bound),
    {
        if let Some(p) = self.announce_port {
            Some(p)
        } else if bound.ip_is_loopback() {
            None
        } else {
            Some(bound.port())
        }
    }
}


/// Where a listener start-up stands.
#[derive(Debug, Clone, Copy, PartialEq, Eq, Structural)]
pub enum ListenPhase {
    /// Waiting for the outcome of binding the TCP listener.
    AwaitingTcp,
    /// Waiting for the outcome of binding the uTP socket.
    AwaitingUtp,
    /// Start-up is complete.
    Finished,
    /// Start-up was abandoned.
    Failed,
}

/// The state of a listener start-up between two socket operations.
#[derive(Debug, Clone, Copy)]
pub struct ListenState {
    pub options: ListenerOptions,
    /// The address known so far: the requested one, then what was bound.
    pub addr: ListenAddr,
    pub tcp_bound: bool,
    pub utp_bound: bool,
    pub phase: ListenPhase,
}

/// The outcome of a socket operation, reported back to the state machine.
#[derive(Debug, Clone, Copy)]
pub enum ListenEvent {
    /// The TCP listener is bound to this local address.
    TcpBound(ListenAddr),
    TcpFailed,
    /// The uTP socket is bound to this local address.
    UtpBound(ListenAddr),
    UtpFailed,
}

/// What the listeners ended up as.
#[derive(Debug, Clone, Copy)]
pub struct ListenSummary {
    pub addr: ListenAddr,
    pub announce_port: Option<u16>,
    pub enable_upnp_port_forwarding: bool,
    pub tcp: bool,
    pub utp: bool,
}

/// The next thing to do.
#[derive(Debug, Clone, Copy)]
pub enum ListenAction {
    /// Bind a TCP listener on `addr`, asking for a dual-stack socket or not.
    BindTcp { addr: ListenAddr, request_dualstack: bool },
    /// Bind a uTP socket on `addr`.
    BindUtp { addr: ListenAddr },
    /// Start-up is complete.
    Finish(ListenSummary),
    /// Start-up failed; the error of the last socket operation is the answer.
    Fail,
}

/// The outcome of start-up with the given bound address and sockets.
pub open spec fn spec_finish(opts: ListenerOptions, addr: ListenAddr, tcp: bool, utp: bool) -> (ListenState, ListenAction) {
    (
        ListenState { options: opts, addr, tcp_bound: tcp, utp_bound: utp, phase: ListenPhase::Finished },
        ListenAction::Finish(ListenSummary {
            addr,
            announce_port: spec_announce_port(opts, addr),
            enable_upnp_port_forwarding: opts.enable_upnp_port_forwarding,
            tcp,
            utp,
        }),
    )
}

/// The uTP stage, reached with the address known so far: bind uTP if the mode
/// asks for it, otherwise finish.
pub open spec fn spec_utp_stage(opts: ListenerOptions, addr: ListenAddr, tcp: bool) -> (ListenState, ListenAction) {
    if opts.mode.utp_enabled() {
        (
            ListenState { options: opts, addr, tcp_bound: tcp, utp_bound: false, phase: ListenPhase::AwaitingUtp },
            ListenAction::BindUtp { addr },
        )
    } else {
        spec_finish(opts, addr, tcp, false)
    }
}

/// The state after a failure.
pub open spec fn spec_failed(state: ListenState) -> (ListenState, ListenAction) {
    (ListenState { phase: ListenPhase::Failed, ..state }, ListenAction::Fail)
}

/// The first step of start-up: bind TCP if the mode asks for it (dual-stack
/// unless IPv4 only), otherwise go straight to the uTP stage.
pub open spec fn spec_start(opts: ListenerOptions) -> (ListenState, ListenAction) {
    let addr = spec_effective_listen_addr(opts);
    if opts.mode.tcp_enabled() {
        (
            ListenState { options: opts, addr, tcp_bound: false, utp_bound: false, phase: ListenPhase::AwaitingTcp },
            ListenAction::BindTcp { addr, request_dualstack: !opts.ipv4_only },
        )
    } else {
        spec_utp_stage(opts, addr, false)
    }
}

/// One step of start-up. A bound TCP listener moves on to the uTP stage with
/// its local address; a failed one fails start-up. A bound uTP socket finishes
/// with its local address; a failed one is tolerated only when a TCP listener
/// is already bound. An event that the phase does not wait for fails start-up.
pub open spec fn spec_on_event(state: ListenState, event: ListenEvent) -> (ListenState, ListenAction) {
    match (state.phase, event) {
        (ListenPhase::AwaitingTcp, ListenEvent::TcpBound(local)) => spec_utp_stage(state.options, local, true),
        (ListenPhase::AwaitingUtp, ListenEvent::UtpBound(local)) =>
            spec_finish(state.options, local, state.tcp_bound, true),
        (ListenPhase::AwaitingUtp, ListenEvent::UtpFailed) => if state.tcp_bound {
            spec_finish(state.options, state.addr, true, false)
        } else {
            spec_failed(state)
        },
        _ => spec_failed(state),
    }
}

impl ListenState {
    /// The states that start-up passes through: TCP is awaited only when the
    /// mode asks for it and nothing is bound yet; uTP is awaited only when the
    /// mode asks for it, with TCP bound exactly when the mode asked for TCP; a
    /// finished start-up has at least one socket.
    pub open spec fn wf(&self) -> bool {
        match self.phase {
            ListenPhase::AwaitingTcp => self.options.mode.tcp_enabled() && !self.tcp_bound
                && !self.utp_bound,
            ListenPhase::AwaitingUtp => self.options.mode.utp_enabled() && !self.utp_bound
                && self.tcp_bound == self.options.mode.tcp_enabled(),
            ListenPhase::Finished => self.tcp_bound || self.utp_bound,
            ListenPhase::Failed => true,
        }
    }

    fn finish(opts: ListenerOptions, addr: ListenAddr, tcp: bool, utp: bool) -> (res: (ListenState, ListenAction))
        ensures
            res == spec_finish(opts, addr, tcp, utp),
    {
        let announce_port = opts.announce_port_for(&addr);
        (
            ListenState { options: opts, addr, tcp_bound: tcp, utp_bound: utp, phase: ListenPhase::Finished },
            ListenAction::Finish(ListenSummary {
                addr,
                announce_port,
                enable_upnp_port_forwarding: opts.enable_upnp_port_forwarding,
                tcp,
                utp,
            }),
        )
    }

    fn utp_stage(opts: ListenerOptions, addr: ListenAddr, tcp: bool) -> (res: (ListenState, ListenAction))
        ensures
            res == spec_utp_stage(opts, addr, tcp),
    {
        if opts.mode.utp_enabled() {
            (
                ListenState { options: opts, addr, tcp_bound: tcp, utp_bound: false, phase: ListenPhase::AwaitingUtp },
                ListenAction::BindUtp { addr },
            )
        } else {
            Self::finish(opts, addr, tcp, false)
        }
    }

    /// Advances start-up by the outcome of the last socket operation.
    pub fn on_event(self, event: ListenEvent) -> (res: (ListenState, ListenAction))
        ensures
            res == spec_on_event(self, event),
            self.wf() ==> res.0.wf(),
            self.wf() ==> (res.1 matches ListenAction::Finish(s) ==> s.tcp || s.utp),
    {
        match (self.phase, event) {
            (ListenPhase::AwaitingTcp, ListenEvent::TcpBound(local)) => Self::utp_stage(self.options, local, true),
            (ListenPhase::AwaitingUtp, ListenEvent::UtpBound(local)) =>
                Self::finish(self.options, local, self.tcp_bound, true),
            (ListenPhase::AwaitingUtp, ListenEvent::UtpFailed) => {
                if self.tcp_bound {
                    Self::finish(self.options, self.addr, true, false)
                } else {
                    (ListenState { phase: ListenPhase::Failed, ..self }, ListenAction::Fail)
                }
            },
            _ => (ListenState { phase: ListenPhase::Failed, ..self }, ListenAction::Fail),
        }
    }
}

impl ListenerOptions {
    /// Begins listener start-up: the first state and the first socket
    /// operation to perform.
    pub fn start(&self) -> (res: (ListenState, ListenAction))
        ensures
            res == spec_start(*self),
            res.0.wf(),
            res.1 matches ListenAction::Finish(s) ==> s.tcp || s.utp,
    {
        let addr = self.effective_listen_addr();
        if self.mode.tcp_enabled() {
            (
                ListenState { options: *self, addr, tcp_bound: false, utp_bound: false, phase: ListenPhase::AwaitingTcp },
                ListenAction::BindTcp { addr, request_dualstack: !self.ipv4_only },
            )
        } else {
            ListenState::utp_stage(*self, addr, false)
        }
    }
}


/// The first bind address keeps the requested port; an IPv4-only listener is
/// never asked to bind the IPv6 unspecified address; without `ipv4_only` the
/// requested address is used as it is.
pub proof fn lemma_effective_listen_addr(opts: ListenerOptions)
    ensures
        spec_effective_listen_addr(opts).port() == opts.listen_addr.port(),
        opts.ipv4_only ==> !(spec_effective_listen_addr(opts).is_ipv6()
            && spec_effective_listen_addr(opts).ip_is_unspecified()),
        !opts.ipv4_only ==> spec_effective_listen_addr(opts) == opts.listen_addr,
        !(opts.listen_addr.is_ipv6() && opts.listen_addr.ip_is_unspecified()) ==> spec_effective_listen_addr(
            opts,
        ) == opts.listen_addr,
        (opts.ipv4_only && opts.listen_addr.is_ipv6() && opts.listen_addr.ip_is_unspecified())
            ==> spec_effective_listen_addr(opts) == (ListenAddr::V4 { ip: 0, port: opts.listen_addr.port() }),
        spec_start(opts).1 matches ListenAction::BindTcp { addr, .. } ==> addr == spec_effective_listen_addr(opts),
        spec_start(opts).1 matches ListenAction::BindUtp { addr } ==> addr == spec_effective_listen_addr(opts),
{
}

/// A configured announce port is always the one announced; without one,
/// nothing is announced exactly when the bound address is a loopback address,
/// and otherwise the bound port is.
pub proof fn lemma_announce_port(opts: ListenerOptions, bound: ListenAddr)
    ensures
        opts.announce_port is Some ==> spec_announce_port(opts, bound) == opts.announce_port,
        opts.announce_port is None ==> (spec_announce_port(opts, bound) is None <==> bound.ip_is_loopback()),
        (opts.announce_port is None && !bound.ip_is_loopback()) ==> spec_announce_port(opts, bound) == Some(
            bound.port(),
        ),
{
}

/// A failed uTP socket aborts start-up exactly when no TCP listener is open,
/// that is, when the mode asks for uTP alone.
pub proof fn lemma_utp_failure_is_fatal_without_tcp(state: ListenState)
    requires
        state.wf(),
        state.phase == ListenPhase::AwaitingUtp,
    ensures
        (spec_on_event(state, ListenEvent::UtpFailed).1 is Fail) <==> !state.options.mode.tcp_enabled(),
        !(spec_on_event(state, ListenEvent::UtpFailed).1 is Fail) ==> spec_on_event(
            state,
            ListenEvent::UtpFailed,
        ).1 == (ListenAction::Finish(
            ListenSummary {
                addr: state.addr,
                announce_port: spec_announce_port(state.options, state.addr),
                enable_upnp_port_forwarding: state.options.enable_upnp_port_forwarding,
                tcp: true,
                utp: false,
            },
        )),
{
}

/// A TCP listener is asked for a dual-stack socket exactly when the listener
/// is not IPv4 only, and it is bound first whenever the mode asks for TCP.
pub proof fn lemma_start_binds_tcp_first(opts: ListenerOptions)
    ensures
        opts.mode.tcp_enabled() <==> (spec_start(opts).1 is BindTcp),
        spec_start(opts).1 matches ListenAction::BindTcp { addr, request_dualstack } ==> (addr
            == spec_effective_listen_addr(opts) && request_dualstack == !opts.ipv4_only),
        !opts.mode.tcp_enabled() ==> spec_start(opts).1 == (ListenAction::BindUtp {
            addr: spec_effective_listen_addr(opts),
        }),
{
}


/// Once the TCP listener is bound, the uTP socket (where the mode asks for
/// one) is bound on the very address the TCP listener got, so both share the
/// port; without uTP, start-up finishes on that address.
pub proof fn lemma_utp_follows_tcp_address(state: ListenState, local: ListenAddr)
    requires
        state.wf(),
        state.phase == ListenPhase::AwaitingTcp,
    ensures
        state.options.mode.utp_enabled() ==> spec_on_event(state, ListenEvent::TcpBound(local)).1 == (
        ListenAction::BindUtp { addr: local }),
        !state.options.mode.utp_enabled() ==> (spec_on_event(state, ListenEvent::TcpBound(local)).1 matches ListenAction::Finish(s) && s.addr == local && s.tcp && !s.utp),
{
}


/// The port announced for a finished start-up on `addr`: the configured one,
/// else none on a loopback address, else the port of `addr`.
pub proof fn lemma_finish_announces_reported_port(state: ListenState, event: ListenEvent, opts: ListenerOptions)
    requires
        state.wf(),
    ensures
        spec_on_event(state, event).0.options == state.options,
        spec_start(opts).0.options == opts,
        spec_on_event(state, event).1 matches ListenAction::Finish(s) ==> (s.announce_port == (match state.options.announce_port {
            Some(p) => Some(p),
            None => if s.addr.ip_is_loopback() {
                None
            } else {
                Some(s.addr.port())
            },
        }) && s.enable_upnp_port_forwarding == state.options.enable_upnp_port_forwarding),
        spec_start(opts).1 matches ListenAction::Finish(s) ==> (s.announce_port == (match opts.announce_port {
            Some(p) => Some(p),
            None => if s.addr.ip_is_loopback() {
                None
            } else {
                Some(s.addr.port())
            },
        }) && s.enable_upnp_port_forwarding == opts.enable_upnp_port_forwarding),
{
}

/// Once the TCP listener is bound to `local`, `local` is the address known:
/// the next state holds it, uTP (where asked for) is bound there, and a
/// start-up that then finishes, with or without uTP, reports `local` and the
/// port bound there.
pub proof fn lemma_tcp_bound_address_is_kept(state: ListenState, local: ListenAddr, utp_local: ListenAddr)
    requires
        state.wf(),
        state.phase == ListenPhase::AwaitingTcp,
        state.options.announce_port is None,
        !local.ip_is_loopback(),
    ensures
        spec_on_event(state, ListenEvent::TcpBound(local)).0.addr == local,
        spec_on_event(state, ListenEvent::TcpBound(local)).0.tcp_bound,
        state.options.mode.utp_enabled() ==> (spec_on_event(
            spec_on_event(state, ListenEvent::TcpBound(local)).0,
            ListenEvent::UtpFailed,
        ).1 matches ListenAction::Finish(s) && s.addr == local && s.announce_port == Some(local.port())
            && s.tcp && !s.utp),
        state.options.mode.utp_enabled() ==> (spec_on_event(
            spec_on_event(state, ListenEvent::TcpBound(local)).0,
            ListenEvent::UtpBound(utp_local),
        ).1 matches ListenAction::Finish(s) && s.addr == utp_local && s.tcp && s.utp),
        !state.options.mode.utp_enabled() ==> (spec_on_event(state, ListenEvent::TcpBound(local)).1 matches ListenAction::Finish(s)
            && s.addr == local && s.announce_port == Some(local.port()) && s.tcp && !s.utp),
{
}

/// A whole start-up in the combined mode where TCP binds to `local` and uTP
/// then fails finishes on `local`, announcing the port bound there (or the
/// configured one).
pub proof fn lemma_combined_start_survives_utp_failure(opts: ListenerOptions, local: ListenAddr)
    requires
        opts.mode is TcpAndUtp,
    ensures
        spec_start(opts).1 == (ListenAction::BindTcp {
            addr: spec_effective_listen_addr(opts),
            request_dualstack: !opts.ipv4_only,
        }),
        spec_on_event(spec_start(opts).0, ListenEvent::TcpBound(local)).1 == (ListenAction::BindUtp { addr: local }),
        spec_on_event(spec_on_event(spec_start(opts).0, ListenEvent::TcpBound(local)).0, ListenEvent::UtpFailed).1 matches ListenAction::Finish(s)
            && s.addr == local && s.tcp && !s.utp && s.announce_port == (match opts.announce_port {
                Some(p) => Some(p),
                None => if local.ip_is_loopback() {
                    None
                } else {
                    Some(local.port())
                },
            }),
{
}


/// An IPv4 address is a loopback address exactly when its first octet is 127;
/// an IPv6 one exactly when it is `::1`. The unspecified addresses are the
/// all-zero ones, and the port is the address's own.
pub proof fn lemma_address_predicates(ip4: u32, ip6: u128, port: u16, flowinfo: u32, scope_id: u32)
    ensures
        (ListenAddr::V4 { ip: ip4, port }).ip_is_loopback() <==> ip4 / 0x100_0000 == 127,
        (ListenAddr::V6 { ip: ip6, port, flowinfo, scope_id }).ip_is_loopback() <==> ip6 == 1,
        (ListenAddr::V4 { ip: ip4, port }).ip_is_unspecified() <==> ip4 == 0,
        (ListenAddr::V6 { ip: ip6, port, flowinfo, scope_id }).ip_is_unspecified() <==> ip6 == 0,
        (ListenAddr::V4 { ip: ip4, port }).port() == port,
        (ListenAddr::V6 { ip: ip6, port, flowinfo, scope_id }).port() == port,
        !(ListenAddr::V4 { ip: ip4, port }).is_ipv6(),
        (ListenAddr::V6 { ip: ip6, port, flowinfo, scope_id }).is_ipv6(),
{
}

} // verus!
