//! The network stack: binds an address to the live transport once the
//! link is up and publishes a stable, shareable handle.
//!
//! As with the connectivity manager, the stack decides and the caller
//! performs the transport work: each call of [`NetworkStack::step`]
//! consumes one observation (link status, or what the DHCP client
//! reports) and returns either the fixed poll delay or the news that the
//! handle is ready. Static addressing binds the pre-parsed values the
//! moment the link is up; DHCP polls until a lease arrives, with no
//! bound, by design.

use vstd::prelude::*;

use crate::config::AddressingPolicy;
use crate::ipv4::{Ipv4Address, Ipv4Cidr};

verus! {

/// Fixed interval between link-up and lease polls, in milliseconds.
pub const POLL_INTERVAL_MS: u64 = 500;

/// The bound interface's addressing metadata: a shareable, immutable
/// handle, valid from the moment it is published until the process ends.
/// Actual I/O goes through per-connection sockets, never through this.
#[derive(Clone, Copy, Debug, PartialEq, Eq, Structural)]
pub struct StackHandle {
    /// The interface's address and prefix length.
    pub address: Ipv4Cidr,
    /// The default gateway, where one is known.
    pub gateway: Option<Ipv4Address>,
}

/// Where the stack stands on its way to a bound address.
#[derive(Clone, Copy, Debug, PartialEq, Eq, Structural)]
pub enum BindPhase {
    /// The link is not yet up.
    WaitingForLink,
    /// The link is up; a DHCP lease is still outstanding.
    WaitingForAddress,
    /// An address is bound and the handle is published.
    Bound,
}

/// One observation handed to the stack by the caller.
#[derive(Clone, Copy, Debug, PartialEq, Eq, Structural)]
pub enum NetEvent {
    /// Whether the radio currently reports the link as up.
    LinkStatus { up: bool },
    /// What the DHCP client currently reports: a lease, or none yet.
    LeaseStatus { lease: Option<StackHandle> },
}

/// What the caller must do next.
#[derive(Clone, Copy, Debug, PartialEq, Eq, Structural)]
pub enum NetAction {
    /// Wait the given number of milliseconds, then report the next
    /// observation.
    Poll(u64),
    /// The handle is published; workers may start.
    Ready,
}

/// Binds an address to the live transport according to the addressing
/// policy chosen at startup.
pub struct NetworkStack {
    policy: AddressingPolicy,
    phase: BindPhase,
    handle: Option<StackHandle>,
}

/// The handle a static policy publishes: exactly the pre-parsed address
/// and gateway. A DHCP policy has no predetermined handle.
pub open spec fn static_handle(policy: AddressingPolicy) -> Option<StackHandle> {
    match policy {
        AddressingPolicy::StaticV4 { address, gateway } => Some(
            StackHandle { address, gateway: Some(gateway) },
        ),
        AddressingPolicy::Dhcp => None,
    }
}

/// The successor phase when the stack in `phase` under `policy` consumes
/// `event`.
pub open spec fn bind_next_phase(
    policy: AddressingPolicy,
    phase: BindPhase,
    event: NetEvent,
) -> BindPhase {
    match (phase, event) {
        (BindPhase::WaitingForLink, NetEvent::LinkStatus { up: true }) => match policy {
            AddressingPolicy::StaticV4 { .. } => BindPhase::Bound,
            AddressingPolicy::Dhcp => BindPhase::WaitingForAddress,
        },
        (BindPhase::WaitingForAddress, NetEvent::LeaseStatus { lease: Some(_) }) => BindPhase::Bound,
        _ => phase,
    }
}

/// The handle published after the stack in `phase` under `policy`, so far
/// holding `handle`, consumes `event`.
pub open spec fn bind_next_handle(
    policy: AddressingPolicy,
    phase: BindPhase,
    handle: Option<StackHandle>,
    event: NetEvent,
) -> Option<StackHandle> {
    match (phase, event) {
        (BindPhase::WaitingForLink, NetEvent::LinkStatus { up: true }) => match policy {
            AddressingPolicy::StaticV4 { .. } => static_handle(policy),
            AddressingPolicy::Dhcp => None,
        },
        (BindPhase::WaitingForAddress, NetEvent::LeaseStatus { lease: Some(lease) }) => Some(lease),
        _ => handle,
    }
}

/// The action owed after the stack in `phase` consumes `event`.
pub open spec fn bind_action(policy: AddressingPolicy, phase: BindPhase, event: NetEvent) -> NetAction {
    if bind_next_phase(policy, phase, event) is Bound {
        NetAction::Ready
    } else {
        NetAction::Poll(POLL_INTERVAL_MS as u64)
    }
}

impl NetworkStack {
    /// The addressing policy this stack was created with.
    pub closed spec fn spec_policy(&self) -> AddressingPolicy {
        self.policy
    }

    /// The current bind phase.
    pub closed spec fn spec_phase(&self) -> BindPhase {
        self.phase
    }

    /// The published handle, if any.
    pub closed spec fn spec_handle(&self) -> Option<StackHandle> {
        self.handle
    }

    /// The stack's invariant: a handle is published exactly once the
    /// phase is `Bound`, and under a static policy the published handle
    /// holds exactly the configured values.
    pub open spec fn wf(&self) -> bool {
        &&& (self.spec_handle() is Some <==> self.spec_phase() is Bound)
        &&& (self.spec_phase() is Bound && self.spec_policy() is StaticV4 ==> self.spec_handle()
            == static_handle(self.spec_policy()))
        &&& (self.spec_phase() is WaitingForAddress ==> self.spec_policy() is Dhcp)
    }

    /// A fresh stack: nothing bound, waiting for the link.
    pub fn new(policy: AddressingPolicy) -> (r: NetworkStack)
        ensures
            r.spec_policy() == policy,
            r.spec_phase() == BindPhase::WaitingForLink,
            r.spec_handle() is None,
            r.wf(),
    {
        NetworkStack { policy, phase: BindPhase::WaitingForLink, handle: None }
    }

    /// The current bind phase.
    pub fn phase(&self) -> (r: BindPhase)
        ensures
            r == self.spec_phase(),
    {
        self.phase
    }

    /// The published handle. Callers may copy it freely; it never changes
    /// once published.
    pub fn handle(&self) -> (r: Option<StackHandle>)
        ensures
            r == self.spec_handle(),
    {
        self.handle
    }

    /// Consume one observation and return the action the caller owes:
    /// the fixed poll delay until the phase reaches `Bound`, and `Ready`
    /// from then on. The transition relation is pinned by
    /// [`bind_next_phase`] and [`bind_next_handle`].
    pub fn step(&mut self, event: NetEvent) -> (action: NetAction)
        requires
            old(self).wf(),
        ensures
            final(self).wf(),
            final(self).spec_policy() == old(self).spec_policy(),
            final(self).spec_phase() == bind_next_phase(
                old(self).spec_policy(),
                old(self).spec_phase(),
                event,
            ),
            final(self).spec_handle() == bind_next_handle(
                old(self).spec_policy(),
                old(self).spec_phase(),
                old(self).spec_handle(),
                event,
            ),
            action == bind_action(old(self).spec_policy(), old(self).spec_phase(), event),
    {
        match (self.phase, event) {
            (BindPhase::WaitingForLink, NetEvent::LinkStatus { up: true }) => {
                match self.policy {
                    AddressingPolicy::StaticV4 { address, gateway } => {
                        self.handle = Some(StackHandle { address, gateway: Some(gateway) });
                        self.phase = BindPhase::Bound;
                        NetAction::Ready
                    },
                    AddressingPolicy::Dhcp => {
                        self.phase = BindPhase::WaitingForAddress;
                        NetAction::Poll(POLL_INTERVAL_MS)
                    },
                }
            },
            (BindPhase::WaitingForAddress, NetEvent::LeaseStatus { lease: Some(lease) }) => {
                self.handle = Some(lease);
                self.phase = BindPhase::Bound;
                NetAction::Ready
            },
            _ => {
                if self.phase == BindPhase::Bound {
                    NetAction::Ready
                } else {
                    NetAction::Poll(POLL_INTERVAL_MS)
                }
            },
        }
    }
}

/// Law: under a static policy, the single link-up observation moves the
/// stack from waiting to bound, publishes exactly the configured address,
/// prefix and gateway, and reports it ready; while the link stays down
/// the stack only re-polls at the fixed interval.
pub proof fn lemma_static_binds_exact(address: Ipv4Cidr, gateway: Ipv4Address)
    ensures
        bind_next_phase(
            AddressingPolicy::StaticV4 { address, gateway },
            BindPhase::WaitingForLink,
            NetEvent::LinkStatus { up: true },
        ) == BindPhase::Bound,
        bind_next_handle(
            AddressingPolicy::StaticV4 { address, gateway },
            BindPhase::WaitingForLink,
            None,
            NetEvent::LinkStatus { up: true },
        ) == Some(StackHandle { address, gateway: Some(gateway) }),
        bind_action(
            AddressingPolicy::StaticV4 { address, gateway },
            BindPhase::WaitingForLink,
            NetEvent::LinkStatus { up: true },
        ) == NetAction::Ready,
        bind_next_phase(
            AddressingPolicy::StaticV4 { address, gateway },
            BindPhase::WaitingForLink,
            NetEvent::LinkStatus { up: false },
        ) == BindPhase::WaitingForLink,
        bind_action(
            AddressingPolicy::StaticV4 { address, gateway },
            BindPhase::WaitingForLink,
            NetEvent::LinkStatus { up: false },
        ) == NetAction::Poll(POLL_INTERVAL_MS as u64),
{
}

/// The program's panic handler: an unrecoverable fault halts the
/// device, forever. The endless idle loop cannot stand in verified
/// code; the driver performs the halt this orders.
pub fn panic() -> (r: crate::fault::Halt)
    ensures
        r == crate::fault::Halt::Forever,
{
    crate::fault::Halt::Forever
}

} // verus!
