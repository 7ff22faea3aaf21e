//! Startup configuration, the connection state machine, and address
//! binding.

use wifi_led::config::{static_policy_from_strings, AddressingPolicy, ConfigError, Credentials};
use wifi_led::conn::{
    ConnectionState, ConnectivityManager, RadioAction, RadioEvent, WifiMode, RETRY_DELAY_MS,
};
use wifi_led::ipv4::{Ipv4Address, Ipv4Cidr};
use wifi_led::netstack::{BindPhase, NetAction, NetEvent, NetworkStack, StackHandle, POLL_INTERVAL_MS};

fn addr(o1: u8, o2: u8, o3: u8, o4: u8) -> Ipv4Address {
    Ipv4Address { o1, o2, o3, o4 }
}

#[test]
fn credentials_accept_bounded_values() {
    let c = Credentials::new(b"HomeNetwork".to_vec(), b"hunter2hunter2".to_vec()).unwrap();
    assert_eq!(c.ssid().as_slice(), b"HomeNetwork");
    assert_eq!(c.password().as_slice(), b"hunter2hunter2");
}

#[test]
fn credentials_reject_oversized_ssid() {
    let long_ssid = vec![b'a'; 33];
    assert_eq!(
        Credentials::new(long_ssid, b"pw".to_vec()).unwrap_err(),
        ConfigError::SsidTooLong
    );
    let max_ssid = vec![b'a'; 32];
    assert!(Credentials::new(max_ssid, b"pw".to_vec()).is_ok());
}

#[test]
fn credentials_reject_oversized_password() {
    let long_pw = vec![b'p'; 65];
    assert_eq!(
        Credentials::new(b"net".to_vec(), long_pw).unwrap_err(),
        ConfigError::PasswordTooLong
    );
    let max_pw = vec![b'p'; 64];
    assert!(Credentials::new(b"net".to_vec(), max_pw).is_ok());
}

#[test]
fn static_policy_binds_exact_parsed_values() {
    let p = static_policy_from_strings(b"192.168.0.50/24", b"192.168.0.1").unwrap();
    assert_eq!(
        p,
        AddressingPolicy::StaticV4 {
            address: Ipv4Cidr { address: addr(192, 168, 0, 50), prefix_len: 24 },
            gateway: addr(192, 168, 0, 1),
        }
    );
}

#[test]
fn static_policy_fails_before_any_network_task() {
    assert_eq!(
        static_policy_from_strings(b"192.168.0.256/24", b"192.168.0.1").unwrap_err(),
        ConfigError::InvalidStaticIp
    );
    assert_eq!(
        static_policy_from_strings(b"192.168.0.50", b"192.168.0.1").unwrap_err(),
        ConfigError::InvalidStaticIp
    );
    assert_eq!(
        static_policy_from_strings(b"192.168.0.50/24", b"192.168.0").unwrap_err(),
        ConfigError::InvalidGateway
    );
    assert_eq!(
        static_policy_from_strings(b"192.168.0.50/24", b"gateway").unwrap_err(),
        ConfigError::InvalidGateway
    );
}

#[test]
fn station_connects_on_first_attempt() {
    let mut m = ConnectivityManager::new(WifiMode::Station);
    assert_eq!(m.state(), ConnectionState::Idle);
    assert_eq!(m.step(RadioEvent::Boot), RadioAction::StartRadio);
    assert_eq!(m.state(), ConnectionState::Starting);
    assert_eq!(m.step(RadioEvent::Started), RadioAction::Connect);
    assert_eq!(m.state(), ConnectionState::Connecting);
    assert_eq!(m.step(RadioEvent::ConnectSucceeded), RadioAction::AwaitLinkDown);
    assert_eq!(m.state(), ConnectionState::Connected);
}

#[test]
fn station_retries_exactly_twice_before_connecting() {
    let mut m = ConnectivityManager::new(WifiMode::Station);
    m.step(RadioEvent::Boot);
    m.step(RadioEvent::Started);
    // The mock radio refuses the first two connect attempts.
    let mut waits: usize = 0;
    for _ in 0..2 {
        let a = m.step(RadioEvent::ConnectFailed);
        assert_eq!(a, RadioAction::Wait(RETRY_DELAY_MS));
        assert_eq!(m.state(), ConnectionState::Connecting);
        waits += 1;
        assert_eq!(m.step(RadioEvent::DelayElapsed), RadioAction::Connect);
    }
    assert_eq!(waits, 2);
    assert_eq!(m.step(RadioEvent::ConnectSucceeded), RadioAction::AwaitLinkDown);
    assert_eq!(m.state(), ConnectionState::Connected);
    assert_eq!(RETRY_DELAY_MS, 5000);
}

#[test]
fn access_point_reaches_connected_without_connect_step() {
    let mut m = ConnectivityManager::new(WifiMode::AccessPoint);
    assert_eq!(m.step(RadioEvent::Boot), RadioAction::StartRadio);
    assert_eq!(m.step(RadioEvent::Started), RadioAction::AwaitLinkDown);
    assert_eq!(m.state(), ConnectionState::Connected);
}

#[test]
fn disconnect_reenters_connecting_after_delay() {
    let mut m = ConnectivityManager::new(WifiMode::Station);
    m.step(RadioEvent::Boot);
    m.step(RadioEvent::Started);
    m.step(RadioEvent::ConnectSucceeded);
    assert_eq!(m.state(), ConnectionState::Connected);
    // The link drops; nobody intervenes.
    let a = m.step(RadioEvent::LinkDown { radio_started: true });
    assert_eq!(a, RadioAction::Wait(5000));
    assert_eq!(m.state(), ConnectionState::Disconnected);
    assert_eq!(m.step(RadioEvent::DelayElapsed), RadioAction::Connect);
    assert_eq!(m.state(), ConnectionState::Connecting);
}

#[test]
fn disconnect_with_stopped_radio_restarts_it() {
    let mut m = ConnectivityManager::new(WifiMode::AccessPoint);
    m.step(RadioEvent::Boot);
    m.step(RadioEvent::Started);
    m.step(RadioEvent::LinkDown { radio_started: false });
    assert_eq!(m.state(), ConnectionState::Disconnected);
    assert_eq!(m.step(RadioEvent::DelayElapsed), RadioAction::StartRadio);
    assert_eq!(m.state(), ConnectionState::Starting);
}

#[test]
fn static_stack_binds_exact_handle_on_link_up() {
    let policy = static_policy_from_strings(b"192.168.0.50/24", b"192.168.0.1").unwrap();
    let mut stack = NetworkStack::new(policy);
    assert_eq!(stack.phase(), BindPhase::WaitingForLink);
    assert_eq!(stack.handle(), None);
    // Link still down: only the fixed poll interval.
    assert_eq!(
        stack.step(NetEvent::LinkStatus { up: false }),
        NetAction::Poll(POLL_INTERVAL_MS)
    );
    assert_eq!(stack.handle(), None);
    assert_eq!(stack.step(NetEvent::LinkStatus { up: true }), NetAction::Ready);
    assert_eq!(stack.phase(), BindPhase::Bound);
    assert_eq!(
        stack.handle(),
        Some(StackHandle {
            address: Ipv4Cidr { address: addr(192, 168, 0, 50), prefix_len: 24 },
            gateway: Some(addr(192, 168, 0, 1)),
        })
    );
    assert_eq!(POLL_INTERVAL_MS, 500);
}

#[test]
fn dhcp_stack_polls_until_lease() {
    let mut stack = NetworkStack::new(AddressingPolicy::Dhcp);
    assert_eq!(
        stack.step(NetEvent::LinkStatus { up: true }),
        NetAction::Poll(POLL_INTERVAL_MS)
    );
    assert_eq!(stack.phase(), BindPhase::WaitingForAddress);
    assert_eq!(
        stack.step(NetEvent::LeaseStatus { lease: None }),
        NetAction::Poll(POLL_INTERVAL_MS)
    );
    let lease = StackHandle {
        address: Ipv4Cidr { address: addr(10, 0, 0, 9), prefix_len: 16 },
        gateway: Some(addr(10, 0, 0, 1)),
    };
    assert_eq!(stack.step(NetEvent::LeaseStatus { lease: Some(lease) }), NetAction::Ready);
    assert_eq!(stack.handle(), Some(lease));
}
