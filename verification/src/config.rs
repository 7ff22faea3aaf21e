//! Startup configuration: bounded credentials and the addressing policy.
//!
//! Both are loaded once at startup. A malformed or oversized value is a
//! fatal configuration error: the constructors here refuse it before any
//! network work begins, and the caller halts.

use vstd::prelude::*;

use crate::ipv4::{parse_cidr, parse_cidr_spec, parse_ipv4, parse_ipv4_spec, Ipv4Address, Ipv4Cidr};

verus! {

/// The longest SSID the radio accepts, in bytes.
pub const MAX_SSID_LEN: usize = 32;

/// The longest password the radio accepts, in bytes.
pub const MAX_PASSWORD_LEN: usize = 64;

/// A fatal startup misconfiguration. There is no runtime remediation:
/// the process halts on any of these.
#[derive(Clone, Copy, Debug, PartialEq, Eq, Structural)]
pub enum ConfigError {
    /// The SSID does not fit the radio's bounded credential buffer.
    SsidTooLong,
    /// The password does not fit the radio's bounded credential buffer.
    PasswordTooLong,
    /// The static IP string is not a well-formed `address/prefix` CIDR.
    InvalidStaticIp,
    /// The gateway string is not a well-formed IPv4 address.
    InvalidGateway,
}

/// Immutable station or access-point credentials, loaded once at startup.
#[derive(Debug)]
pub struct Credentials {
    ssid: Vec<u8>,
    password: Vec<u8>,
}

impl Credentials {
    /// The SSID bytes.
    pub closed spec fn spec_ssid(&self) -> Seq<u8> {
        self.ssid@
    }

    /// The password bytes.
    pub closed spec fn spec_password(&self) -> Seq<u8> {
        self.password@
    }

    /// Both fields fit the radio's bounded buffers.
    pub open spec fn wf(&self) -> bool {
        self.spec_ssid().len() <= MAX_SSID_LEN && self.spec_password().len() <= MAX_PASSWORD_LEN
    }

    /// Accept the credentials exactly when both fit the radio's bounds;
    /// an oversized SSID is reported before an oversized password.
    pub fn new(ssid: Vec<u8>, password: Vec<u8>) -> (r: Result<Credentials, ConfigError>)
        ensures
            ssid@.len() > MAX_SSID_LEN ==> r == Err::<Credentials, ConfigError>(
                ConfigError::SsidTooLong,
            ),
            ssid@.len() <= MAX_SSID_LEN && password@.len() > MAX_PASSWORD_LEN ==> r
                == Err::<Credentials, ConfigError>(ConfigError::PasswordTooLong),
            ssid@.len() <= MAX_SSID_LEN && password@.len() <= MAX_PASSWORD_LEN ==> (r matches Ok(c)
                && c.spec_ssid() == ssid@ && c.spec_password() == password@ && c.wf()),
    {
        if ssid.len() > MAX_SSID_LEN {
            Err(ConfigError::SsidTooLong)
        } else if password.len() > MAX_PASSWORD_LEN {
            Err(ConfigError::PasswordTooLong)
        } else {
            Ok(Credentials { ssid, password })
        }
    }

    /// The SSID, for handing to the radio configuration.
    pub fn ssid(&self) -> (r: &Vec<u8>)
        ensures
            r@ == self.spec_ssid(),
    {
        &self.ssid
    }

    /// The password, for handing to the radio configuration.
    pub fn password(&self) -> (r: &Vec<u8>)
        ensures
            r@ == self.spec_password(),
    {
        &self.password
    }
}

/// How the network interface obtains its address: leased over DHCP, or
/// fixed at configuration time.
#[derive(Clone, Copy, Debug, PartialEq, Eq, Structural)]
pub enum AddressingPolicy {
    /// Lease an address from the network.
    Dhcp,
    /// Bind the pre-parsed address and gateway immediately.
    StaticV4 { address: Ipv4Cidr, gateway: Ipv4Address },
}

impl AddressingPolicy {
    /// A static policy carries a well-formed CIDR.
    pub open spec fn wf(&self) -> bool {
        match *self {
            AddressingPolicy::Dhcp => true,
            AddressingPolicy::StaticV4 { address, .. } => address.wf(),
        }
    }
}

/// Build the static addressing policy from the two startup strings.
/// Succeeds exactly when `static_ip` is a well-formed CIDR and
/// `gateway_ip` a well-formed IPv4 address, and then binds exactly the
/// parsed values; a bad CIDR is reported before a bad gateway.
pub fn static_policy_from_strings(static_ip: &[u8], gateway_ip: &[u8]) -> (r: Result<
    AddressingPolicy,
    ConfigError,
>)
    ensures
        parse_cidr_spec(static_ip@) is None ==> r == Err::<AddressingPolicy, ConfigError>(
            ConfigError::InvalidStaticIp,
        ),
        parse_cidr_spec(static_ip@) is Some && parse_ipv4_spec(gateway_ip@) is None ==> r
            == Err::<AddressingPolicy, ConfigError>(ConfigError::InvalidGateway),
        parse_cidr_spec(static_ip@) matches Some(address) ==> parse_ipv4_spec(
            gateway_ip@,
        ) matches Some(gateway) ==> r == Ok::<AddressingPolicy, ConfigError>(
            AddressingPolicy::StaticV4 { address, gateway },
        ),
        r matches Ok(p) ==> p.wf(),
{
    let Some(address) = parse_cidr(static_ip) else {
        return Err(ConfigError::InvalidStaticIp)
    };
    let Some(gateway) = parse_ipv4(gateway_ip) else { return Err(ConfigError::InvalidGateway) };
    Ok(AddressingPolicy::StaticV4 { address, gateway })
}

/// The program's panic handler: an unrecoverable fault halts the
/// device, forever. The endless idle loop cannot stand in verified
/// code; the driver performs the halt this orders.
pub fn panic() -> (r: crate::fault::Halt)
    ensures
        r == crate::fault::Halt::Forever,
{
    crate::fault::Halt::Forever
}

} // verus!
