//! What can go wrong: a registry that breaks its format, a target that is no
//! domain name or address, a domain with no server, a referral too many.

use vstd::prelude::*;
use vstd::string::StringExecFns;

verus! {

/// The rule of the registry format that a registry broke.
#[derive(Clone, Copy, Debug, PartialEq, Eq, Structural)]
pub enum MapFault {
    /// The server list is no object.
    ListNotObject,
    /// The server list has no `_` member.
    NoUnderscore,
    /// The `_` member is no object.
    UnderscoreNotObject,
    /// The `_` object has no `ip` member.
    NoIp,
    /// The `ip` member of the `_` object is null.
    IpNull,
    /// A server is neither an object nor a string.
    ValueNotObjectOrString,
    /// A server is a string that is no host.
    StringNotHost,
    /// A server is an object whose `host` is missing or no string.
    ObjectWithoutHost,
    /// A server is an object whose `host` is a string that is no host.
    ObjectHostNotHost,
    /// A server is an object whose `query` is no string.
    ObjectQueryNotString,
    /// A server is an object whose `punycode` is no boolean.
    ObjectPunycodeNotBool,
}

impl MapFault {
    /// The sentence that describes this fault.
    pub open spec fn text(self) -> Seq<char> {
        match self {
            MapFault::ListNotObject => "The server list is not an object."@,
            MapFault::NoUnderscore => "Cannot find `_` in the server list."@,
            MapFault::UnderscoreNotObject => "`_` in the server list is not an object."@,
            MapFault::NoIp => "Cannot find `ip` in the `_` object in the server list."@,
            MapFault::IpNull => "`ip` in the `_` object in the server list is null."@,
            MapFault::ValueNotObjectOrString => "The server value is not an object or a host string."@,
            MapFault::StringNotHost => "The server value is not a correct host string."@,
            MapFault::ObjectWithoutHost => "The server value is an object, but it has not a host string."@,
            MapFault::ObjectHostNotHost => "The server value is an object, but it has not a correct host string."@,
            MapFault::ObjectQueryNotString => "The server value is an object, but it has an incorrect query string."@,
            MapFault::ObjectPunycodeNotBool => "The server value is an object, but it has an incorrect punycode boolean value."@,
        }
    }

    /// The sentence that describes this fault.
    pub fn message(&self) -> (message: String)
        ensures
            message@ == self.text(),
    {
        match self {
            MapFault::ListNotObject => String::from_str("The server list is not an object."),
            MapFault::NoUnderscore => String::from_str("Cannot find `_` in the server list."),
            MapFault::UnderscoreNotObject => String::from_str("`_` in the server list is not an object."),
            MapFault::NoIp => String::from_str("Cannot find `ip` in the `_` object in the server list."),
            MapFault::IpNull => String::from_str("`ip` in the `_` object in the server list is null."),
            MapFault::ValueNotObjectOrString => String::from_str("The server value is not an object or a host string."),
            MapFault::StringNotHost => String::from_str("The server value is not a correct host string."),
            MapFault::ObjectWithoutHost => String::from_str("The server value is an object, but it has not a host string."),
            MapFault::ObjectHostNotHost => String::from_str("The server value is an object, but it has not a correct host string."),
            MapFault::ObjectQueryNotString => String::from_str("The server value is an object, but it has an incorrect query string."),
            MapFault::ObjectPunycodeNotBool => String::from_str("The server value is an object, but it has an incorrect punycode boolean value."),
        }
    }
}

/// Why a registry could not be built or a lookup could not go on.
#[derive(Debug)]
pub enum WhoIsError {
    /// The target is no domain name; the validator's reason is inside.
    DomainError(validators::domain::DomainError),
    /// The target is no IPv4 address; the validator's reason is inside.
    IPv4Error(validators::ipv4::IPv4Error),
    /// The target is no IPv6 address; the validator's reason is inside.
    IPv6Error(validators::ipv6::IPv6Error),
    /// The domain has no ASCII form; the reasons are inside.
    PunycodeError(idna::Errors),
    /// The registry breaks its format.
    MapError(MapFault),
    /// No suffix of the domain has a server, and there is no catch-all.
    NoServer,
    /// A response still names another server when no hop is left.
    MaxFollow,
}

/// An error without what an outside crate put inside it.
#[derive(Clone, Copy, Debug, PartialEq, Eq, Structural)]
pub enum Failure {
    Domain,
    IPv4,
    IPv6,
    Punycode,
    Config(MapFault),
    NoServer,
    MaxFollow,
}

impl View for WhoIsError {
    type V = Failure;

    open spec fn view(&self) -> Failure {
        match self {
            WhoIsError::DomainError(_) => Failure::Domain,
            WhoIsError::IPv4Error(_) => Failure::IPv4,
            WhoIsError::IPv6Error(_) => Failure::IPv6,
            WhoIsError::PunycodeError(_) => Failure::Punycode,
            WhoIsError::MapError(fault) => Failure::Config(*fault),
            WhoIsError::NoServer => Failure::NoServer,
            WhoIsError::MaxFollow => Failure::MaxFollow,
        }
    }
}

impl WhoIsError {
    /// Which failure this is.
    pub fn failure(&self) -> (failure: Failure)
        ensures
            failure == self@,
    {
        match self {
            WhoIsError::DomainError(_) => Failure::Domain,
            WhoIsError::IPv4Error(_) => Failure::IPv4,
            WhoIsError::IPv6Error(_) => Failure::IPv6,
            WhoIsError::PunycodeError(_) => Failure::Punycode,
            WhoIsError::MapError(fault) => Failure::Config(*fault),
            WhoIsError::NoServer => Failure::NoServer,
            WhoIsError::MaxFollow => Failure::MaxFollow,
        }
    }
}

} // verus!
