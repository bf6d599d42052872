//! What is looked up: a domain name or an IP address, told apart by the
//! validators, and the options of one lookup.

use vstd::prelude::*;
use crate::error::{Failure, WhoIsError};
use crate::server::{ServerView, WhoIsServerValue};

verus! {

/// `validators::domain::DomainError`, the reason why a text is no domain
/// name. It is handed on as it comes; nothing here looks inside.
#[verifier::external_type_specification]
#[verifier::external_body]
pub struct ExDomainError(validators::domain::DomainError);

/// `validators::ipv4::IPv4Error`, the reason why a text is no IPv4 address.
/// It is handed on as it comes; nothing here looks inside.
#[verifier::external_type_specification]
#[verifier::external_body]
pub struct ExIPv4Error(validators::ipv4::IPv4Error);

/// `validators::ipv6::IPv6Error`, the reason why a text is no IPv6 address.
/// It is handed on as it comes; nothing here looks inside.
#[verifier::external_type_specification]
#[verifier::external_body]
pub struct ExIPv6Error(validators::ipv6::IPv6Error);

/// Whether `validators::domain::DomainUnlocalhostableWithoutPort::from_str`
/// accepts `text`.
pub uninterp spec fn domain_accepted(text: Seq<char>) -> bool;

/// What `validators::ipv4::IPv4LocalableWithoutPort::from_str` makes of
/// `text`: `None` where it rejects the text, else the address's full text.
pub uninterp spec fn ipv4_parsed(text: Seq<char>) -> Option<Seq<char>>;

/// What `validators::ipv6::IPv6LocalableWithoutPort::from_str` makes of
/// `text`: `None` where it rejects the text, else the address's full text.
pub uninterp spec fn ipv6_parsed(text: Seq<char>) -> Option<Seq<char>>;

/// Hands `text` to
/// `validators::domain::DomainUnlocalhostableWithoutPort::from_str`. The
/// contract names whether the validator accepts the text, and claims that an
/// accepted domain's full text is the text that was handed in: the validator
/// keeps it as it came.
#[verifier::external_body]
pub(crate) fn check_domain(text: &str) -> (domain: Result<String, validators::domain::DomainError>)
    ensures
        domain is Ok == domain_accepted(text@),
        domain matches Ok(d) ==> d@ == text@,
{
    validators::domain::DomainUnlocalhostableWithoutPort::from_str(text).map(
        |d| d.get_full_domain().to_string(),
    )
}

/// Hands `text` to `validators::ipv4::IPv4LocalableWithoutPort::from_str`.
/// The contract names the outcome: the full text of the address that the
/// validator made, or that it made none.
#[verifier::external_body]
pub(crate) fn check_ipv4(text: &str) -> (address: Result<String, validators::ipv4::IPv4Error>)
    ensures
        match address {
            Ok(a) => ipv4_parsed(text@) == Some(a@),
            Err(_) => ipv4_parsed(text@) is None,
        },
{
    validators::ipv4::IPv4LocalableWithoutPort::from_str(text).map(
        |a| a.get_full_ipv4().to_string(),
    )
}

/// Hands `text` to `validators::ipv6::IPv6LocalableWithoutPort::from_str`.
/// The contract names the outcome: the full text of the address that the
/// validator made, or that it made none.
#[verifier::external_body]
pub(crate) fn check_ipv6(text: &str) -> (address: Result<String, validators::ipv6::IPv6Error>)
    ensures
        match address {
            Ok(a) => ipv6_parsed(text@) == Some(a@),
            Err(_) => ipv6_parsed(text@) is None,
        },
{
    validators::ipv6::IPv6LocalableWithoutPort::from_str(text).map(
        |a| a.get_full_ipv6().to_string(),
    )
}

/// What is looked up. The text inside has passed its validator; nothing
/// looks at its format again.
#[derive(Debug)]
pub enum Target {
    Domain(String),
    IPv4(String),
    IPv6(String),
}

/// A target, to contracts.
pub enum TargetView {
    Domain(Seq<char>),
    IPv4(Seq<char>),
    IPv6(Seq<char>),
}

impl TargetView {
    /// The text of the target, whatever its kind.
    pub open spec fn text(self) -> Seq<char> {
        match self {
            TargetView::Domain(t) => t,
            TargetView::IPv4(t) => t,
            TargetView::IPv6(t) => t,
        }
    }
}

impl View for Target {
    type V = TargetView;

    open spec fn view(&self) -> TargetView {
        match self {
            Target::Domain(t) => TargetView::Domain(t@),
            Target::IPv4(t) => TargetView::IPv4(t@),
            Target::IPv6(t) => TargetView::IPv6(t@),
        }
    }
}

/// How many referrals a lookup follows unless told otherwise.
pub const DEFAULT_FOLLOW: u16 = 2;

/// The time allowed to each connection attempt, read and write unless told
/// otherwise, in milliseconds.
pub const DEFAULT_TIMEOUT: u64 = 60000;

/// The options of one lookup.
#[derive(Debug)]
pub struct WhoIsLookupOptions {
    /// What to look up.
    pub target: Target,
    /// The server to ask first. Where there is none, the registry picks one.
    pub server: Option<WhoIsServerValue>,
    /// How many referrals to follow.
    pub follow: u16,
    /// The time allowed to each connection attempt, read and write, in
    /// milliseconds. Without it they wait as long as it takes.
    pub timeout: Option<u64>,
}

/// The options of one lookup, to contracts.
pub struct OptionsView {
    pub target: TargetView,
    pub server: Option<ServerView>,
    pub follow: u16,
    pub timeout: Option<u64>,
}

impl View for WhoIsLookupOptions {
    type V = OptionsView;

    open spec fn view(&self) -> OptionsView {
        OptionsView {
            target: self.target@,
            server: match self.server {
                Some(s) => Some(s@),
                None => None,
            },
            follow: self.follow,
            timeout: self.timeout,
        }
    }
}

/// The options that a lookup of `target` starts from: no server of its own,
/// two referrals, sixty seconds.
pub open spec fn default_options(target: TargetView) -> OptionsView {
    OptionsView { target, server: None, follow: DEFAULT_FOLLOW, timeout: Some(DEFAULT_TIMEOUT) }
}

/// What a text is taken for: an IPv4 address where the IPv4 validator accepts
/// it, else an IPv6 address where the IPv6 validator accepts it, else a
/// domain name where the domain validator accepts it, else nothing.
pub open spec fn classify(text: Seq<char>) -> Option<TargetView> {
    match ipv4_parsed(text) {
        Some(a) => Some(TargetView::IPv4(a)),
        None => match ipv6_parsed(text) {
            Some(a) => Some(TargetView::IPv6(a)),
            None => if domain_accepted(text) {
                Some(TargetView::Domain(text))
            } else {
                None
            },
        },
    }
}

impl WhoIsLookupOptions {
    /// The default options for a target.
    pub fn from_target(target: Target) -> (options: WhoIsLookupOptions)
        ensures
            options@ == default_options(target@),
    {
        WhoIsLookupOptions {
            target,
            server: None,
            follow: DEFAULT_FOLLOW,
            timeout: Some(DEFAULT_TIMEOUT),
        }
    }

    /// The default options for a domain name, where `domain` is one.
    pub fn from_domain(domain: &str) -> (options: Result<WhoIsLookupOptions, WhoIsError>)
        ensures
            match options {
                Ok(o) => domain_accepted(domain@) && o@ == default_options(
                    TargetView::Domain(domain@),
                ),
                Err(e) => !domain_accepted(domain@) && e@ == Failure::Domain,
            },
    {
        match check_domain(domain) {
            Ok(d) => Ok(Self::from_target(Target::Domain(d))),
            Err(e) => Err(WhoIsError::DomainError(e)),
        }
    }

    /// The default options for an IPv4 address, where `ipv4` is one.
    pub fn from_ipv4(ipv4: &str) -> (options: Result<WhoIsLookupOptions, WhoIsError>)
        ensures
            match options {
                Ok(o) => ipv4_parsed(ipv4@) matches Some(a) && o@ == default_options(
                    TargetView::IPv4(a),
                ),
                Err(e) => ipv4_parsed(ipv4@) is None && e@ == Failure::IPv4,
            },
    {
        match check_ipv4(ipv4) {
            Ok(a) => Ok(Self::from_target(Target::IPv4(a))),
            Err(e) => Err(WhoIsError::IPv4Error(e)),
        }
    }

    /// The default options for an IPv6 address, where `ipv6` is one.
    pub fn from_ipv6(ipv6: &str) -> (options: Result<WhoIsLookupOptions, WhoIsError>)
        ensures
            match options {
                Ok(o) => ipv6_parsed(ipv6@) matches Some(a) && o@ == default_options(
                    TargetView::IPv6(a),
                ),
                Err(e) => ipv6_parsed(ipv6@) is None && e@ == Failure::IPv6,
            },
    {
        match check_ipv6(ipv6) {
            Ok(a) => Ok(Self::from_target(Target::IPv6(a))),
            Err(e) => Err(WhoIsError::IPv6Error(e)),
        }
    }

    /// The default options for whatever `string` is: an IPv4 address, else an
    /// IPv6 address, else a domain name. Where it is none of them, the error
    /// is the domain validator's.
    pub fn from_string(string: &str) -> (options: Result<WhoIsLookupOptions, WhoIsError>)
        ensures
            match options {
                Ok(o) => classify(string@) matches Some(t) && o@ == default_options(t),
                Err(e) => classify(string@) is None && e@ == Failure::Domain,
            },
    {
        match Self::from_ipv4(string) {
            Ok(options) => Ok(options),
            Err(_) => match Self::from_ipv6(string) {
                Ok(options) => Ok(options),
                Err(_) => Self::from_domain(string),
            },
        }
    }
}

} // verus!
