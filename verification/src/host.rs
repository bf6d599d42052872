//! Host literals: the address of a WHOIS server as it is written in a registry
//! or in a referral line, and the address that is dialed for it.

use vstd::prelude::*;
use vstd::string::StringExecFns;
use crate::text::{contains_char, has_char};

verus! {

/// Which of the three forms a host literal has.
#[derive(Clone, Copy, Debug, PartialEq, Eq, Structural)]
pub enum HostKind {
    Domain,
    IPv4,
    IPv6,
}

/// What a host literal is to contracts: its form and its text.
pub struct HostView {
    pub kind: HostKind,
    pub text: Seq<char>,
}

/// What `validators::host::HostLocalable::from_str` makes of `text`: `None`
/// where it rejects the text, else the form it found and the host's full text.
pub uninterp spec fn host_parsed(text: Seq<char>) -> Option<HostView>;

/// A domain name or an IP address, with or without a port, that the host
/// validator has accepted.
#[derive(Debug)]
pub struct HostLiteral {
    kind: HostKind,
    text: String,
}

impl View for HostLiteral {
    type V = HostView;

    closed spec fn view(&self) -> HostView {
        HostView { kind: self.kind, text: self.text@ }
    }
}

/// Whether `host` is what the validator makes of some text.
pub open spec fn is_host(host: HostView) -> bool {
    exists|source: Seq<char>| #[trigger] host_parsed(source) == Some(host)
}

impl HostLiteral {
    /// Every host literal came out of the validator.
    #[verifier::type_invariant]
    spec fn accepted(self) -> bool {
        is_host(self@)
    }

    /// The form of this literal.
    pub fn kind(&self) -> (kind: HostKind)
        ensures
            kind == self@.kind,
    {
        self.kind
    }

    /// The literal's full text, port included where it has one.
    pub fn as_str(&self) -> (text: &str)
        ensures
            text@ == self@.text,
            is_host(self@),
    {
        proof {
            use_type_invariant(self);
        }
        self.text.as_str()
    }

    /// The address to connect to: the literal itself where it names a port,
    /// else the literal with the WHOIS port added.
    pub fn dial_address(&self) -> (address: String)
        ensures
            address@ == dial_address_of(self@),
    {
        let text = self.text.as_str();
        match self.kind {
            HostKind::IPv6 => {
                if text.unicode_len() > 0 && text.get_char(0) == '[' {
                    text.to_owned()
                } else {
                    proof {
                        reveal_strlit("[");
                        reveal_strlit("]:43");
                    }
                    let mut address = String::from_str("[");
                    address.append(text);
                    address.append("]:43");
                    address
                }
            },
            _ => {
                if contains_char(text, ':') {
                    text.to_owned()
                } else {
                    proof {
                        reveal_strlit(":43");
                    }
                    let mut address = text.to_owned();
                    address.append(":43");
                    address
                }
            },
        }
    }
}

impl Clone for HostLiteral {
    fn clone(&self) -> (copy: Self)
        ensures
            copy@ == self@,
    {
        proof {
            use_type_invariant(self);
        }
        HostLiteral { kind: self.kind, text: self.text.clone() }
    }
}

/// What a host literal that may be missing is to contracts.
pub open spec fn host_view(host: Option<HostLiteral>) -> Option<HostView> {
    match host {
        Some(h) => Some(h@),
        None => None,
    }
}

/// Whether the text of a host literal names a port itself. A domain or
/// an IPv4 address has no colon but before its port; an IPv6 address is put in
/// square brackets exactly when a port follows.
pub open spec fn names_port(host: HostView) -> bool {
    match host.kind {
        HostKind::IPv6 => host.text.len() > 0 && host.text[0] == '[',
        _ => has_char(host.text, ':'),
    }
}

/// The address that is dialed for a host literal. The WHOIS port is 43.
pub open spec fn dial_address_of(host: HostView) -> Seq<char> {
    if names_port(host) {
        host.text
    } else {
        match host.kind {
            HostKind::IPv6 => seq!['['] + host.text + seq![']', ':', '4', '3'],
            _ => host.text + seq![':', '4', '3'],
        }
    }
}

/// Hands `text` to `validators::host::HostLocalable::from_str`, which tries it
/// as an IPv4 address, then as an IPv6 address, then as a domain name, each
/// with an optional port. The contract names the outcome and claims nothing of
/// it but that the same text always gives the same outcome.
#[verifier::external_body]
pub(crate) fn parse_host(text: &str) -> (host: Option<HostLiteral>)
    ensures
        match host {
            Some(h) => host_parsed(text@) == Some(h@),
            None => host_parsed(text@) is None,
        },
{
    match validators::host::HostLocalable::from_str(text) {
        Ok(h) => Some(match h.as_host() {
            validators::host::Host::Domain(d) => HostLiteral { kind: HostKind::Domain, text: d.get_full_domain().to_string() },
            validators::host::Host::IPv4(a) => HostLiteral { kind: HostKind::IPv4, text: a.get_full_ipv4().to_string() },
            validators::host::Host::IPv6(a) => HostLiteral { kind: HostKind::IPv6, text: a.get_full_ipv6().to_string() },
        }),
        Err(_) => None,
    }
}

} // verus!
