//! Referrals: the line of a response that names another WHOIS server.

use vstd::prelude::*;
use crate::host::{host_parsed, host_view, parse_host, HostLiteral, HostView};
use crate::server::{plain_server, ServerView, WhoIsServerValue};
use crate::text::same_text;

verus! {

/// The line that refers to another server: one of five labels, a colon,
/// blanks, a `whois://` or `rwhois://` that may be missing, and the host,
/// which runs to the end of the line. The host is the third group.
pub const REFERRAL_PATTERN: &'static str =
    r"(ReferralServer|Registrar Whois|Whois Server|WHOIS Server|Registrar WHOIS Server):[^\S\n]*(r?whois://)?(.*)";

/// The group of the referral pattern that holds the host.
pub const REFERRAL_HOST_GROUP: usize = 3;

/// What the `regex` crate finds in `text` for `pattern`: the text of group
/// `group` of the leftmost match, as `Regex::captures` and `Captures::get`
/// give it. `None` where `Regex::new` rejects the pattern, where nothing
/// matches, and where the group took no part in the match.
pub uninterp spec fn regex_capture(pattern: Seq<char>, text: Seq<char>, group: nat) -> Option<
    Seq<char>,
>;

/// Compiles `pattern` with `regex::Regex::new`, searches `text` with
/// `Regex::captures` and takes group `group` of the match with
/// `Captures::get`. The contract names the outcome and claims nothing of it
/// but that the same pattern, text and group always give the same outcome.
#[verifier::external_body]
pub(crate) fn capture_group(pattern: &str, text: &str, group: usize) -> (captured: Option<String>)
    ensures
        match captured {
            Some(c) => regex_capture(pattern@, text@, group as nat) == Some(c@),
            None => regex_capture(pattern@, text@, group as nat) is None,
        },
{
    match regex::Regex::new(pattern) {
        Ok(re) => re.captures(text).and_then(|c| c.get(group)).map(|m| m.as_str().to_string()),
        Err(_) => None,
    }
}

/// The host that the first referral line of a response names.
pub open spec fn referral_host(response: Seq<char>) -> Option<Seq<char>> {
    regex_capture(REFERRAL_PATTERN@, response, REFERRAL_HOST_GROUP as nat)
}

/// The server that a referral leads to, given the host that the response
/// names and what the validator made of that host. A response that names no
/// host, the address that was just dialed, or what is no host, leads nowhere.
pub open spec fn referral_server(
    named: Option<Seq<char>>,
    dialed: Seq<char>,
    host: Option<HostView>,
) -> Option<ServerView> {
    match named {
        None => None,
        Some(name) => if name == dialed {
            None
        } else {
            match host {
                Some(h) => Some(plain_server(h)),
                None => None,
            }
        },
    }
}

/// What the validator makes of the host that a response names.
pub open spec fn named_host(named: Option<Seq<char>>) -> Option<HostView> {
    match named {
        Some(name) => host_parsed(name),
        None => None,
    }
}

/// The server that a response refers to, seen from the address `dialed`.
pub open spec fn referral_of(response: Seq<char>, dialed: Seq<char>) -> Option<ServerView> {
    referral_server(referral_host(response), dialed, named_host(referral_host(response)))
}

/// A text that may be missing, to contracts.
pub open spec fn text_view(text: Option<String>) -> Option<Seq<char>> {
    match text {
        Some(t) => Some(t@),
        None => None,
    }
}

/// A server that may be missing, to contracts.
pub open spec fn server_view(server: Option<WhoIsServerValue>) -> Option<ServerView> {
    match server {
        Some(s) => Some(s@),
        None => None,
    }
}

/// The host that the first referral line of `response` names.
pub fn find_referral_host(response: &str) -> (named: Option<String>)
    ensures
        text_view(named) == referral_host(response@),
{
    capture_group(REFERRAL_PATTERN, response, REFERRAL_HOST_GROUP)
}

/// The server that a referral leads to, given the host that the response
/// names and what the validator made of that host.
pub fn follow_referral(named: &Option<String>, dialed: &str, host: Option<HostLiteral>) -> (server:
    Option<WhoIsServerValue>)
    ensures
        server_view(server) == referral_server(text_view(*named), dialed@, host_view(host)),
        text_view(*named) == Some(dialed@) ==> server is None,
{
    match named {
        None => None,
        Some(name) => {
            if same_text(name.as_str(), dialed) {
                None
            } else {
                match host {
                    Some(h) => Some(WhoIsServerValue::new(h)),
                    None => None,
                }
            }
        },
    }
}

/// The server that `response` refers to, seen from the address `dialed`.
/// A response never refers to the address that was just dialed.
pub fn find_referral(response: &str, dialed: &str) -> (server: Option<WhoIsServerValue>)
    ensures
        server_view(server) == referral_of(response@, dialed@),
        referral_host(response@) == Some(dialed@) ==> server is None,
{
    let named = find_referral_host(response);
    let host = match &named {
        Some(name) => if same_text(name.as_str(), dialed) {
            None
        } else {
            parse_host(name.as_str())
        },
        None => None,
    };
    follow_referral(&named, dialed, host)
}

/// No response refers a lookup back to where it is: where a response leads
/// to a server, it names a host beside the address that was dialed, and the
/// server is the one that this name stands for.
pub proof fn lemma_no_self_referral(response: Seq<char>, dialed: Seq<char>)
    ensures
        referral_host(response) == Some(dialed) ==> referral_of(response, dialed) is None,
        referral_of(response, dialed) matches Some(server) ==> ({
            &&& referral_host(response) matches Some(name)
            &&& name != dialed
            &&& host_parsed(name) matches Some(host)
            &&& server == plain_server(host)
        }),
{
}

} // verus!
