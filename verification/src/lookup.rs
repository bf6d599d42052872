//! One lookup, step by step: which server is asked first, what it is asked,
//! and what follows from each response. The caller dials, sends and reads;
//! every decision is made here.

use vstd::prelude::*;
use crate::error::{Failure, WhoIsError};
use crate::host::dial_address_of;
use crate::punycode::{ascii_form, to_ascii};
use crate::query::{query_for, query_message};
use crate::referral::{find_referral, referral_of, server_view};
use crate::registry::{select_entry, RegistryView, WhoIs};
use crate::response::{decode_lossy, lossy_text};
use crate::server::{ServerView, WhoIsServerValue};
use crate::target::{OptionsView, Target, TargetView, WhoIsLookupOptions};
use crate::text::lowercase;

verus! {

/// A lookup under way, to contracts.
pub struct LookupView {
    /// The server that is asked next.
    pub server: ServerView,
    /// The target as it is sent.
    pub text: Seq<char>,
    /// How many referrals the lookup was allowed.
    pub follow: u16,
    /// How many referrals it may still follow.
    pub left: u16,
}

/// What the caller has to do next: connect to `address` and send `message`.
#[derive(Debug)]
pub struct Request {
    pub address: String,
    pub message: String,
}

/// A request, to contracts.
pub struct RequestView {
    pub address: Seq<char>,
    pub message: Seq<char>,
}

impl View for Request {
    type V = RequestView;

    open spec fn view(&self) -> RequestView {
        RequestView { address: self.address@, message: self.message@ }
    }
}

/// A lookup under way: the server to ask, the text to ask for, and the
/// referrals that are left.
#[derive(Debug)]
pub struct LookupState {
    server: WhoIsServerValue,
    text: String,
    follow: u16,
    left: u16,
}

impl View for LookupState {
    type V = LookupView;

    closed spec fn view(&self) -> LookupView {
        LookupView { server: self.server@, text: self.text@, follow: self.follow, left: self.left }
    }
}

/// What a response leads to, where the lookup can go on or end well.
#[derive(Debug)]
pub enum Progress {
    /// The lookup is over, and this is its result.
    Done(String),
    /// The response referred to another server, which is asked next.
    Redirect(LookupState),
}

/// What a response leads to, to contracts.
pub enum Step {
    Done(Seq<char>),
    Redirect(LookupView),
    /// The response refers to another server and no referral is left.
    Exhausted,
}

/// The server that is asked first: the one the options name, else for a
/// domain the registry's choice and for an address the server for addresses.
pub open spec fn first_server(
    registry: RegistryView,
    target: TargetView,
    named: Option<ServerView>,
) -> Result<ServerView, Failure> {
    match named {
        Some(server) => Ok(server),
        None => match target {
            TargetView::Domain(domain) => match select_entry(
                registry.entries,
                lowercase(domain),
            ) {
                Some(server) => Ok(server),
                None => Err(Failure::NoServer),
            },
            _ => Ok(registry.ip),
        },
    }
}

/// The text that `server` is asked for: a domain in its ASCII form where the
/// server wants that, else the target as it stands.
pub open spec fn query_text_of(server: ServerView, target: TargetView) -> Result<
    Seq<char>,
    Failure,
> {
    match target {
        TargetView::Domain(domain) => if server.punycode {
            match ascii_form(domain) {
                Some(ascii) => Ok(ascii),
                None => Err(Failure::Punycode),
            }
        } else {
            Ok(domain)
        },
        _ => Ok(target.text()),
    }
}

/// The state in which a lookup starts.
pub open spec fn start_of(registry: RegistryView, options: OptionsView) -> Result<
    LookupView,
    Failure,
> {
    match first_server(registry, options.target, options.server) {
        Err(failure) => Err(failure),
        Ok(server) => match query_text_of(server, options.target) {
            Err(failure) => Err(failure),
            Ok(text) => Ok(
                LookupView { server, text, follow: options.follow, left: options.follow },
            ),
        },
    }
}

/// What is dialed and sent in a state.
pub open spec fn request_of(state: LookupView) -> RequestView {
    RequestView {
        address: dial_address_of(state.server.host),
        message: query_message(state.server.query, state.text),
    }
}

/// What a response leads to, given the server that it refers to. A lookup
/// that follows no referrals ends with its first response, whatever that
/// says. Any other lookup ends with the first response that refers nowhere,
/// goes on while referrals are left, and fails once none is.
pub open spec fn step_with(state: LookupView, response: Seq<char>, referral: Option<ServerView>)
    -> Step {
    if state.follow == 0 {
        Step::Done(response)
    } else {
        match referral {
            None => Step::Done(response),
            Some(next) => if state.left > 0 {
                Step::Redirect(
                    LookupView {
                        server: next,
                        text: state.text,
                        follow: state.follow,
                        left: (state.left - 1) as u16,
                    },
                )
            } else {
                Step::Exhausted
            },
        }
    }
}

/// What a response leads to. The referral is read against the address that
/// was dialed for the response.
pub open spec fn step(state: LookupView, response: Seq<char>) -> Step {
    step_with(state, response, referral_of(response, request_of(state).address))
}

/// What an outcome of a step is to contracts.
pub open spec fn progress_view(progress: Result<Progress, WhoIsError>) -> Step {
    match progress {
        Ok(Progress::Done(text)) => Step::Done(text@),
        Ok(Progress::Redirect(state)) => Step::Redirect(state@),
        Err(_) => Step::Exhausted,
    }
}

/// The text that `server` is asked for.
pub fn query_text(server: &WhoIsServerValue, target: &Target) -> (text: Result<String, WhoIsError>)
    ensures
        match text {
            Ok(t) => query_text_of(server@, target@) == Ok::<Seq<char>, Failure>(t@),
            Err(e) => query_text_of(server@, target@) == Err::<Seq<char>, Failure>(e@),
        },
{
    match target {
        Target::Domain(domain) => {
            if server.punycode {
                match to_ascii(domain.as_str()) {
                    Ok(ascii) => Ok(ascii),
                    Err(e) => Err(WhoIsError::PunycodeError(e)),
                }
            } else {
                Ok(domain.clone())
            }
        },
        Target::IPv4(address) => Ok(address.clone()),
        Target::IPv6(address) => Ok(address.clone()),
    }
}

impl WhoIs {
    /// The server that a lookup with these options asks first.
    pub fn first_server(&self, target: &Target, named: Option<WhoIsServerValue>) -> (server: Result<
        WhoIsServerValue,
        WhoIsError,
    >)
        ensures
            match server {
                Ok(s) => first_server(self@, target@, server_view(named)) == Ok::<
                    ServerView,
                    Failure,
                >(s@),
                Err(e) => first_server(self@, target@, server_view(named)) == Err::<
                    ServerView,
                    Failure,
                >(e@),
            },
    {
        match named {
            Some(server) => Ok(server),
            None => match target {
                Target::Domain(domain) => match self.select(domain.as_str()) {
                    Ok(server) => Ok(server.clone()),
                    Err(e) => Err(e),
                },
                _ => Ok(self.ip_fallback().clone()),
            },
        }
    }

    /// Starts a lookup: picks the first server and puts the target in the
    /// form that this server wants.
    pub fn begin(&self, options: WhoIsLookupOptions) -> (state: Result<LookupState, WhoIsError>)
        ensures
            match state {
                Ok(s) => start_of(self@, options@) == Ok::<LookupView, Failure>(s@),
                Err(e) => start_of(self@, options@) == Err::<LookupView, Failure>(e@),
            },
    {
        let WhoIsLookupOptions { target, server, follow, timeout: _ } = options;
        let server = match self.first_server(&target, server) {
            Ok(server) => server,
            Err(e) => {
                return Err(e);
            },
        };
        match query_text(&server, &target) {
            Ok(text) => Ok(LookupState::start(server, text, follow)),
            Err(e) => Err(e),
        }
    }
}

impl LookupState {
    /// A lookup has never more referrals left than it was allowed.
    #[verifier::type_invariant]
    spec fn within_budget(self) -> bool {
        self.left <= self.follow
    }

    /// The state of a lookup that asks `server` for `text` first and may
    /// follow `follow` referrals.
    pub fn start(server: WhoIsServerValue, text: String, follow: u16) -> (state: LookupState)
        ensures
            state@ == (LookupView { server: server@, text: text@, follow, left: follow }),
    {
        LookupState { server, text, follow, left: follow }
    }

    /// The server that is asked next.
    pub fn server(&self) -> (server: &WhoIsServerValue)
        ensures
            server@ == self@.server,
    {
        &self.server
    }

    /// The target as it is sent.
    pub fn text(&self) -> (text: &str)
        ensures
            text@ == self@.text,
    {
        self.text.as_str()
    }

    /// How many referrals the lookup was allowed.
    pub fn follow(&self) -> (follow: u16)
        ensures
            follow == self@.follow,
    {
        self.follow
    }

    /// How many referrals the lookup may still follow.
    pub fn remaining(&self) -> (left: u16)
        ensures
            left == self@.left,
            left <= self@.follow,
    {
        proof {
            use_type_invariant(self);
        }
        self.left
    }

    /// What the caller has to do next: the address to connect to and the
    /// message to send.
    pub fn request(&self) -> (request: Request)
        ensures
            request@ == request_of(self@),
    {
        Request {
            address: self.server.host.dial_address(),
            message: query_for(&self.server, self.text.as_str()),
        }
    }

    /// What `response` leads to, given the server that it refers to.
    pub fn advance_with(self, response: String, referral: Option<WhoIsServerValue>) -> (progress:
        Result<Progress, WhoIsError>)
        ensures
            progress_view(progress) == step_with(self@, response@, server_view(referral)),
            progress matches Err(e) ==> e@ == Failure::MaxFollow,
    {
        proof {
            use_type_invariant(&self);
        }
        if self.follow == 0 {
            return Ok(Progress::Done(response));
        }
        match referral {
            None => Ok(Progress::Done(response)),
            Some(next) => {
                if self.left > 0 {
                    Ok(
                        Progress::Redirect(
                            LookupState {
                                server: next,
                                text: self.text,
                                follow: self.follow,
                                left: self.left - 1,
                            },
                        ),
                    )
                } else {
                    Err(WhoIsError::MaxFollow)
                }
            },
        }
    }

    /// What `response`, the answer to this state's request, leads to.
    pub fn advance(self, response: String) -> (progress: Result<Progress, WhoIsError>)
        ensures
            progress_view(progress) == step(self@, response@),
            progress matches Err(e) ==> e@ == Failure::MaxFollow,
    {
        let referral = if self.follow == 0 {
            None
        } else {
            let dialed = self.server.host.dial_address();
            find_referral(response.as_str(), dialed.as_str())
        };
        self.advance_with(response, referral)
    }

    /// What the bytes of a response lead to. They are read as UTF-8; what
    /// is none is replaced and does not fail the lookup.
    pub fn receive(self, response: &[u8]) -> (progress: Result<Progress, WhoIsError>)
        ensures
            progress_view(progress) == step(self@, lossy_text(response@)),
            progress matches Err(e) ==> e@ == Failure::MaxFollow,
    {
        self.advance(decode_lossy(response))
    }
}

/// How a lookup that starts in `state` ends when `responses` come in, one
/// for each request in its turn: `None` while the lookup still waits for a
/// response.
pub open spec fn run(state: LookupView, responses: Seq<Seq<char>>) -> Option<Step>
    decreases responses.len(),
{
    if responses.len() == 0 {
        None
    } else {
        match step(state, responses[0]) {
            Step::Redirect(next) => run(next, responses.drop_first()),
            end => Some(end),
        }
    }
}

/// Whether each of `responses`, come in for a lookup that starts in `state`,
/// refers to another server.
pub open spec fn all_refer(state: LookupView, responses: Seq<Seq<char>>) -> bool
    decreases responses.len(),
{
    if responses.len() == 0 {
        true
    } else {
        match referral_of(responses[0], request_of(state).address) {
            None => false,
            Some(next) => all_refer(
                LookupView {
                    server: next,
                    text: state.text,
                    follow: state.follow,
                    left: if state.left > 0 {
                        (state.left - 1) as u16
                    } else {
                        0
                    },
                },
                responses.drop_first(),
            ),
        }
    }
}

/// A step ends the lookup with the response itself, and only where the
/// lookup follows no referrals or the response refers nowhere; it fails only
/// where the response refers on and no referral is left; it goes on only to
/// the server that the response refers to, with one referral fewer left and
/// nothing else changed.
pub proof fn lemma_step(state: LookupView, response: Seq<char>)
    ensures
        match step(state, response) {
            Step::Done(text) => text == response && (state.follow == 0 || referral_of(
                response,
                request_of(state).address,
            ) is None),
            Step::Exhausted => state.follow > 0 && state.left == 0 && referral_of(
                response,
                request_of(state).address,
            ) is Some,
            Step::Redirect(next) => state.follow > 0 && state.left > 0 && next.left == state.left
                - 1 && next.follow == state.follow && next.text == state.text && referral_of(
                response,
                request_of(state).address,
            ) == Some(next.server),
        },
{
}

/// A lookup ends: with one response more than it has referrals left, it is
/// over, however many servers refer on.
pub proof fn lemma_lookup_ends(state: LookupView, responses: Seq<Seq<char>>)
    requires
        responses.len() > state.left,
    ensures
        run(state, responses) is Some,
    decreases responses.len(),
{
    match step(state, responses[0]) {
        Step::Redirect(next) => {
            lemma_lookup_ends(next, responses.drop_first());
        },
        _ => {},
    }
}

/// A chain of referrals that is longer than the lookup may follow ends in
/// failure: where the lookup follows referrals at all and every response
/// refers on, the response after the last referral that is left is not
/// handed out.
pub proof fn lemma_long_chain_fails(state: LookupView, responses: Seq<Seq<char>>)
    requires
        state.follow > 0,
        responses.len() > state.left,
        all_refer(state, responses),
    ensures
        run(state, responses) == Some(Step::Exhausted),
    decreases responses.len(),
{
    match step(state, responses[0]) {
        Step::Redirect(next) => {
            lemma_long_chain_fails(next, responses.drop_first());
        },
        _ => {},
    }
}

/// A lookup that follows no referrals ends with the first response as it
/// came, whatever it refers to.
pub proof fn lemma_no_follow(state: LookupView, responses: Seq<Seq<char>>)
    requires
        state.follow == 0,
        responses.len() > 0,
    ensures
        run(state, responses) == Some(Step::Done(responses[0])),
{
}

/// A domain goes to a server that wants ASCII in its ASCII form, and to any
/// other server as it stands.
pub proof fn lemma_punycode_policy(registry: RegistryView, options: OptionsView)
    requires
        options.target is Domain,
        first_server(registry, options.target, options.server) is Ok,
    ensures
        ({
            let domain = options.target->Domain_0;
            let server = first_server(registry, options.target, options.server)->Ok_0;
            let start = start_of(registry, options);
            &&& server.punycode ==> match ascii_form(domain) {
                Some(ascii) => start is Ok && request_of(start->Ok_0).message == query_message(
                    server.query,
                    ascii,
                ),
                None => start == Err::<LookupView, Failure>(Failure::Punycode),
            }
            &&& !server.punycode ==> start is Ok && request_of(start->Ok_0).message
                == query_message(server.query, domain)
        }),
{
}

} // verus!
