//! One WHOIS server: where it is, what it wants to be asked, and whether it
//! wants a domain in its ASCII form.

use vstd::prelude::*;
use crate::error::MapFault;
use crate::host::{host_parsed, host_view, parse_host, HostLiteral, HostView};
use crate::json::{member_of, JsonValue, JsonView};
use crate::query::{default_query, query_message};

verus! {

/// What a server asks for where its entry names no punycode policy.
pub const DEFAULT_PUNYCODE: bool = true;

/// A WHOIS server.
#[derive(Debug)]
pub struct WhoIsServerValue {
    /// Where the server is.
    pub host: HostLiteral,
    /// The query that the server expects, with `$addr` where the target goes.
    /// Where there is none, the query is the target and a line end.
    pub query: Option<String>,
    /// Whether a domain is sent in its ASCII form.
    pub punycode: bool,
}

/// A WHOIS server, to contracts.
pub struct ServerView {
    pub host: HostView,
    pub query: Option<Seq<char>>,
    pub punycode: bool,
}

impl View for WhoIsServerValue {
    type V = ServerView;

    open spec fn view(&self) -> ServerView {
        ServerView {
            host: self.host@,
            query: match self.query {
                Some(q) => Some(q@),
                None => None,
            },
            punycode: self.punycode,
        }
    }
}

impl Clone for WhoIsServerValue {
    fn clone(&self) -> (copy: Self)
        ensures
            copy@ == self@,
    {
        WhoIsServerValue {
            host: self.host.clone(),
            query: match &self.query {
                Some(q) => Some(q.clone()),
                None => None,
            },
            punycode: self.punycode,
        }
    }
}

/// The server that a host alone stands for: no query of its own, domains in
/// ASCII form.
pub open spec fn plain_server(host: HostView) -> ServerView {
    ServerView { host, query: None, punycode: DEFAULT_PUNYCODE }
}

/// The server that a host string stands for.
pub open spec fn server_of_string(text: Seq<char>) -> Result<ServerView, MapFault> {
    match host_parsed(text) {
        Some(host) => Ok(plain_server(host)),
        None => Err(MapFault::StringNotHost),
    }
}

/// The text in a registry value that names the server's host: the value
/// itself where it is a string, its `host` member where it is an object.
pub open spec fn host_text_of(value: JsonView) -> Result<Seq<char>, MapFault> {
    match value {
        JsonView::Object(_) => match value.get("host"@) {
            Some(JsonView::Text(text)) => Ok(text),
            _ => Err(MapFault::ObjectWithoutHost),
        },
        JsonView::Text(text) => Ok(text),
        _ => Err(MapFault::ValueNotObjectOrString),
    }
}

/// The server that a registry value stands for, given what the validator made
/// of its host text.
pub open spec fn server_with_host(value: JsonView, host: Option<HostView>) -> Result<
    ServerView,
    MapFault,
> {
    match value {
        JsonView::Object(_) => match host {
            None => Err(MapFault::ObjectHostNotHost),
            Some(host) => match value.get("query"@) {
                Some(JsonView::Text(query)) => match value.get("punycode"@) {
                    Some(JsonView::Bool(punycode)) => Ok(
                        ServerView { host, query: Some(query), punycode },
                    ),
                    Some(_) => Err(MapFault::ObjectPunycodeNotBool),
                    None => Ok(ServerView { host, query: Some(query), punycode: DEFAULT_PUNYCODE }),
                },
                Some(_) => Err(MapFault::ObjectQueryNotString),
                None => match value.get("punycode"@) {
                    Some(JsonView::Bool(punycode)) => Ok(ServerView { host, query: None, punycode }),
                    Some(_) => Err(MapFault::ObjectPunycodeNotBool),
                    None => Ok(plain_server(host)),
                },
            },
        },
        JsonView::Text(_) => match host {
            None => Err(MapFault::StringNotHost),
            Some(host) => Ok(plain_server(host)),
        },
        _ => Err(MapFault::ValueNotObjectOrString),
    }
}

/// The server that a registry value stands for: a string is a host, an object
/// has a `host` and may have a `query` and a `punycode`.
pub open spec fn server_of_value(value: JsonView) -> Result<ServerView, MapFault> {
    match host_text_of(value) {
        Err(fault) => Err(fault),
        Ok(text) => server_with_host(value, host_parsed(text)),
    }
}

impl WhoIsServerValue {
    /// The server at `host` that has no query of its own and takes domains in
    /// ASCII form.
    pub fn new(host: HostLiteral) -> (server: WhoIsServerValue)
        ensures
            server@ == plain_server(host@),
    {
        WhoIsServerValue { host, query: None, punycode: DEFAULT_PUNYCODE }
    }

    /// The server that a host string stands for.
    pub fn from_string(string: &str) -> (server: Result<WhoIsServerValue, MapFault>)
        ensures
            match server {
                Ok(s) => server_of_string(string@) == Ok::<ServerView, MapFault>(s@),
                Err(fault) => server_of_string(string@) == Err::<ServerView, MapFault>(fault),
            },
    {
        match parse_host(string) {
            Some(host) => Ok(Self::new(host)),
            None => Err(MapFault::StringNotHost),
        }
    }

    /// The text in a registry value that names the server's host.
    pub fn host_text(value: &JsonValue) -> (text: Result<&str, MapFault>)
        ensures
            match text {
                Ok(t) => host_text_of(value@) == Ok::<Seq<char>, MapFault>(t@),
                Err(fault) => host_text_of(value@) == Err::<Seq<char>, MapFault>(fault),
            },
    {
        match value {
            JsonValue::Object(_) => match value.get("host") {
                Some(JsonValue::Text(text)) => Ok(text.as_str()),
                _ => Err(MapFault::ObjectWithoutHost),
            },
            JsonValue::Text(text) => Ok(text.as_str()),
            _ => Err(MapFault::ValueNotObjectOrString),
        }
    }

    /// The server that a registry value stands for, given what the validator
    /// made of its host text.
    pub fn with_host(value: &JsonValue, host: Option<HostLiteral>) -> (server: Result<
        WhoIsServerValue,
        MapFault,
    >)
        ensures
            match server {
                Ok(s) => server_with_host(value@, host_view(host)) == Ok::<
                    ServerView,
                    MapFault,
                >(s@),
                Err(fault) => server_with_host(value@, host_view(host)) == Err::<
                    ServerView,
                    MapFault,
                >(fault),
            },
    {
        match value {
            JsonValue::Object(_) => {
                let host = match host {
                    Some(host) => host,
                    None => {
                        return Err(MapFault::ObjectHostNotHost);
                    },
                };
                let query = match value.get("query") {
                    Some(JsonValue::Text(query)) => Some(query.clone()),
                    Some(_) => {
                        return Err(MapFault::ObjectQueryNotString);
                    },
                    None => None,
                };
                let punycode = match value.get("punycode") {
                    Some(JsonValue::Bool(punycode)) => *punycode,
                    Some(_) => {
                        return Err(MapFault::ObjectPunycodeNotBool);
                    },
                    None => DEFAULT_PUNYCODE,
                };
                Ok(WhoIsServerValue { host, query, punycode })
            },
            JsonValue::Text(_) => match host {
                Some(host) => Ok(Self::new(host)),
                None => Err(MapFault::StringNotHost),
            },
            _ => Err(MapFault::ValueNotObjectOrString),
        }
    }

    /// The server that a registry value stands for.
    pub fn from_value(value: &JsonValue) -> (server: Result<WhoIsServerValue, MapFault>)
        ensures
            match server {
                Ok(s) => server_of_value(value@) == Ok::<ServerView, MapFault>(s@),
                Err(fault) => server_of_value(value@) == Err::<ServerView, MapFault>(fault),
            },
    {
        match Self::host_text(value) {
            Err(fault) => Err(fault),
            Ok(text) => Self::with_host(value, parse_host(text)),
        }
    }
}

/// The object form of the server that the host string `host` stands for:
/// the host alone.
pub open spec fn short_object(host: Seq<char>) -> JsonView {
    JsonView::Object(seq![("host"@, JsonView::Text(host))])
}

/// The object form of the server that the host string `host` stands for,
/// with everything spelled out.
pub open spec fn full_object(host: Seq<char>) -> JsonView {
    JsonView::Object(
        seq![
            ("host"@, JsonView::Text(host)),
            ("query"@, JsonView::Text(default_query())),
            ("punycode"@, JsonView::Bool(DEFAULT_PUNYCODE)),
        ],
    )
}

/// A server written as a string is the server written as an object: both
/// are servers for the same strings, and then they are at the same host,
/// take domains in the same form and are sent the same message for every
/// target.
pub proof fn lemma_short_form(host: Seq<char>, target: Seq<char>)
    ensures
        server_of_value(JsonView::Text(host)) is Ok <==> host_parsed(host) is Some,
        server_of_value(short_object(host)) is Ok <==> host_parsed(host) is Some,
        server_of_value(full_object(host)) is Ok <==> host_parsed(host) is Some,
        host_parsed(host) is Some ==> ({
            let short = server_of_value(JsonView::Text(host))->Ok_0;
            let object = server_of_value(short_object(host))->Ok_0;
            let full = server_of_value(full_object(host))->Ok_0;
            &&& short == plain_server(host_parsed(host)->0)
            &&& object == short
            &&& full.host == short.host
            &&& full.punycode == short.punycode
            &&& query_message(full.query, target) == query_message(short.query, target)
        }),
{
    reveal_strlit("host");
    reveal_strlit("query");
    reveal_strlit("punycode");
    reveal_with_fuel(member_of, 4);
    assert("host"@.len() == 4 && "query"@.len() == 5 && "punycode"@.len() == 8);
}

} // verus!
