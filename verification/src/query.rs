//! The text that is sent to a server: its query template with the target in
//! the place of each `$addr`.

use vstd::prelude::*;
use vstd::string::StringExecFns;
use crate::server::WhoIsServerValue;
use crate::text::chars_of;

verus! {

/// The query of a server that names none: the target and a line end.
pub const DEFAULT_WHOIS_HOST_QUERY: &'static str = "$addr\r\n";

/// The token in a query template that stands for the target.
pub open spec fn placeholder() -> Seq<char> {
    seq!['$', 'a', 'd', 'd', 'r']
}

/// The query template of a server that names none.
pub open spec fn default_query() -> Seq<char> {
    seq!['$', 'a', 'd', 'd', 'r', '\r', '\n']
}

/// Whether `template` begins with the placeholder.
pub open spec fn at_placeholder(template: Seq<char>) -> bool {
    template.len() >= 5 && template.take(5) == placeholder()
}

/// `template` with `text` in the place of every placeholder, from left to
/// right.
pub open spec fn substitute(template: Seq<char>, text: Seq<char>) -> Seq<char>
    decreases template.len(),
{
    if template.len() == 0 {
        template
    } else if at_placeholder(template) {
        text + substitute(template.skip(5), text)
    } else {
        seq![template[0]] + substitute(template.skip(1), text)
    }
}

/// The message that asks a server with the query template `query` for
/// `text`.
pub open spec fn query_message(query: Option<Seq<char>>, text: Seq<char>) -> Seq<char> {
    match query {
        Some(template) => substitute(template, text),
        None => substitute(default_query(), text),
    }
}

/// `template` with `text` in the place of every `$addr`.
pub fn fill_template(template: &str, text: &str) -> (message: String)
    ensures
        message@ == substitute(template@, text@),
{
    let chars = chars_of(template);
    let len = chars.len();
    let mut message = String::new();
    let mut done: usize = 0;
    let mut at: usize = 0;
    assert(template@.skip(0) =~= template@);
    while at < len
        invariant
            done <= at <= len,
            len == template@.len(),
            chars@ == template@,
            substitute(template@, text@) == message@ + template@.subrange(
                done as int,
                at as int,
            ) + substitute(template@.skip(at as int), text@),
        decreases len - at,
    {
        let ghost rest = template@.skip(at as int);
        if len - at >= 5 && chars[at] == '$' && chars[at + 1] == 'a' && chars[at + 2] == 'd'
            && chars[at + 3] == 'd' && chars[at + 4] == 'r' {
            assert(rest.take(5) =~= placeholder());
            assert(rest.skip(5) =~= template@.skip(at + 5));
            message.append(template.substring_char(done, at));
            message.append(text);
            at += 5;
            done = at;
        } else {
            assert(rest.skip(1) =~= template@.skip(at + 1));
            at += 1;
        }
    }
    message.append(template.substring_char(done, len));
    message
}

/// The message that asks `server` for `text`.
pub fn query_for(server: &WhoIsServerValue, text: &str) -> (message: String)
    ensures
        message@ == query_message(server@.query, text@),
{
    match &server.query {
        Some(template) => fill_template(template.as_str(), text),
        None => {
            proof {
                reveal_strlit("$addr\r\n");
            }
            assert(DEFAULT_WHOIS_HOST_QUERY@ =~= default_query());
            fill_template(DEFAULT_WHOIS_HOST_QUERY, text)
        },
    }
}

} // verus!
