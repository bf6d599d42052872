//! The registry: which WHOIS server answers for which domain suffix, and
//! which one answers for IP addresses.

use vstd::prelude::*;
use vstd::hash_map::StringHashMap;
use crate::error::{Failure, MapFault, WhoIsError};
use crate::json::{lemma_object_view, member_of, JsonValue, JsonView};
use crate::server::{server_of_value, ServerView, WhoIsServerValue};
use crate::text::{chars_of, lemma_lowercase_twice, lowercase, same_text, to_lowercase};

verus! {

/// A registry, to contracts: the server of each suffix that has one, and the
/// server for IP addresses.
pub struct RegistryView {
    pub entries: Map<Seq<char>, ServerView>,
    pub ip: ServerView,
}

/// Whether every suffix that has a server is written in small letters.
pub open spec fn in_small_letters<V>(entries: Map<Seq<char>, V>) -> bool {
    forall|name: Seq<char>| #[trigger] entries.contains_key(name) ==> lowercase(name) == name
}

/// The server for IP addresses that a server list names: the `ip` member of
/// its `_` member.
pub open spec fn fallback_of(members: Seq<(Seq<char>, JsonView)>) -> Result<ServerView, MapFault> {
    match member_of(members, "_"@) {
        None => Err(MapFault::NoUnderscore),
        Some(JsonView::Object(inner)) => match member_of(inner, "ip"@) {
            None => Err(MapFault::NoIp),
            Some(JsonView::Null) => Err(MapFault::IpNull),
            Some(ip) => server_of_value(ip),
        },
        Some(_) => Err(MapFault::UnderscoreNotObject),
    }
}

/// The servers by suffix that a server list names. The members are taken in
/// their order: `_` is passed over, a null is dropped, anything else has to
/// be a server and is kept under its name in small letters, and a later
/// member replaces an earlier one of that name. The first member that is no
/// server decides the fault.
pub open spec fn entries_of(members: Seq<(Seq<char>, JsonView)>) -> Result<
    Map<Seq<char>, ServerView>,
    MapFault,
>
    decreases members.len(),
{
    if members.len() == 0 {
        Ok(Map::empty())
    } else {
        match entries_of(members.drop_last()) {
            Err(fault) => Err(fault),
            Ok(entries) => {
                let (name, value) = members.last();
                if name == "_"@ || value is Null {
                    Ok(entries)
                } else {
                    match server_of_value(value) {
                        Ok(server) => Ok(entries.insert(lowercase(name), server)),
                        Err(fault) => Err(fault),
                    }
                }
            },
        }
    }
}

/// The registry that a server list stands for. A fault in the server for IP
/// addresses comes before a fault in any other member.
pub open spec fn registry_of(config: JsonView) -> Result<RegistryView, MapFault> {
    match config {
        JsonView::Object(members) => match fallback_of(members) {
            Err(fault) => Err(fault),
            Ok(ip) => match entries_of(members) {
                Err(fault) => Err(fault),
                Ok(entries) => Ok(RegistryView { entries, ip }),
            },
        },
        _ => Err(MapFault::ListNotObject),
    }
}

/// What is left of a name when its first label goes: what follows the first
/// dot, or nothing where there is no dot.
pub open spec fn strip_label(name: Seq<char>) -> Seq<char>
    decreases name.len(),
{
    if name.len() == 0 {
        name
    } else if name[0] == '.' {
        name.skip(1)
    } else {
        strip_label(name.skip(1))
    }
}

/// Whether selection tries the suffix of `name` that starts at `at`: the
/// whole name, what follows a dot, and the empty name at the end.
pub open spec fn is_label_start(name: Seq<char>, at: int) -> bool {
    0 <= at <= name.len() && (at == 0 || at == name.len() || name[at - 1] == '.')
}

/// Stripping a label cuts a name behind its first dot, or to nothing.
pub proof fn lemma_strip_label(name: Seq<char>)
    requires
        name.len() > 0,
    ensures
        ({
            let cut = name.len() - strip_label(name).len();
            &&& 0 < cut <= name.len()
            &&& strip_label(name) == name.skip(cut)
            &&& forall|j: int| 0 <= j < cut - 1 ==> name[j] != '.'
            &&& is_label_start(name, cut)
        }),
    decreases name.len(),
{
    if name[0] != '.' {
        if name.len() == 1 {
            assert(strip_label(name.skip(1)).len() == 0);
        } else {
            let rest = name.skip(1);
            lemma_strip_label(rest);
            let cut = rest.len() - strip_label(rest).len();
            assert forall|j: int| 0 <= j < cut implies name[j] != '.' by {
                if j > 0 {
                    assert(rest[j - 1] == name[j]);
                }
            }
        }
    }
}

/// The server for a name: that of the name itself where it has one, else that
/// of the name without its first label, and so on; once nothing is left, the
/// catch-all, which is the server of the empty name.
pub open spec fn select_entry(entries: Map<Seq<char>, ServerView>, name: Seq<char>) -> Option<
    ServerView,
>
    decreases name.len(),
{
    if entries.contains_key(name) {
        Some(entries[name])
    } else if name.len() == 0 {
        None
    } else {
        proof {
            lemma_strip_label(name);
        }
        select_entry(entries, strip_label(name))
    }
}

/// The list of WHOIS servers. It does not change once it is built.
pub struct WhoIs {
    map: StringHashMap<WhoIsServerValue>,
    ip: WhoIsServerValue,
}

impl View for WhoIs {
    type V = RegistryView;

    closed spec fn view(&self) -> RegistryView {
        RegistryView { entries: self.map@.map_values(|s: WhoIsServerValue| s@), ip: self.ip@ }
    }
}

impl WhoIs {
    /// The suffixes are kept in small letters.
    #[verifier::type_invariant]
    spec fn keys_small(self) -> bool {
        in_small_letters(self.map@)
    }

    /// The registry that a server list stands for.
    pub fn from_value(config: &JsonValue) -> (registry: Result<WhoIs, WhoIsError>)
        ensures
            match registry {
                Ok(r) => registry_of(config@) == Ok::<RegistryView, MapFault>(r@)
                    && in_small_letters(r@.entries),
                Err(e) => registry_of(config@) matches Err(fault) && e@ == Failure::Config(fault),
            },
    {
        let members = match config {
            JsonValue::Object(members) => members,
            _ => {
                return Err(WhoIsError::MapError(MapFault::ListNotObject));
            },
        };
        let ghost all = config@->Object_0;
        proof {
            lemma_object_view(*members);
        }
        let ip = match config.get("_") {
            None => {
                return Err(WhoIsError::MapError(MapFault::NoUnderscore));
            },
            Some(underscore) => match underscore {
                JsonValue::Object(_) => match underscore.get("ip") {
                    None => {
                        return Err(WhoIsError::MapError(MapFault::NoIp));
                    },
                    Some(JsonValue::Null) => {
                        return Err(WhoIsError::MapError(MapFault::IpNull));
                    },
                    Some(ip) => match WhoIsServerValue::from_value(ip) {
                        Ok(server) => server,
                        Err(fault) => {
                            return Err(WhoIsError::MapError(fault));
                        },
                    },
                },
                _ => {
                    return Err(WhoIsError::MapError(MapFault::UnderscoreNotObject));
                },
            },
        };
        let mut map: StringHashMap<WhoIsServerValue> = StringHashMap::with_capacity(members.len());
        let mut i: usize = 0;
        assert(map@.map_values(|s: WhoIsServerValue| s@) =~= Map::empty());
        while i < members.len()
            invariant
                i <= members.len(),
                all.len() == members.len(),
                config@ == JsonView::Object(all),
                fallback_of(all) == Ok::<ServerView, MapFault>(ip@),
                forall|j: int|
                    0 <= j < members.len() ==> #[trigger] all[j] == (
                        members[j].0@,
                        members[j].1@,
                    ),
                entries_of(all.take(i as int)) == Ok::<Map<Seq<char>, ServerView>, MapFault>(
                    map@.map_values(|s: WhoIsServerValue| s@),
                ),
                in_small_letters(map@),
            decreases members.len() - i,
        {
            let ghost before = map@;
            assert(all.take(i + 1).drop_last() =~= all.take(i as int));
            let name = &members[i].0;
            let value = &members[i].1;
            let skip = same_text(name.as_str(), "_") || match value {
                JsonValue::Null => true,
                _ => false,
            };
            if !skip {
                match WhoIsServerValue::from_value(value) {
                    Ok(server) => {
                        proof {
                            lemma_lowercase_twice(name@);
                        }
                        map.insert(to_lowercase(name.as_str()), server);
                        assert(map@.map_values(|s: WhoIsServerValue| s@) =~= before.map_values(
                            |s: WhoIsServerValue| s@,
                        ).insert(lowercase(name@), server@));
                    },
                    Err(fault) => {
                        proof {
                            lemma_fault_stays(all, i + 1);
                        }
                        return Err(WhoIsError::MapError(fault));
                    },
                }
            }
            i += 1;
        }
        assert(all.take(i as int) =~= all);
        Ok(WhoIs { map, ip })
    }

    /// The server for IP addresses.
    pub fn ip_fallback(&self) -> (server: &WhoIsServerValue)
        ensures
            server@ == self@.ip,
    {
        &self.ip
    }

    /// The server for a domain: that of its longest suffix that has one, else
    /// the catch-all. The domain is read in small letters, as the suffixes
    /// are kept.
    pub fn select(&self, domain: &str) -> (server: Result<&WhoIsServerValue, WhoIsError>)
        ensures
            in_small_letters(self@.entries),
            match server {
                Ok(s) => select_entry(self@.entries, lowercase(domain@)) == Some(s@),
                Err(e) => select_entry(self@.entries, lowercase(domain@)) is None && e@
                    == Failure::NoServer,
            },
    {
        proof {
            use_type_invariant(self);
        }
        let small = to_lowercase(domain);
        let name = small.as_str();
        let chars = chars_of(name);
        let len = chars.len();
        let ghost entries = self@.entries;
        let mut start: usize = 0;
        assert(name@.skip(0) =~= name@);
        loop
            invariant
                start <= len,
                len == name@.len(),
                chars@ == name@,
                entries == self@.entries,
                in_small_letters(entries),
                name@ == lowercase(domain@),
                select_entry(entries, name@) == select_entry(entries, name@.skip(start as int)),
            decreases len - start,
        {
            let suffix = name.substring_char(start, len);
            match self.map.get(suffix) {
                Some(server) => {
                    return Ok(server);
                },
                None => {},
            }
            if start == len {
                return Err(WhoIsError::NoServer);
            }
            let ghost from = start;
            let mut dot: usize = start;
            while dot < len && chars[dot] != '.'
                invariant
                    start <= dot <= len,
                    len == chars.len(),
                    chars@ == name@,
                    strip_label(name@.skip(start as int)) == strip_label(name@.skip(dot as int)),
                decreases len - dot,
            {
                assert(name@.skip(dot as int).skip(1) =~= name@.skip(dot + 1));
                dot += 1;
            }
            if dot < len {
                start = dot + 1;
            } else {
                start = len;
            }
            assert(name@.skip(start as int) == strip_label(name@.skip(from as int)));
        }
    }
}

/// Once a member is no server, the members after it change nothing.
pub proof fn lemma_fault_stays(members: Seq<(Seq<char>, JsonView)>, upto: int)
    requires
        0 <= upto <= members.len(),
        entries_of(members.take(upto)) is Err,
    ensures
        entries_of(members) == entries_of(members.take(upto)),
    decreases members.len() - upto,
{
    if upto < members.len() {
        assert(members.take(upto + 1).drop_last() =~= members.take(upto));
        lemma_fault_stays(members, upto + 1);
    } else {
        assert(members.take(upto) =~= members);
    }
}

/// Selection gives a name the server of its longest suffix that has one:
/// where the suffix at `at` has a server and no suffix before it has, that
/// server is selected.
pub proof fn lemma_select_longest_suffix(
    entries: Map<Seq<char>, ServerView>,
    name: Seq<char>,
    at: int,
)
    requires
        is_label_start(name, at),
        entries.contains_key(name.skip(at)),
        forall|j: int| 0 <= j < at && is_label_start(name, j) ==> !entries.contains_key(
            #[trigger] name.skip(j),
        ),
    ensures
        select_entry(entries, name) == Some(entries[name.skip(at)]),
    decreases name.len(),
{
    assert(name.skip(0) =~= name);
    if at > 0 {
        lemma_strip_label(name);
        let cut = name.len() - strip_label(name).len();
        let rest = name.skip(cut);
        assert(rest.skip(at - cut) =~= name.skip(at));
        assert forall|j: int| 0 <= j < at - cut && is_label_start(rest, j) implies !entries.contains_key(
            #[trigger] rest.skip(j),
        ) by {
            assert(rest.skip(j) =~= name.skip(j + cut));
        }
        lemma_select_longest_suffix(entries, rest, at - cut);
    }
}

/// Where no suffix of a name has a server, selection gives the catch-all,
/// the server of the empty name, and fails where there is none.
pub proof fn lemma_select_catch_all(entries: Map<Seq<char>, ServerView>, name: Seq<char>)
    requires
        forall|j: int| 0 <= j < name.len() && is_label_start(name, j) ==> !entries.contains_key(
            #[trigger] name.skip(j),
        ),
    ensures
        select_entry(entries, name) == if entries.contains_key(Seq::<char>::empty()) {
            Some(entries[Seq::<char>::empty()])
        } else {
            None
        },
    decreases name.len(),
{
    assert(name.skip(name.len() as int) =~= Seq::<char>::empty());
    if entries.contains_key(Seq::<char>::empty()) {
        lemma_select_longest_suffix(entries, name, name.len() as int);
    } else if name.len() > 0 {
        assert(name.skip(0) =~= name);
        lemma_strip_label(name);
        let cut = name.len() - strip_label(name).len();
        let rest = name.skip(cut);
        assert forall|j: int| 0 <= j < rest.len() && is_label_start(rest, j) implies !entries.contains_key(
            #[trigger] rest.skip(j),
        ) by {
            assert(rest.skip(j) =~= name.skip(j + cut));
        }
        lemma_select_catch_all(entries, rest);
    } else {
        assert(name =~= Seq::<char>::empty());
    }
}

/// The value that a server list gives for the server for IP addresses: the
/// `ip` member of its `_` member.
pub open spec fn fallback_value(config: JsonView) -> Option<JsonView> {
    match config.get("_"@) {
        Some(underscore) => underscore.get("ip"@),
        None => None,
    }
}

/// A server list without a server for IP addresses is no registry: where the
/// list has no `_`, where its `_` is no object or has no `ip`, and where the
/// `ip` is null or neither an object nor a string, building fails, and with
/// the fault that says so.
pub proof fn lemma_fallback_required(config: JsonView)
    requires
        config is Object,
    ensures
        config.get("_"@) is None ==> registry_of(config) == Err::<RegistryView, MapFault>(
            MapFault::NoUnderscore,
        ),
        config.get("_"@) matches Some(underscore) && !(underscore is Object) ==> registry_of(config)
            == Err::<RegistryView, MapFault>(MapFault::UnderscoreNotObject),
        config.get("_"@) matches Some(underscore) && underscore is Object && fallback_value(config)
            is None ==> registry_of(config) == Err::<RegistryView, MapFault>(MapFault::NoIp),
        fallback_value(config) == Some(JsonView::Null) ==> registry_of(config) == Err::<
            RegistryView,
            MapFault,
        >(MapFault::IpNull),
        fallback_value(config) matches Some(ip) && !(ip is Null) && !(ip is Object) && !(ip
            is Text) ==> registry_of(config) == Err::<RegistryView, MapFault>(
            MapFault::ValueNotObjectOrString,
        ),
{
}

} // verus!
