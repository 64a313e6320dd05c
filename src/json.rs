use vstd::prelude::*;

use crate::node::ActiveNodeInfo;
use crate::text::str_eq;

verus! {

/// A JSON document as plain values.
#[derive(Debug)]
pub enum JsonValue {
    Null,
    Bool(bool),
    /// A number that is a non-negative integer within `u64`.
    UInt(u64),
    /// Any other number.
    OtherNumber,
    Text(String),
    Array(Vec<JsonValue>),
    /// The members of an object, each key once.
    Object(Vec<(String, JsonValue)>),
}

/// The value of the first member named `key`, when `v` is an object.
pub open spec fn field(v: JsonValue, key: Seq<char>) -> Option<JsonValue> {
    match v {
        JsonValue::Object(members) => member(members@, key),
        _ => None,
    }
}

pub open spec fn member(members: Seq<(String, JsonValue)>, key: Seq<char>) -> Option<JsonValue>
    decreases members.len(),
{
    if members.len() == 0 {
        None
    } else if members[0].0@ == key {
        Some(members[0].1)
    } else {
        member(members.drop_first(), key)
    }
}

/// The element at `i`, when `v` is an array long enough.
pub open spec fn element(v: JsonValue, i: nat) -> Option<JsonValue> {
    match v {
        JsonValue::Array(items) => if i < items@.len() {
            Some(items@[i as int])
        } else {
            None
        },
        _ => None,
    }
}

pub open spec fn text_of(v: Option<JsonValue>) -> Option<String> {
    match v {
        Some(JsonValue::Text(s)) => Some(s),
        _ => None,
    }
}

pub open spec fn uint_of(v: Option<JsonValue>) -> Option<u64> {
    match v {
        Some(JsonValue::UInt(n)) => Some(n),
        _ => None,
    }
}

pub open spec fn field_of(v: Option<JsonValue>, key: Seq<char>) -> Option<JsonValue> {
    match v {
        Some(x) => field(x, key),
        None => None,
    }
}

pub open spec fn element_of(v: Option<JsonValue>, i: nat) -> Option<JsonValue> {
    match v {
        Some(x) => element(x, i),
        None => None,
    }
}

/// The first server of the first outbound: `outbounds[0].settings.vnext[0]`.
pub open spec fn first_server(config: JsonValue) -> Option<JsonValue> {
    element_of(field_of(field_of(element_of(field(config, "outbounds"@), 0), "settings"@), "vnext"@), 0)
}

fn get_field<'a>(v: &'a JsonValue, key: &str) -> (r: Option<&'a JsonValue>)
    ensures
        match r {
            Some(x) => field(*v, key@) == Some(*x),
            None => field(*v, key@) is None,
        },
{
    match v {
        JsonValue::Object(members) => {
            let mut i: usize = 0;
            assert(members@.subrange(0, members@.len() as int) =~= members@);
            while i < members.len()
                invariant
                    *v == JsonValue::Object(*members),
                    i <= members@.len(),
                    member(members@, key@) == member(members@.subrange(i as int, members@.len() as int), key@),
                decreases members@.len() - i,
            {
                let ghost rest = members@.subrange(i as int, members@.len() as int);
                assert(rest.drop_first() =~= members@.subrange(i + 1, members@.len() as int));
                assert(rest[0] == members@[i as int]);
                if str_eq(members[i].0.as_str(), key) {
                    return Some(&members[i].1);
                }
                i = i + 1;
            }
            None
        },
        _ => None,
    }
}

fn get_element(v: &JsonValue, i: usize) -> (r: Option<&JsonValue>)
    ensures
        match r {
            Some(x) => element(*v, i as nat) == Some(*x),
            None => element(*v, i as nat) is None,
        },
{
    match v {
        JsonValue::Array(items) => if i < items.len() {
            Some(&items[i])
        } else {
            None
        },
        _ => None,
    }
}

fn as_text(v: &JsonValue) -> (r: Option<&String>)
    ensures
        match r {
            Some(s) => text_of(Some(*v)) == Some(*s),
            None => text_of(Some(*v)) is None,
        },
{
    match v {
        JsonValue::Text(s) => Some(s),
        _ => None,
    }
}

/// The active node a proxy configuration points at: the address, the port
/// (truncated to 16 bits) and the first user's id of the first server of the
/// first outbound; nothing when one of them is missing or of another kind.
pub open spec fn active_node_spec(config: JsonValue) -> Option<(Seq<char>, u16, Seq<char>)> {
    let server = first_server(config);
    let address = text_of(field_of(server, "address"@));
    let port = uint_of(field_of(server, "port"@));
    let user_id = text_of(field_of(element_of(field_of(server, "users"@), 0), "id"@));
    if address is Some && port is Some && user_id is Some {
        Some((address->0@, (port->0 as int % 65536) as u16, user_id->0@))
    } else {
        None
    }
}

/// Reads the active node out of the live proxy configuration.
pub fn active_node_from_config(config: &JsonValue) -> (r: Option<ActiveNodeInfo>)
    ensures
        match active_node_spec(*config) {
            Some((a, p, u)) => r is Some && r->0.address@ == a && r->0.port == p && r->0.user_id@ == u,
            None => r is None,
        },
{
    let outbounds = get_field(config, "outbounds")?;
    let outbound = get_element(outbounds, 0)?;
    let settings = get_field(outbound, "settings")?;
    let vnext = get_field(settings, "vnext")?;
    let server = get_element(vnext, 0)?;
    let address = as_text(get_field(server, "address")?)?;
    let port = match get_field(server, "port")? {
        JsonValue::UInt(n) => (*n % 65536) as u16,
        _ => return None,
    };
    let users = get_field(server, "users")?;
    let user = get_element(users, 0)?;
    let user_id = as_text(get_field(user, "id")?)?;
    Some(ActiveNodeInfo { address: address.clone(), port, user_id: user_id.clone() })
}

} // verus!
