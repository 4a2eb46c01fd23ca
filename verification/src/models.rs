//! Shared request shapes.
//!
//! `ConnectionParams` mirrors the values the user typed into the Tabularis
//! connection form. For Oracle: `host`/`port` point at the listener,
//! `database` holds the service name (or a full EZConnect string / connect
//! descriptor / TNS alias), and `username`/`password` are the credentials.
use vstd::prelude::*;

use crate::handlers::opt_str;
use crate::json::{models, lemma_models, Json, JsonValue};
use crate::text::{opt_view, parse_u64, parse_u64_spec, string_of, trim, trim_str};

verus! {

#[derive(Debug, Default)]
pub struct ConnectionParams {
    pub driver: Option<String>,
    pub host: Option<String>,
    pub port: Option<u16>,
    pub database: Option<String>,
    pub username: Option<String>,
    pub password: Option<String>,
    pub ssl_mode: Option<String>,
}

/// A trimmed, non-empty string.
pub open spec fn non_blank(s: Seq<char>) -> Option<Seq<char>> {
    if trim(s).len() > 0 {
        Some(trim(s))
    } else {
        None
    }
}

/// The string field `key`, trimmed, when present and not blank.
pub open spec fn field_str(value: Json, key: Seq<char>) -> Option<Seq<char>> {
    match value.get(key) {
        Some(v) => match v.as_str() {
            Some(s) => non_blank(s),
            None => None,
        },
        None => None,
    }
}

/// The port: a number, or a string holding one, that fits in a `u16`.
pub open spec fn field_port(value: Json) -> Option<u16> {
    let p = match value.get("port"@) {
        Some(v) => match v.as_u64() {
            Some(n) => Some(n),
            None => match v.as_str() {
                Some(s) => parse_u64_spec(s),
                None => None,
            },
        },
        None => None,
    };
    match p {
        Some(n) => if n <= 65535 {
            Some(n as u16)
        } else {
            None
        },
        None => None,
    }
}

/// The first string among `items`.
pub open spec fn first_string(items: Seq<Json>) -> Option<Seq<char>>
    decreases items.len(),
{
    if items.len() == 0 {
        None
    } else {
        match items[0].as_str() {
            Some(s) => Some(s),
            None => first_string(items.drop_first()),
        }
    }
}

/// The service: a string, or the first string of an array, trimmed and not
/// blank.
pub open spec fn field_database(value: Json) -> Option<Seq<char>> {
    let d = match value.get("database"@) {
        Some(Json::Str(s)) => Some(s),
        Some(Json::Array(items)) => first_string(items),
        _ => None,
    };
    match d {
        Some(s) => non_blank(s),
        None => None,
    }
}

/// A trimmed, non-empty copy of `s`.
fn non_blank_string(s: &str) -> (r: Option<String>)
    ensures
        opt_view(r) == non_blank(s@),
{
    let t = trim_str(s);
    if t.unicode_len() > 0 {
        Some(string_of(t))
    } else {
        None
    }
}

impl ConnectionParams {
    pub fn from_value(value: &JsonValue) -> (r: ConnectionParams)
        ensures
            opt_view(r.driver) == field_str(value@, "driver"@),
            opt_view(r.host) == field_str(value@, "host"@),
            r.port == field_port(value@),
            opt_view(r.database) == field_database(value@),
            opt_view(r.username) == field_str(value@, "username"@),
            opt_view(r.password) == field_str(value@, "password"@),
            opt_view(r.ssl_mode) == field_str(value@, "ssl_mode"@),
    {
        let p: Option<u64> = match value.get("port") {
            Some(v) => match v.as_u64() {
                Some(n) => Some(n),
                None => match v.as_str() {
                    Some(s) => parse_u64(s),
                    None => None,
                },
            },
            None => None,
        };
        let port: Option<u16> = match p {
            Some(n) => if n <= 65535 {
                Some(n as u16)
            } else {
                None
            },
            None => None,
        };
        // The host serialises `database` as an untagged enum: either a plain
        // string or an array of names (multi-select). Oracle serves one
        // service per connection, so take the first entry.
        let database: Option<String> = match value.get("database") {
            Some(JsonValue::String(s)) => non_blank_string(s.as_str()),
            Some(JsonValue::Array(items)) => {
                let ghost m = models(items@);
                proof {
                    lemma_models(items@);
                }
                let mut i: usize = 0;
                let mut found: Option<String> = None;
                assert(m.skip(0) =~= m);
                while i < items.len()
                    invariant_except_break
                        found is None,
                    invariant
                        i <= items@.len(),
                        m == models(items@),
                        m.len() == items@.len(),
                        forall|j: int| 0 <= j < items@.len() ==> #[trigger] m[j] == items@[j]@,
                        first_string(m) == first_string(m.skip(i as int)),
                    ensures
                        opt_view(found) == match first_string(m) {
                            Some(s) => non_blank(s),
                            None => None,
                        },
                    decreases items@.len() - i,
                {
                    assert(m.skip(i as int).drop_first() =~= m.skip(i + 1));
                    assert(m.skip(i as int)[0] == m[i as int]);
                    match items[i].as_str() {
                        Some(s) => {
                            found = non_blank_string(s);
                            break ;
                        },
                        None => {},
                    }
                    i = i + 1;
                }
                proof {
                    if i == items@.len() {
                        assert(m.skip(i as int) =~= Seq::<Json>::empty());
                    }
                }
                found
            },
            _ => None,
        };
        ConnectionParams {
            driver: opt_str(value, "driver"),
            host: opt_str(value, "host"),
            port,
            database,
            username: opt_str(value, "username"),
            password: opt_str(value, "password"),
            ssl_mode: opt_str(value, "ssl_mode"),
        }
    }
}

/// Extract the nested `params` object every RPC method receives. Tabularis
/// wraps the connection params in `params.params`.
pub fn inner_params(value: &JsonValue) -> (r: &JsonValue)
    ensures
        r@ == match value@.get("params"@) {
            Some(v) => v,
            None => Json::Null,
        },
{
    match value.get("params") {
        Some(v) => v,
        None => &JsonValue::Null,
    }
}

/// The port of a form: a JSON integer from 0 to 65535 is taken as it is,
/// a larger or negative one is no port, and an absent port is none.
pub proof fn lemma_field_port(value: Json, n: int)
    ensures
        value.get("port"@) == Some(Json::Int(n)) && 0 <= n <= 65535 ==> field_port(value) == Some(
            n as u16,
        ),
        value.get("port"@) == Some(Json::Int(n)) && !(0 <= n <= 65535) ==> field_port(value)
            is None,
        value.get("port"@) is None ==> field_port(value) is None,
{
}

/// The service of a form: the `database` string, or the first string of a
/// `database` array, trimmed, when not blank.
pub proof fn lemma_field_database(value: Json, s: Seq<char>, items: Seq<Json>)
    ensures
        value.get("database"@) == Some(Json::Str(s)) ==> field_database(value) == (if trim(s).len()
            > 0 {
            Some(trim(s))
        } else {
            None
        }),
        value.get("database"@) == Some(Json::Array(items)) && items.len() > 0 && items[0] == Json::Str(
            s,
        ) ==> field_database(value) == (if trim(s).len() > 0 {
            Some(trim(s))
        } else {
            None
        }),
        value.get("database"@) is None ==> field_database(value) is None,
{
}

} // verus!
