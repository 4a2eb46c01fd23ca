//! Connection layer logic: building an Oracle connect string from the
//! Tabularis connection form, the identity of a cached session, the JSON
//! column recovery of a failed query, and the conversion of fetched cells
//! into JSON values. Opening sessions and running statements is the
//! program's I/O around this library.
use vstd::prelude::*;

use base64::Engine;

use crate::error::{PluginError, INVALID_PARAMS};
use crate::json::{models, str_array, Json, JsonNumber, JsonValue};
use crate::models::{non_blank, ConnectionParams};
use crate::text::{
    all_digits, all_digits_range, chars_of, contains, dec, lower, opt_view, parse_i64,
    parse_i64_spec, push_char, push_dec, push_str, seq_contains, seq_starts_with, starts_with,
    str_eq, string_of, to_ascii_lowercase, trim, trim_str, views,
};
use crate::utils::json_columns::{
    is_unsupported_json_error, json_safe_projection, parse_describe, parse_describe_spec,
    projection_spec,
};

verus! {

/// A uniform result shape for the handlers.
pub struct QueryResult {
    pub columns: Vec<String>,
    pub rows: Vec<Vec<JsonValue>>,
    pub affected: u64,
}

/// The rows of a result as a JSON array of arrays.
pub open spec fn rows_json(rows: Seq<Vec<JsonValue>>) -> Json {
    Json::Array(rows.map_values(|r: Vec<JsonValue>| Json::Array(models(r@))))
}

/// The column names of a result as a JSON array.
pub open spec fn columns_json(columns: Seq<String>) -> Json {
    str_array(views(columns))
}

/// The rows of a result as one JSON value, moved rather than copied.
pub fn rows_value(rows: Vec<Vec<JsonValue>>) -> (r: JsonValue)
    ensures
        r@ == rows_json(rows@),
{
    let ghost orig = rows@;
    let ghost n = orig.len();
    let mut rows = rows;
    let mut rev: Vec<Vec<JsonValue>> = Vec::new();
    while rows.len() > 0
        invariant
            n == orig.len(),
            rows@ == orig.take(rows@.len() as int),
            rev@.len() + rows@.len() == n,
            forall|i: int| 0 <= i < rev@.len() ==> #[trigger] rev@[i] == orig[n - 1 - i],
        decreases rows@.len(),
    {
        let ghost before = rows@;
        match rows.pop() {
            Some(row) => {
                assert(row == orig[rows@.len() as int]);
                rev.push(row);
                assert(rows@ =~= orig.take(rows@.len() as int));
            },
            None => {},
        }
    }
    let mut out: Vec<JsonValue> = Vec::new();
    assert(models(out@) =~= orig.take(0).map_values(|r: Vec<JsonValue>| Json::Array(models(r@))));
    while rev.len() > 0
        invariant
            n == orig.len(),
            out@.len() + rev@.len() == n,
            forall|i: int| 0 <= i < rev@.len() ==> #[trigger] rev@[i] == orig[n - 1 - i],
            models(out@) == orig.take(out@.len() as int).map_values(
                |r: Vec<JsonValue>| Json::Array(models(r@)),
            ),
        decreases rev@.len(),
    {
        let k = out.len();
        match rev.pop() {
            Some(row) => {
                assert(row == orig[k as int]);
                JsonValue::push_item(&mut out, JsonValue::Array(row));
                assert(orig.take(k + 1) =~= orig.take(k as int).push(orig[k as int]));
                assert(models(out@) =~= orig.take(k + 1).map_values(
                    |r: Vec<JsonValue>| Json::Array(models(r@)),
                ));
            },
            None => {},
        }
    }
    assert(orig.take(n as int) =~= orig);
    JsonValue::Array(out)
}

/// The message for a host without a service name.
pub open spec fn missing_service_msg() -> Seq<char> {
    "missing service name: put the Oracle service name (e.g. FREEPDB1 or ORCLPDB1) in the Database field"@
}

/// The message for a form with neither a host nor a database.
pub open spec fn no_target_msg() -> Seq<char> {
    "no connection target: provide host + service name, or a full EZConnect string / connect descriptor / TNS alias in the Database field"@
}

/// SSL modes that select `tcps://`.
pub open spec fn uses_tls(ssl_mode: Option<Seq<char>>) -> bool {
    ssl_mode == Some("require"@) || ssl_mode == Some("verify-ca"@) || ssl_mode == Some(
        "verify-full"@,
    ) || ssl_mode == Some("verify_identity"@)
}

/// The ODPI-C connect string for a connection form, or the message of the
/// invalid-params error it is refused with.
///
/// - `database` containing `(` is a full connect descriptor → used as-is.
/// - `database` starting with `//` or a `tcp(s)://` scheme is EZConnect → as-is.
/// - `host` present → EZConnect `[tcps://]host[:port]/service` where the
///   service name comes from `database`.
/// - Otherwise `database` alone is treated as a TNS alias / EZConnect string.
pub open spec fn connect_string_spec(
    host: Option<Seq<char>>,
    port: Option<u16>,
    database: Option<Seq<char>>,
    ssl_mode: Option<Seq<char>>,
) -> Result<Seq<char>, Seq<char>> {
    let db = trim(
        match database {
            Some(d) => d,
            None => seq![],
        },
    );
    let h = match host {
        Some(h) => non_blank(h),
        None => None,
    };
    if seq_contains(db, "("@) {
        Ok(db)
    } else if seq_starts_with(db, "//"@) || seq_starts_with(lower(db), "tcp://"@)
        || seq_starts_with(lower(db), "tcps://"@) {
        Ok(db)
    } else if h is Some {
        if db.len() == 0 {
            Err(missing_service_msg())
        } else {
            let prefix = if uses_tls(ssl_mode) {
                "tcps://"@
            } else {
                "//"@
            };
            let p: u16 = match port {
                Some(p) => p,
                None => 1521,
            };
            Ok(prefix + h->0 + ":"@ + dec(p as nat) + "/"@ + db)
        }
    } else if db.len() > 0 {
        Ok(db)
    } else {
        Err(no_target_msg())
    }
}

/// Build the ODPI-C connect string from the connection form.
pub fn connect_string(params: &ConnectionParams) -> (r: Result<String, PluginError>)
    ensures
        match r {
            Ok(s) => connect_string_spec(
                opt_view(params.host),
                params.port,
                opt_view(params.database),
                opt_view(params.ssl_mode),
            ) == Ok::<Seq<char>, Seq<char>>(s@),
            Err(e) => e.code == INVALID_PARAMS && connect_string_spec(
                opt_view(params.host),
                params.port,
                opt_view(params.database),
                opt_view(params.ssl_mode),
            ) == Err::<Seq<char>, Seq<char>>(e.message@),
        },
{
    let database: &str = match &params.database {
        Some(d) => d.as_str(),
        None => "",
    };
    proof {
        reveal_strlit("");
    }
    assert(database@ == (match opt_view(params.database) {
        Some(d) => d,
        None => seq![],
    }));
    let database = trim_str(database);
    if contains(database, "(") {
        return Ok(string_of(database));
    }
    let lower_db = to_ascii_lowercase(database);
    if starts_with(database, "//") || starts_with(lower_db.as_str(), "tcp://") || starts_with(
        lower_db.as_str(),
        "tcps://",
    ) {
        return Ok(string_of(database));
    }
    let host: Option<&str> = match &params.host {
        Some(h) => {
            let t = trim_str(h.as_str());
            if t.unicode_len() > 0 {
                Some(t)
            } else {
                None
            }
        },
        None => None,
    };
    match host {
        Some(h) => {
            if database.unicode_len() == 0 {
                let mut m = String::new();
                push_str(
                    &mut m,
                    "missing service name: put the Oracle service name (e.g. FREEPDB1 or ORCLPDB1) in the Database field",
                );
                return Err(PluginError::invalid_params(m));
            }
            let use_tls = match &params.ssl_mode {
                Some(m) => str_eq(m.as_str(), "require") || str_eq(m.as_str(), "verify-ca")
                    || str_eq(m.as_str(), "verify-full") || str_eq(m.as_str(), "verify_identity"),
                None => false,
            };
            let port: u16 = match params.port {
                Some(p) => p,
                None => 1521,
            };
            let mut out = String::new();
            if use_tls {
                push_str(&mut out, "tcps://");
            } else {
                push_str(&mut out, "//");
            }
            push_str(&mut out, h);
            push_char(&mut out, ':');
            push_dec(&mut out, port as u128);
            push_char(&mut out, '/');
            push_str(&mut out, database);
            assert(out@ =~= (if use_tls {
                "tcps://"@
            } else {
                "//"@
            }) + h@ + ":"@ + dec(port as nat) + "/"@ + database@) by {
                reveal_strlit(":");
                reveal_strlit("/");
            }
            Ok(out)
        },
        None => {
            if database.unicode_len() > 0 {
                return Ok(string_of(database));
            }
            let mut m = String::new();
            push_str(
                &mut m,
                "no connection target: provide host + service name, or a full EZConnect string / connect descriptor / TNS alias in the Database field",
            );
            Err(PluginError::invalid_params(m))
        },
    }
}

// ---------------------------------------------------------------------------
// Sessions
// ---------------------------------------------------------------------------

/// What opening a session needs: the credentials, the connect string, and
/// the key under which an open session is cached and found again.
pub struct SessionTarget {
    pub username: String,
    pub password: String,
    pub target: String,
    pub key: String,
}

/// The session a connection form asks for. The username is required, the
/// password defaults to empty, and the cache key is
/// `username + U+0001 + connect string`.
pub fn session_target(params: &ConnectionParams) -> (r: Result<SessionTarget, PluginError>)
    ensures
        match r {
            Ok(t) => {
                &&& params.username is Some
                &&& t.username@ == params.username->0@
                &&& t.password@ == match params.password {
                    Some(p) => p@,
                    None => seq![],
                }
                &&& connect_string_spec(
                    opt_view(params.host),
                    params.port,
                    opt_view(params.database),
                    opt_view(params.ssl_mode),
                ) == Ok::<Seq<char>, Seq<char>>(t.target@)
                &&& t.key@ == t.username@ + seq!['\u{1}'] + t.target@
            },
            Err(e) => e.code == INVALID_PARAMS && if params.username is None {
                e.message@ == "missing username"@
            } else {
                connect_string_spec(
                    opt_view(params.host),
                    params.port,
                    opt_view(params.database),
                    opt_view(params.ssl_mode),
                ) == Err::<Seq<char>, Seq<char>>(e.message@)
            },
        },
{
    let username = match &params.username {
        Some(u) => u.clone(),
        None => return Err(PluginError::invalid_params(string_of("missing username"))),
    };
    let password = match &params.password {
        Some(p) => p.clone(),
        None => String::new(),
    };
    let target = match connect_string(params) {
        Ok(t) => t,
        Err(e) => return Err(e),
    };
    let mut key = username.clone();
    push_char(&mut key, '\u{1}');
    push_str(&mut key, target.as_str());
    Ok(SessionTarget { username, password, target, key })
}

/// The error for a session that could not be opened: the driver's error,
/// prefixed with the connect string it was opened with.
pub fn connect_failure(target: &str, base: PluginError) -> (r: PluginError)
    ensures
        r.code == base.code,
        r.message@ == "cannot connect to '"@ + target@ + "': "@ + base.message@,
{
    let mut m = string_of("cannot connect to '");
    push_str(&mut m, target);
    push_str(&mut m, "': ");
    push_str(&mut m, base.message.as_str());
    PluginError { code: base.code, message: m }
}

// ---------------------------------------------------------------------------
// Queries
// ---------------------------------------------------------------------------

/// The query that reads the JSON columns of `sql` as text, given the
/// server's description of its columns; `None` when no column is JSON.
pub open spec fn json_retry_spec(sql: Seq<char>, describe_buf: Seq<char>) -> Option<Seq<char>> {
    match projection_spec(parse_describe_spec(describe_buf)) {
        Some(p) => Some("SELECT "@ + p + " FROM ("@ + sql + ")"@),
        None => None,
    }
}

/// Describe-driven rewrite of a query that selects JSON columns: the same
/// query with those columns wrapped in `JSON_SERIALIZE`.
pub fn json_retry_sql(sql: &str, describe_buf: &str) -> (r: Option<String>)
    ensures
        opt_view(r) == json_retry_spec(sql@, describe_buf@),
{
    let cols = parse_describe(describe_buf);
    match json_safe_projection(cols.as_slice()) {
        Some(projection) => {
            let mut q = string_of("SELECT ");
            push_str(&mut q, projection.as_str());
            push_str(&mut q, " FROM (");
            push_str(&mut q, sql);
            push_str(&mut q, ")");
            Some(q)
        },
        None => None,
    }
}

/// The outcome of a query that failed on a JSON column and was retried:
/// the retried result when it succeeded, otherwise the original error.
pub fn recovered(original: PluginError, retried: Result<QueryResult, PluginError>) -> (r: Result<
    QueryResult,
    PluginError,
>)
    ensures
        match retried {
            Ok(q) => r == Ok::<QueryResult, PluginError>(q),
            Err(_) => r == Err::<QueryResult, PluginError>(original),
        },
{
    match retried {
        Ok(q) => Ok(q),
        Err(_) => Err(original),
    }
}

/// What follows the first run of a query.
pub enum FirstRun {
    /// The query's outcome stands.
    Done(Result<QueryResult, PluginError>),
    /// The query failed on a JSON column: describe it and retry, keeping
    /// this error for every other outcome.
    Describe(PluginError),
}

/// The decision after the first run: only the JSON define error leads to
/// a retry.
pub open spec fn after_first_spec(first: Result<QueryResult, PluginError>) -> FirstRun {
    match first {
        Ok(q) => FirstRun::Done(Ok(q)),
        Err(e) => if seq_contains(e.message@, "unsupported Oracle type JSON"@) {
            FirstRun::Describe(e)
        } else {
            FirstRun::Done(Err(e))
        },
    }
}

pub fn after_first(first: Result<QueryResult, PluginError>) -> (r: FirstRun)
    ensures
        r == after_first_spec(first),
{
    match first {
        Ok(q) => FirstRun::Done(Ok(q)),
        Err(e) => if is_unsupported_json_error(e.message.as_str()) {
            FirstRun::Describe(e)
        } else {
            FirstRun::Done(Err(e))
        },
    }
}

/// The retry statement a description leads to, if any.
pub open spec fn retry_sql_spec(sql: Seq<char>, described: Result<String, PluginError>) -> Option<
    Seq<char>,
> {
    match described {
        Ok(buf) => json_retry_spec(sql, buf@),
        Err(_) => None,
    }
}

/// The decision after describing `sql` server-side: the retry statement,
/// or none when the description failed or found no JSON column.
pub fn after_describe(sql: &str, described: Result<String, PluginError>) -> (r: Option<String>)
    ensures
        opt_view(r) == retry_sql_spec(sql@, described),
{
    match described {
        Ok(buf) => json_retry_sql(sql, buf.as_str()),
        Err(_) => None,
    }
}

/// The outcome of a query with the JSON-column recovery, given what each
/// step returned (a step that does not run is not looked at).
pub open spec fn query_outcome(
    sql: Seq<char>,
    first: Result<QueryResult, PluginError>,
    described: Result<String, PluginError>,
    retried: Result<QueryResult, PluginError>,
) -> Result<QueryResult, PluginError> {
    match after_first_spec(first) {
        FirstRun::Done(r) => r,
        FirstRun::Describe(e) => match retry_sql_spec(sql, described) {
            Some(_) => match retried {
                Ok(q) => Ok(q),
                Err(_) => Err(e),
            },
            None => Err(e),
        },
    }
}

/// A query that fails on a JSON column is retried with those columns
/// serialized: it succeeds exactly when the description finds a JSON
/// column and the rewritten query succeeds, with that query's rows; in
/// every other case (no JSON column, the description or the retry fails)
/// the original error surfaces. Any other outcome of the first run stands.
pub proof fn lemma_query_recovery(
    sql: Seq<char>,
    first: Result<QueryResult, PluginError>,
    described: Result<String, PluginError>,
    retried: Result<QueryResult, PluginError>,
)
    ensures
        match first {
            Err(e) => if seq_contains(e.message@, "unsupported Oracle type JSON"@) {
                &&& query_outcome(sql, first, described, retried) is Ok <==> (
                retry_sql_spec(sql, described) is Some && retried is Ok)
                &&& query_outcome(sql, first, described, retried) is Ok ==> query_outcome(
                    sql,
                    first,
                    described,
                    retried,
                ) == retried
                &&& query_outcome(sql, first, described, retried) is Err ==> query_outcome(
                    sql,
                    first,
                    described,
                    retried,
                ) == Err::<QueryResult, PluginError>(e)
            } else {
                query_outcome(sql, first, described, retried) == first
            },
            Ok(_) => query_outcome(sql, first, described, retried) == first,
        },
{
}

/// First cell of the first row, as a string.
pub fn first_cell_str(result: &QueryResult) -> (r: Option<String>)
    ensures
        opt_view(r) == if result.rows@.len() > 0 && result.rows@[0]@.len() > 0 {
            result.rows@[0]@[0]@.as_str()
        } else {
            None
        },
{
    if result.rows.len() > 0 && result.rows[0].len() > 0 {
        match result.rows[0][0].as_str() {
            Some(s) => Some(string_of(s)),
            None => None,
        }
    } else {
        None
    }
}

// ---------------------------------------------------------------------------
// Value conversion
// ---------------------------------------------------------------------------

/// How a request value is bound to a statement parameter.
pub enum Bind {
    /// SQL NULL.
    Null,
    /// An integer.
    Int(i64),
    /// A number outside the range of `i64`, bound as a double.
    Real(JsonNumber),
    /// Text.
    Text(String),
    /// An array or object, bound as its JSON text.
    Serialized(JsonValue),
}

/// Oracle SQL has no portable boolean: `true` and `false` bind as 1 and 0,
/// like NUMBER(1) columns expect.
pub open spec fn bind_spec(v: Json, b: Bind) -> bool {
    match v {
        Json::Null => b is Null,
        Json::Bool(x) => b == Bind::Int(if x {
            1
        } else {
            0
        }),
        Json::Int(i) => if i64::MIN <= i <= i64::MAX {
            b == Bind::Int(i as i64)
        } else {
            b matches Bind::Real(n) && JsonValue::Number(n)@ == v
        },
        Json::Float(_) => b matches Bind::Real(n) && JsonValue::Number(n)@ == v,
        Json::Str(s) => b matches Bind::Text(t) && t@ == s,
        _ => b matches Bind::Serialized(x) && x@ == v,
    }
}

/// The bind for a request value.
pub fn json_to_bind(value: &JsonValue) -> (r: Bind)
    ensures
        bind_spec(value@, r),
{
    match value {
        JsonValue::Null => Bind::Null,
        JsonValue::Bool(b) => Bind::Int(
            if *b {
                1
            } else {
                0
            },
        ),
        JsonValue::Number(n) => match value.as_i64() {
            Some(i) => Bind::Int(i),
            None => match n {
                JsonNumber::PosInt(u) => Bind::Real(JsonNumber::PosInt(*u)),
                JsonNumber::NegInt(i) => Bind::Real(JsonNumber::NegInt(*i)),
                JsonNumber::Float(t) => Bind::Real(JsonNumber::Float(t.clone())),
            },
        },
        JsonValue::String(s) => Bind::Text(s.clone()),
        _ => Bind::Serialized(value.duplicate()),
    }
}

/// Names what `base64`'s standard engine (standard alphabet, with padding)
/// returns for a byte string.
pub uninterp spec fn base64_standard(bytes: Seq<u8>) -> Seq<char>;

/// The encoded length of `n` bytes fits in `usize`.
pub open spec fn base64_fits(n: nat) -> bool {
    (n / 3) * 4 + (if n % 3 > 0 {
        4nat
    } else {
        0nat
    }) <= usize::MAX
}

/// `base64::engine::general_purpose::STANDARD.encode`. Trusted: the result
/// is the standard padded encoding of the bytes, four characters for each
/// started group of three bytes. The engine panics when that length
/// overflows `usize`, which `requires` excludes.
#[verifier::external_body]
fn base64_encode(bytes: &[u8]) -> (r: String)
    requires
        base64_fits(bytes@.len()),
    ensures
        r@ == base64_standard(bytes@),
        r@.len() == (bytes@.len() + 2) / 3 * 4,
{
    base64::engine::general_purpose::STANDARD.encode(bytes)
}

/// A RAW/BLOB cell: base64 text, or null.
pub fn binary_cell(bytes: Option<Vec<u8>>) -> (r: JsonValue)
    requires
        match bytes {
            Some(b) => base64_fits(b@.len()),
            None => true,
        },
    ensures
        r@ == match bytes {
            Some(b) => Json::Str(base64_standard(b@)),
            None => Json::Null,
        },
{
    match bytes {
        Some(b) => JsonValue::String(base64_encode(b.as_slice())),
        None => JsonValue::Null,
    }
}

/// A cell fetched as text: the text, or null.
pub fn text_cell(text: Option<String>) -> (r: JsonValue)
    ensures
        r@ == match opt_view(text) {
            Some(s) => Json::Str(s),
            None => Json::Null,
        },
{
    match text {
        Some(s) => JsonValue::String(s),
        None => JsonValue::Null,
    }
}

/// Digits with an optional leading `-`.
pub open spec fn plain_integer(s: Seq<char>) -> bool {
    let digits = if s.len() > 0 && s[0] == '-' {
        s.drop_first()
    } else {
        s
    };
    digits.len() > 0 && all_digits(digits)
}

/// Oracle's text rendering of an integer as JSON: exact when it fits in
/// `i64`, else kept as a string rather than losing precision; `None` for
/// the text of a non-integral number.
pub open spec fn parse_number_spec(s: Seq<char>) -> Option<Json> {
    match parse_i64_spec(s) {
        Some(i) => Some(Json::Int(i as int)),
        None => if plain_integer(s) {
            Some(Json::Str(s))
        } else {
            None
        },
    }
}

/// Parse Oracle's text rendering of a number into a JSON value, keeping
/// integers exact. Integers too large for i64 stay strings rather than
/// losing precision through f64; for other numbers (`None`) the caller
/// reads the text as a double.
pub fn parse_number(s: &str) -> (r: Option<JsonValue>)
    ensures
        match r {
            Some(v) => parse_number_spec(s@) == Some(v@),
            None => parse_number_spec(s@) is None,
        },
{
    match parse_i64(s) {
        Some(i) => return Some(JsonValue::from_i64(i)),
        None => {},
    }
    let v = chars_of(s);
    let lo: usize = if v.len() > 0 && v[0] == '-' {
        1
    } else {
        0
    };
    assert(v@.subrange(lo as int, v@.len() as int) =~= (if s@.len() > 0 && s@[0] == '-' {
        s@.drop_first()
    } else {
        s@
    }));
    if v.len() > lo && all_digits_range(&v, lo, v.len()) {
        Some(JsonValue::from_str(s))
    } else {
        None
    }
}

/// A full connect descriptor or an EZConnect string in the Database field
/// is used as it is, whatever the Host, Port and SSL mode say.
pub proof fn lemma_database_forms_ignore_host(
    host_a: Option<Seq<char>>,
    port_a: Option<u16>,
    ssl_a: Option<Seq<char>>,
    host_b: Option<Seq<char>>,
    port_b: Option<u16>,
    ssl_b: Option<Seq<char>>,
    database: Seq<char>,
)
    requires
        seq_contains(trim(database), "("@) || seq_starts_with(trim(database), "//"@)
            || seq_starts_with(lower(trim(database)), "tcp://"@) || seq_starts_with(
            lower(trim(database)),
            "tcps://"@,
        ),
    ensures
        connect_string_spec(host_a, port_a, Some(database), ssl_a) == Ok::<Seq<char>, Seq<char>>(
            trim(database),
        ),
        connect_string_spec(host_a, port_a, Some(database), ssl_a) == connect_string_spec(
            host_b,
            port_b,
            Some(database),
            ssl_b,
        ),
{
}

/// Different logins give different cache keys: the key of a session
/// determines its username and connect string, for usernames without the
/// separator U+0001.
pub proof fn lemma_session_key_injective(
    user_a: Seq<char>,
    target_a: Seq<char>,
    user_b: Seq<char>,
    target_b: Seq<char>,
)
    requires
        !user_a.contains('\u{1}'),
        !user_b.contains('\u{1}'),
        user_a + seq!['\u{1}'] + target_a == user_b + seq!['\u{1}'] + target_b,
    ensures
        user_a == user_b,
        target_a == target_b,
{
    let key = user_a + seq!['\u{1}'] + target_a;
    assert(key[user_a.len() as int] == '\u{1}');
    assert(key[user_b.len() as int] == '\u{1}');
    if user_a.len() < user_b.len() {
        assert(key[user_a.len() as int] == user_b[user_a.len() as int]);
        assert(user_b.contains('\u{1}'));
    } else if user_b.len() < user_a.len() {
        assert(key[user_b.len() as int] == user_a[user_b.len() as int]);
        assert(user_a.contains('\u{1}'));
    }
    assert(user_a =~= key.subrange(0, user_a.len() as int));
    assert(user_b =~= key.subrange(0, user_b.len() as int));
    assert(target_a =~= key.subrange(user_a.len() as int + 1, key.len() as int));
    assert(target_b =~= key.subrange(user_b.len() as int + 1, key.len() as int));
}

/// A form with a host and a service name, whose Database field is neither
/// a connect descriptor nor an EZConnect string, connects by EZConnect:
/// `tcps://` for the SSL modes require, verify-ca, verify-full and
/// verify_identity, `//` for any other, then the host, `:`, the port (1521
/// when none is given), `/` and the service name. Without a service name
/// such a form is refused. The host is taken trimmed.
pub proof fn lemma_connect_string_host(
    host: Seq<char>,
    port: Option<u16>,
    database: Option<Seq<char>>,
    ssl_mode: Option<Seq<char>>,
)
    ensures
        ({
            let db = trim(
                match database {
                    Some(d) => d,
                    None => seq![],
                },
            );
            let plain = !seq_contains(db, "("@) && !seq_starts_with(db, "//"@) && !seq_starts_with(
                lower(db),
                "tcp://"@,
            ) && !seq_starts_with(lower(db), "tcps://"@);
            let tls = ssl_mode == Some("require"@) || ssl_mode == Some("verify-ca"@) || ssl_mode
                == Some("verify-full"@) || ssl_mode == Some("verify_identity"@);
            let p: u16 = match port {
                Some(p) => p,
                None => 1521,
            };
            &&& trim(host).len() > 0 && plain && db.len() > 0 ==> connect_string_spec(
                Some(host),
                port,
                database,
                ssl_mode,
            ) == Ok::<Seq<char>, Seq<char>>(
                (if tls {
                    "tcps://"@
                } else {
                    "//"@
                }) + trim(host) + ":"@ + dec(p as nat) + "/"@ + db,
            )
            &&& trim(host).len() > 0 && plain && db.len() == 0 ==> connect_string_spec(
                Some(host),
                port,
                database,
                ssl_mode,
            ) is Err
        }),
{
}

/// Request values bind as Oracle expects them: null as NULL, `true` as 1
/// and `false` as 0, an integer that fits in `i64` as that integer, a
/// string as its text, and an array or object as its JSON text.
pub proof fn lemma_binds(v: Json, b: Bind)
    requires
        bind_spec(v, b),
    ensures
        v == Json::Null ==> b is Null,
        v == Json::Bool(true) ==> b == Bind::Int(1),
        v == Json::Bool(false) ==> b == Bind::Int(0),
        v is Int && i64::MIN <= v->Int_0 <= i64::MAX ==> b == Bind::Int(v->Int_0 as i64),
        v is Str ==> (b matches Bind::Text(t) && t@ == v->Str_0),
        v is Array || v is Object ==> (b matches Bind::Serialized(x) && x@ == v),
{
}

} // verus!
