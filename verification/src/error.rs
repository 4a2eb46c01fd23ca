//! Plugin-local error type, kept deliberately small.
//!
//! Every error carries a JSON-RPC error code so handlers can bubble failures
//! straight out to the host with `?`.
use vstd::prelude::*;

use crate::text::{contains, push_char, push_dec_i64, push_str, dec_int, seq_contains};

verus! {

/// JSON-RPC "internal error".
pub const INTERNAL_ERROR: i64 = -32603;

/// JSON-RPC "invalid params".
pub const INVALID_PARAMS: i64 = -32602;

/// JSON-RPC "method not found".
pub const METHOD_NOT_FOUND: i64 = -32601;

/// JSON-RPC "parse error".
pub const PARSE_ERROR: i64 = -32700;

#[derive(Debug)]
pub struct PluginError {
    pub code: i64,
    pub message: String,
}

/// The hint that replaces a DPI-1047 failure (the Oracle Client library
/// could not be loaded).
pub open spec fn client_missing_hint() -> Seq<char> {
    "Oracle Client library not found (DPI-1047). Install the Oracle Instant Client and either add it to the system PATH / LD_LIBRARY_PATH or set its directory in the plugin settings ('Oracle Client library directory')."@
}

impl View for PluginError {
    type V = (i64, Seq<char>);

    /// The code and the message.
    open spec fn view(&self) -> (i64, Seq<char>) {
        (self.code, self.message@)
    }
}

/// A result with its error taken by its code and message.
pub open spec fn res_view<T: View>(r: Result<T, PluginError>) -> Result<T::V, (i64, Seq<char>)> {
    match r {
        Ok(v) => Ok(v@),
        Err(e) => Err(e@),
    }
}

impl PluginError {
    pub fn internal(msg: String) -> (r: PluginError)
        ensures
            r.code == INTERNAL_ERROR,
            r.message@ == msg@,
    {
        PluginError { code: INTERNAL_ERROR, message: msg }
    }

    pub fn invalid_params(msg: String) -> (r: PluginError)
        ensures
            r.code == INVALID_PARAMS,
            r.message@ == msg@,
    {
        PluginError { code: INVALID_PARAMS, message: msg }
    }

    /// An operation the underlying database genuinely cannot perform. Surfaced
    /// as "method not found" so the host treats it as unsupported rather than a
    /// transient failure.
    pub fn unsupported(msg: String) -> (r: PluginError)
        ensures
            r.code == METHOD_NOT_FOUND,
            r.message@ == msg@,
    {
        PluginError { code: METHOD_NOT_FOUND, message: msg }
    }

    /// The display form: `[code] message`.
    pub fn to_display_string(&self) -> (r: String)
        ensures
            r@ == seq!['['] + dec_int(self.code as int) + "] "@ + self.message@,
    {
        let mut r = String::new();
        push_char(&mut r, '[');
        push_dec_i64(&mut r, self.code);
        push_str(&mut r, "] ");
        push_str(&mut r, self.message.as_str());
        r
    }

    /// The error for a failure the Oracle driver reports with the text
    /// `text`: an install hint when the client library could not be loaded
    /// (DPI-1047), the driver's text otherwise.
    pub fn from_oracle_text(text: &str) -> (r: PluginError)
        ensures
            r.code == INTERNAL_ERROR,
            r.message@ == (if seq_contains(text@, "DPI-1047"@) {
                client_missing_hint()
            } else {
                "oracle error: "@ + text@
            }),
    {
        if contains(text, "DPI-1047") {
            let mut m = String::new();
            push_str(
                &mut m,
                "Oracle Client library not found (DPI-1047). Install the Oracle Instant Client and either add it to the system PATH / LD_LIBRARY_PATH or set its directory in the plugin settings ('Oracle Client library directory').",
            );
            return PluginError::internal(m);
        }
        let mut m = String::new();
        push_str(&mut m, "oracle error: ");
        push_str(&mut m, text);
        PluginError::internal(m)
    }
}

} // verus!
