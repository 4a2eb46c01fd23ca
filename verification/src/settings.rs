//! Plugin settings received via the `initialize` RPC call.
//!
//! The only setting today is `client_lib_dir`: the directory holding the
//! Oracle Instant Client libraries. ODPI-C must know about it *before* the
//! first connection attempt, so `initialize` applies it immediately.
use vstd::prelude::*;

use crate::handlers::opt_str;
use crate::json::JsonValue;
use crate::models::field_str;
use crate::text::opt_view;

verus! {

/// The client library directory of a settings object, trimmed and not
/// blank.
pub fn client_lib_dir(settings: &JsonValue) -> (r: Option<String>)
    ensures
        opt_view(r) == field_str(settings@, "client_lib_dir"@),
{
    opt_str(settings, "client_lib_dir")
}

/// The client library directory an `initialize` request asks to apply.
pub fn requested_client_lib_dir(params: &JsonValue) -> (r: Option<String>)
    ensures
        opt_view(r) == match params@.get("settings"@) {
            Some(s) => field_str(s, "client_lib_dir"@),
            None => None,
        },
{
    match params.get("settings") {
        Some(s) => client_lib_dir(s),
        None => None,
    }
}

} // verus!
