//! Pool configuration: the connect string is extended with the application
//! name and the TLS mode, and the pool is bounded and set to validate
//! connections on checkout.

use vstd::prelude::*;
use vstd::string::StringExecFns;
use crate::pool::Pool;

verus! {

/// Build the full connect string and the pool configuration for it: the
/// target address is extended with the application name and a required TLS
/// mode, and the pool is bounded by `max_conn` with liveness validation on
/// checkout.
pub fn get_connection_pool(conn_spec: String, app_name: &str, max_conn: u32) -> (r: (String, Pool))
    ensures
        r.0@ == conn_spec@ + "?application_name="@ + app_name@ + "&sslmode=require"@,
        r.1.wf(),
        r.1.max_connections == max_conn,
        r.1.test_on_checkout,
        r.1.idle == 0,
        r.1.in_use == 0,
{
    let mut spec_str = conn_spec;
    spec_str.append("?application_name=");
    spec_str.append(app_name);
    spec_str.append("&sslmode=require");
    (spec_str, Pool::new(max_conn, true))
}

} // verus!
