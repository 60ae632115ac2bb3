//! Constants for OpenVPN plugins, as OpenVPN's plugin header defines them,
//! and the names of the event types.

use vstd::prelude::*;

verus! {

// All types of events that a plugin can receive from OpenVPN.
pub const OPENVPN_PLUGIN_UP: i32 = 0;

pub const OPENVPN_PLUGIN_DOWN: i32 = 1;

pub const OPENVPN_PLUGIN_ROUTE_UP: i32 = 2;

pub const OPENVPN_PLUGIN_IPCHANGE: i32 = 3;

pub const OPENVPN_PLUGIN_TLS_VERIFY: i32 = 4;

pub const OPENVPN_PLUGIN_AUTH_USER_PASS_VERIFY: i32 = 5;

pub const OPENVPN_PLUGIN_CLIENT_CONNECT: i32 = 6;

pub const OPENVPN_PLUGIN_CLIENT_DISCONNECT: i32 = 7;

pub const OPENVPN_PLUGIN_LEARN_ADDRESS: i32 = 8;

pub const OPENVPN_PLUGIN_CLIENT_CONNECT_V2: i32 = 9;

pub const OPENVPN_PLUGIN_TLS_FINAL: i32 = 10;

pub const OPENVPN_PLUGIN_ENABLE_PF: i32 = 11;

pub const OPENVPN_PLUGIN_ROUTE_PREDOWN: i32 = 12;

pub const OPENVPN_PLUGIN_N: i32 = 13;

// Return values. Returned from the plugin to OpenVPN to indicate success or
// failure. Can also accept (success) or decline (error) an operation, such as
// an incoming client connection attempt.
pub const OPENVPN_PLUGIN_FUNC_SUCCESS: i32 = 0;

pub const OPENVPN_PLUGIN_FUNC_ERROR: i32 = 1;

pub const OPENVPN_PLUGIN_FUNC_DEFERRED: i32 = 2;

/// True for the numbers that name an event type.
pub open spec fn is_plugin_event(num: int) -> bool {
    OPENVPN_PLUGIN_UP <= num <= OPENVPN_PLUGIN_N
}

/// The table of event names: the name of each event type, and `UNKNOWN`
/// for every other number.
pub open spec fn plugin_event_name_of(num: int) -> Seq<char> {
    if num == OPENVPN_PLUGIN_UP {
        "PLUGIN_UP"@
    } else if num == OPENVPN_PLUGIN_DOWN {
        "PLUGIN_DOWN"@
    } else if num == OPENVPN_PLUGIN_ROUTE_UP {
        "PLUGIN_ROUTE_UP"@
    } else if num == OPENVPN_PLUGIN_IPCHANGE {
        "PLUGIN_IPCHANGE"@
    } else if num == OPENVPN_PLUGIN_TLS_VERIFY {
        "PLUGIN_TLS_VERIFY"@
    } else if num == OPENVPN_PLUGIN_AUTH_USER_PASS_VERIFY {
        "PLUGIN_AUTH_USER_PASS_VERIFY"@
    } else if num == OPENVPN_PLUGIN_CLIENT_CONNECT {
        "PLUGIN_CLIENT_CONNECT"@
    } else if num == OPENVPN_PLUGIN_CLIENT_DISCONNECT {
        "PLUGIN_CLIENT_DISCONNECT"@
    } else if num == OPENVPN_PLUGIN_LEARN_ADDRESS {
        "PLUGIN_LEARN_ADDRESS"@
    } else if num == OPENVPN_PLUGIN_CLIENT_CONNECT_V2 {
        "PLUGIN_CLIENT_CONNECT_V2"@
    } else if num == OPENVPN_PLUGIN_TLS_FINAL {
        "PLUGIN_TLS_FINAL"@
    } else if num == OPENVPN_PLUGIN_ENABLE_PF {
        "PLUGIN_ENABLE_PF"@
    } else if num == OPENVPN_PLUGIN_ROUTE_PREDOWN {
        "PLUGIN_ROUTE_PREDOWN"@
    } else if num == OPENVPN_PLUGIN_N {
        "PLUGIN_N"@
    } else {
        "UNKNOWN"@
    }
}

/// Returns the name of an OPENVPN_PLUGIN_* constant.
pub fn plugin_event_name(num: i32) -> (name: &'static str)
    ensures
        name@ == plugin_event_name_of(num as int),
        !is_plugin_event(num as int) ==> name@ == "UNKNOWN"@,
{
    match num {
        0 => "PLUGIN_UP",
        1 => "PLUGIN_DOWN",
        2 => "PLUGIN_ROUTE_UP",
        3 => "PLUGIN_IPCHANGE",
        4 => "PLUGIN_TLS_VERIFY",
        5 => "PLUGIN_AUTH_USER_PASS_VERIFY",
        6 => "PLUGIN_CLIENT_CONNECT",
        7 => "PLUGIN_CLIENT_DISCONNECT",
        8 => "PLUGIN_LEARN_ADDRESS",
        9 => "PLUGIN_CLIENT_CONNECT_V2",
        10 => "PLUGIN_TLS_FINAL",
        11 => "PLUGIN_ENABLE_PF",
        12 => "PLUGIN_ROUTE_PREDOWN",
        13 => "PLUGIN_N",
        _ => "UNKNOWN",
    }
}

/// A number has the name `UNKNOWN` exactly if it names no event type.
pub proof fn lemma_unknown_names_no_event(num: int)
    ensures
        plugin_event_name_of(num) == "UNKNOWN"@ <==> !is_plugin_event(num),
{
    reveal_strlit("UNKNOWN");
    reveal_strlit("PLUGIN_UP");
    reveal_strlit("PLUGIN_DOWN");
    reveal_strlit("PLUGIN_ROUTE_UP");
    reveal_strlit("PLUGIN_IPCHANGE");
    reveal_strlit("PLUGIN_TLS_VERIFY");
    reveal_strlit("PLUGIN_AUTH_USER_PASS_VERIFY");
    reveal_strlit("PLUGIN_CLIENT_CONNECT");
    reveal_strlit("PLUGIN_CLIENT_DISCONNECT");
    reveal_strlit("PLUGIN_LEARN_ADDRESS");
    reveal_strlit("PLUGIN_CLIENT_CONNECT_V2");
    reveal_strlit("PLUGIN_TLS_FINAL");
    reveal_strlit("PLUGIN_ENABLE_PF");
    reveal_strlit("PLUGIN_ROUTE_PREDOWN");
    reveal_strlit("PLUGIN_N");
    if is_plugin_event(num) {
        assert(plugin_event_name_of(num)[0] == 'P');
        assert("UNKNOWN"@[0] == 'U');
    }
}

} // verus!
