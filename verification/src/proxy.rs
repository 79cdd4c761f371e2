use vstd::prelude::*;

use crate::text::str_equals;

verus! {

/// What a proxy can do, as `Proxy.get_cap` reports it.
#[derive(Debug, Clone, Copy, PartialEq, Eq, Structural)]
pub enum ProxyCapability {
    Frontend,
    Backend,
    Proxy,
    Ruleset,
}

/// How a proxy handles traffic, as `Proxy.get_mode` reports it.
#[derive(Debug, Clone, Copy, PartialEq, Eq, Structural)]
pub enum ProxyMode {
    Tcp,
    Http,
    Health,
    Unknown,
}

/// The capability a `get_cap` answer names; any name other than
/// `frontend`, `backend` and `proxy` is a ruleset.
pub open spec fn capability_named(name: Seq<char>) -> ProxyCapability {
    if name == "frontend"@ {
        ProxyCapability::Frontend
    } else if name == "backend"@ {
        ProxyCapability::Backend
    } else if name == "proxy"@ {
        ProxyCapability::Proxy
    } else {
        ProxyCapability::Ruleset
    }
}

/// The mode a `get_mode` answer names; any name other than `tcp`, `http`
/// and `health` is unknown.
pub open spec fn mode_named(name: Seq<char>) -> ProxyMode {
    if name == "tcp"@ {
        ProxyMode::Tcp
    } else if name == "http"@ {
        ProxyMode::Http
    } else if name == "health"@ {
        ProxyMode::Health
    } else {
        ProxyMode::Unknown
    }
}

impl ProxyCapability {
    /// Reads the capability name HAProxy reports.
    pub fn from_name(name: &str) -> (r: ProxyCapability)
        ensures
            r == capability_named(name@),
    {
        if str_equals(name, "frontend") {
            ProxyCapability::Frontend
        } else if str_equals(name, "backend") {
            ProxyCapability::Backend
        } else if str_equals(name, "proxy") {
            ProxyCapability::Proxy
        } else {
            ProxyCapability::Ruleset
        }
    }
}

impl ProxyMode {
    /// Reads the mode name HAProxy reports.
    pub fn from_name(name: &str) -> (r: ProxyMode)
        ensures
            r == mode_named(name@),
    {
        if str_equals(name, "tcp") {
            ProxyMode::Tcp
        } else if str_equals(name, "http") {
            ProxyMode::Http
        } else if str_equals(name, "health") {
            ProxyMode::Health
        } else {
            ProxyMode::Unknown
        }
    }
}

} // verus!
