//! The target resolver: validates and carries the collector endpoint.
//!
//! The resolver performs no network access; it only checks the port
//! option and returns a value object.  The transmitter asks the value
//! for its effective endpoint: the supplied host and port where
//! present, else the documented defaults.

use vstd::prelude::*;

use crate::errors::{CliError, Field};
use crate::numtext::{int_text_value, is_i32_text, parse_i32};
use crate::options::{OptionTable, TableView};

verus! {

/// The default collector host used when none is supplied.
pub open spec fn default_target_host_text() -> Seq<char> {
    "localhost"@
}

/// The default collector port used when none is supplied.
pub const DEFAULT_TARGET_PORT: i32 = 5555;

/// The collector endpoint as resolved from the options: each part
/// absent when its option was not supplied.
#[derive(Clone, Debug, PartialEq, Eq)]
pub struct RiemannServer {
    pub host: Option<String>,
    pub port: Option<i32>,
}

/// The mathematical model of a resolved collector endpoint.
#[verifier::ext_equal]
pub ghost struct RiemannServerView {
    pub host: Option<Seq<char>>,
    pub port: Option<i32>,
}

impl View for RiemannServer {
    type V = RiemannServerView;

    open spec fn view(&self) -> RiemannServerView {
        RiemannServerView { host: self.host.deep_view(), port: self.port }
    }
}

/// True when the port option, if present, is an integer text whose
/// value is a positive 32-bit integer.
pub open spec fn port_ok(t: TableView) -> bool {
    match t.riemann_port {
        None => true,
        Some(s) => is_i32_text(s) && int_text_value(s) > 0,
    }
}

/// The endpoint resolved from a table whose port option is valid.
pub open spec fn resolved_server(t: TableView) -> RiemannServerView
    recommends
        port_ok(t),
{
    RiemannServerView {
        host: t.riemann_host,
        port: match t.riemann_port {
            None => None,
            Some(s) => Some(int_text_value(s) as i32),
        },
    }
}

/// The host part of the effective endpoint: the resolved host, or the
/// default when none was supplied.
pub open spec fn effective_host_text(v: RiemannServerView) -> Seq<char> {
    match v.host {
        Some(h) => h,
        None => default_target_host_text(),
    }
}

/// The port part of the effective endpoint: the resolved port, or the
/// default when none was supplied.
pub open spec fn effective_port_value(v: RiemannServerView) -> i32 {
    match v.port {
        Some(p) => p,
        None => DEFAULT_TARGET_PORT,
    }
}

impl RiemannServer {
    /// Resolves the collector endpoint from the options.  The host is
    /// copied verbatim when present; the port, when present, must be a
    /// positive integer, else the resolution fails before any
    /// connection is attempted.
    pub fn from_args(table: &OptionTable) -> (r: Result<RiemannServer, CliError>)
        ensures
            port_ok(table@) ==> (r matches Ok(s) && s@ == resolved_server(table@)),
            !port_ok(table@) ==> r == Err::<RiemannServer, CliError>(
                CliError::InvalidField(Field::RiemannPort),
            ),
    {
        let port: Option<i32> = match &table.riemann_port {
            Some(ps) => {
                match parse_i32(ps.as_str()) {
                    Some(p) => {
                        if p > 0 {
                            Some(p)
                        } else {
                            return Err(CliError::InvalidField(Field::RiemannPort));
                        }
                    },
                    None => {
                        return Err(CliError::InvalidField(Field::RiemannPort));
                    },
                }
            },
            None => None,
        };
        let host: Option<String> = match &table.riemann_host {
            Some(h) => Some(h.clone()),
            None => None,
        };
        let server = RiemannServer { host, port };
        proof {
            assert(server@ =~~= resolved_server(table@));
        }
        Ok(server)
    }

    /// The host the transmitter must connect to: the resolved one, or
    /// the documented default.
    pub fn effective_host(&self) -> (r: String)
        ensures
            r@ == effective_host_text(self@),
    {
        match &self.host {
            Some(h) => h.clone(),
            None => "localhost".to_owned(),
        }
    }

    /// The port the transmitter must connect to: the resolved one, or
    /// the documented default.
    pub fn effective_port(&self) -> (r: i32)
        ensures
            r == effective_port_value(self@),
    {
        match self.port {
            Some(p) => p,
            None => DEFAULT_TARGET_PORT,
        }
    }
}

} // verus!
