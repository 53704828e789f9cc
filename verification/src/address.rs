//! The address under which clients reach the service.

use vstd::prelude::*;
use crate::decimal::{append_decimal, decimal};

verus! {

/// The scheme of a service address. It follows the security label of the
/// configuration and nothing else.
#[derive(Clone, Copy, Debug, PartialEq, Eq, Structural)]
pub enum Scheme {
    Http,
    Https,
}

impl Scheme {
    /// `Https` for a secure service, `Http` otherwise.
    pub open spec fn of(secure: bool) -> Scheme {
        if secure {
            Scheme::Https
        } else {
            Scheme::Http
        }
    }

    /// The scheme as it is written in an address.
    pub open spec fn text(self) -> Seq<char> {
        match self {
            Scheme::Http => "http"@,
            Scheme::Https => "https"@,
        }
    }

    pub fn for_security(secure: bool) -> (scheme: Scheme)
        ensures
            scheme == Scheme::of(secure),
    {
        if secure {
            Scheme::Https
        } else {
            Scheme::Http
        }
    }

    pub fn as_str(&self) -> (text: &'static str)
        ensures
            text@ == self.text(),
    {
        match self {
            Scheme::Http => "http",
            Scheme::Https => "https",
        }
    }
}

/// The bind host that stands for every interface of the machine.
pub open spec fn wildcard_host() -> Seq<char> {
    "0.0.0.0"@
}

/// The name shown in place of the wildcard host.
pub open spec fn loopback_name() -> Seq<char> {
    "localhost"@
}

/// The host as clients are told it: the wildcard is no address a client can
/// reach, so the loopback name takes its place; any other host is kept as
/// it is.
pub open spec fn display_host(host: Seq<char>) -> Seq<char> {
    if host == wildcard_host() {
        loopback_name()
    } else {
        host
    }
}

/// The mathematical value of a [`ServiceAddress`].
pub ghost struct ServiceAddressView {
    pub scheme: Scheme,
    pub host: Seq<char>,
    pub port: u16,
    pub path: Seq<char>,
}

impl ServiceAddressView {
    /// The address as text: scheme, `://`, host, `:`, port in base ten, path.
    pub open spec fn text(self) -> Seq<char> {
        self.scheme.text() + "://"@ + self.host + ":"@ + decimal(self.port as nat) + self.path
    }
}

/// The address composed from a bind host, a port, the security label and the
/// application path.
pub open spec fn composed(host: Seq<char>, port: u16, secure: bool, app_path: Seq<char>)
    -> ServiceAddressView {
    ServiceAddressView {
        scheme: Scheme::of(secure),
        host: display_host(host),
        port,
        path: app_path,
    }
}

/// An address of the service. Its parts are fixed when it is composed.
#[derive(Clone, Debug, PartialEq, Eq)]
pub struct ServiceAddress {
    scheme: Scheme,
    host: String,
    port: u16,
    path: String,
}

impl View for ServiceAddress {
    type V = ServiceAddressView;

    closed spec fn view(&self) -> ServiceAddressView {
        ServiceAddressView {
            scheme: self.scheme,
            host: self.host@,
            port: self.port,
            path: self.path@,
        }
    }
}

impl ServiceAddress {
    /// Composes the address that clients are shown.
    pub fn compose(host: &str, port: u16, secure: bool, app_path: &str) -> (address:
        ServiceAddress)
        ensures
            address@ == composed(host@, port, secure, app_path@),
    {
        let bind_host = String::from_str(host);
        let wildcard = String::from_str("0.0.0.0");
        let shown = if bind_host == wildcard {
            String::from_str("localhost")
        } else {
            bind_host
        };
        ServiceAddress {
            scheme: Scheme::for_security(secure),
            host: shown,
            port,
            path: String::from_str(app_path),
        }
    }

    pub fn scheme(&self) -> (scheme: Scheme)
        ensures
            scheme == self@.scheme,
    {
        self.scheme
    }

    pub fn host(&self) -> (host: &str)
        ensures
            host@ == self@.host,
    {
        self.host.as_str()
    }

    pub fn port(&self) -> (port: u16)
        ensures
            port == self@.port,
    {
        self.port
    }

    pub fn path(&self) -> (path: &str)
        ensures
            path@ == self@.path,
    {
        self.path.as_str()
    }

    /// Renders the address as text.
    pub fn render(&self) -> (text: String)
        ensures
            text@ == self@.text(),
    {
        let mut text = String::from_str(self.scheme.as_str());
        text.append("://");
        text.append(self.host.as_str());
        text.append(":");
        append_decimal(&mut text, self.port as u64);
        text.append(self.path.as_str());
        text
    }
}

/// The scheme follows the security label and nothing else: a secure service
/// is composed with "https" and its text begins with `https://`; any other
/// with "http", and its text begins with `http://`. Neither text begins
/// with the other scheme's opening.
pub proof fn law_scheme_follows_security(
    host: Seq<char>,
    port: u16,
    secure: bool,
    app_path: Seq<char>,
)
    ensures
        secure ==> composed(host, port, secure, app_path).scheme.text() == "https"@,
        !secure ==> composed(host, port, secure, app_path).scheme.text() == "http"@,
        secure <==> "https://"@.is_prefix_of(composed(host, port, secure, app_path).text()),
        !secure <==> "http://"@.is_prefix_of(composed(host, port, secure, app_path).text()),
{
    reveal_strlit("http");
    reveal_strlit("https");
    reveal_strlit("://");
    reveal_strlit("http://");
    reveal_strlit("https://");
    let address = composed(host, port, secure, app_path);
    let opening = address.scheme.text() + "://"@;
    let rest = address.host + ":"@ + decimal(port as nat) + app_path;
    assert(address.text() =~= opening + rest);
    let text = address.text();
    assert(text.subrange(0, opening.len() as int) =~= opening);
    assert(text[4] == opening[4]);
    if secure {
        assert(opening =~= "https://"@);
        if "http://"@.is_prefix_of(text) {
            assert(text.subrange(0, 7)[4] == text[4]);
        }
    } else {
        assert(opening =~= "http://"@);
        if "https://"@.is_prefix_of(text) {
            assert(text.subrange(0, 8)[4] == text[4]);
        }
    }
}

/// The wildcard host is never shown: a service bound to it is shown under
/// the loopback name, and every other host is shown as it is.
pub proof fn law_wildcard_is_shown_as_loopback(
    host: Seq<char>,
    port: u16,
    secure: bool,
    app_path: Seq<char>,
)
    ensures
        composed(wildcard_host(), port, secure, app_path).host == "localhost"@,
        composed(host, port, secure, app_path).host != "0.0.0.0"@,
        host != wildcard_host() ==> composed(host, port, secure, app_path).host == host,
{
    reveal_strlit("0.0.0.0");
    reveal_strlit("localhost");
    assert("localhost"@.len() != "0.0.0.0"@.len());
}

} // verus!
