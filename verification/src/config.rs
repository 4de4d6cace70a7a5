//! What a connector is given: the URI of the origin and the proxies.

use vstd::prelude::*;

use crate::c_openssl::adapter::TlsConfig;

verus! {

/// The scheme of a URI.
#[derive(Clone, Copy, PartialEq, Eq, Structural, Debug)]
pub enum Scheme {
    HTTP,
    HTTPS,
}

/// The parts of a URI that decide where a connection leads. A part is absent
/// where the URI lacks it.
pub struct Uri {
    pub scheme: Option<Scheme>,
    /// Host and port as they stand in the URI.
    pub authority: Option<String>,
    pub host: Option<String>,
    pub port: Option<u16>,
}

impl Uri {
    /// Whether every part is there.
    pub open spec fn is_complete(self) -> bool {
        self.scheme is Some && self.authority is Some && self.host is Some && self.port is Some
    }
}

/// The value of a header field.
pub struct HeaderValue {
    /// The value as text; absent where its bytes are not text.
    pub text: Option<String>,
}

/// A proxy that requests may go through.
pub struct ProxyInfo {
    /// The scheme of the proxy's own URI.
    pub scheme: Scheme,
    /// Host and port of the proxy.
    pub authority: String,
    /// Host of the proxy.
    pub host: String,
    /// The credentials for the proxy, encoded for the `Basic` scheme.
    pub basic_auth: Option<HeaderValue>,
    /// TLS settings for the connection to the proxy.
    pub tls: Option<TlsConfig>,
}

impl ProxyInfo {
    /// A proxy is secured if its URI says so or if TLS settings are given for it.
    pub open spec fn is_secured(self) -> bool {
        self.scheme == Scheme::HTTPS || self.tls is Some
    }

    /// The given TLS settings, or the standard ones.
    pub open spec fn tls_settings(self) -> TlsConfig {
        match self.tls {
            Some(config) => config,
            None => TlsConfig::Standard,
        }
    }

    /// The credentials as text, if they are text.
    pub open spec fn credentials(self) -> Option<Seq<char>> {
        match self.basic_auth {
            Some(value) => match value.text {
                Some(text) => Some(text@),
                None => None,
            },
            None => None,
        }
    }

    /// Whether the connection to the proxy is secured by TLS.
    pub fn is_tls(&self) -> (r: bool)
        ensures
            r == self.is_secured(),
    {
        match self.scheme {
            Scheme::HTTPS => true,
            Scheme::HTTP => self.tls.is_some(),
        }
    }

    /// The TLS settings for the connection to the proxy.
    pub fn proxy_tls_config(&self) -> (r: TlsConfig)
        ensures
            r == self.tls_settings(),
    {
        match self.tls {
            Some(config) => config,
            None => TlsConfig::default(),
        }
    }

    /// The name of the proxy in its handshake.
    pub fn proxy_host(&self) -> (r: String)
        ensures
            r@ == self.host@,
    {
        self.host.clone()
    }
}

/// The settings of a connector.
pub struct ConnectorConfig {
    /// The proxies in the order in which they were configured.
    pub proxies: Vec<ProxyInfo>,
    /// TLS settings for the connection to an origin.
    pub tls: TlsConfig,
}

impl Default for ConnectorConfig {
    fn default() -> (r: Self)
        ensures
            r.proxies@.len() == 0,
            r.tls == TlsConfig::Standard,
    {
        ConnectorConfig { proxies: Vec::new(), tls: TlsConfig::default() }
    }
}

/// What the settings of a proxy say: it is secured by an HTTPS scheme or by TLS
/// settings and by nothing else; its TLS settings are those given; and its
/// credentials are the text of the header value, whether it is secured or not.
pub proof fn law_proxy_settings(info: ProxyInfo)
    ensures
        info.scheme == Scheme::HTTPS ==> info.is_secured(),
        info.tls is Some ==> info.is_secured(),
        info.scheme == Scheme::HTTP && info.tls is None ==> !info.is_secured(),
        info.tls matches Some(config) ==> info.tls_settings() == config,
        info.tls is None ==> info.tls_settings() == TlsConfig::Standard,
        info.basic_auth is None ==> info.credentials() is None,
        info.basic_auth matches Some(value) ==> (value.text is None ==> info.credentials() is None)
            && (value.text matches Some(text) ==> info.credentials() == Some(text@)),
{
}

/// A URI is complete exactly with all four parts.
pub proof fn law_uri_parts(uri: Uri)
    ensures
        uri.is_complete() <==> !(uri.scheme is None || uri.authority is None || uri.host is None
            || uri.port is None),
{
}

/// What a proxy is asked for, it answers from its settings.
pub proof fn law_proxy_answers(info: &ProxyInfo, secured: bool, config: TlsConfig, host: String)
    requires
        call_ensures(ProxyInfo::is_tls, (info,), secured),
        call_ensures(ProxyInfo::proxy_tls_config, (info,), config),
        call_ensures(ProxyInfo::proxy_host, (info,), host),
    ensures
        secured <==> info.scheme == Scheme::HTTPS || info.tls is Some,
        info.tls matches Some(settings) ==> config == settings,
        info.tls is None ==> config == TlsConfig::Standard,
        host@ == info.host@,
{
}

/// The default settings have no proxies and standard TLS.
pub proof fn law_default_settings(config: ConnectorConfig)
    requires
        call_ensures(<ConnectorConfig as Default>::default, (), config),
    ensures
        config.proxies@.len() == 0,
        config.tls == TlsConfig::Standard,
{
}

} // verus!
