//! Runtime configuration, validated once at startup from the values of the environment.

use vstd::prelude::*;
use vstd::utf8::encode_utf8;

use webauthn_rs::prelude::Url;

use crate::routes::admin::presented_token;
use crate::text::{ends_with, has_suffix, same_text};

verus! {

#[verifier::external_type_specification]
#[verifier::external_body]
pub struct ExUrl(Url);

/// The environment variables that configure the service.
#[derive(Clone, Copy, Debug, PartialEq, Eq, Structural)]
pub enum EnvKey {
    BindAddr,
    DatabaseUrl,
    RpId,
    RpOrigin,
    RpName,
    ExportToken,
    AdminToken,
    SessionSecure,
}

impl EnvKey {
    /// The variable's name.
    pub open spec fn text(self) -> Seq<char> {
        match self {
            EnvKey::BindAddr => "BIND_ADDR"@,
            EnvKey::DatabaseUrl => "DATABASE_URL"@,
            EnvKey::RpId => "RP_ID"@,
            EnvKey::RpOrigin => "RP_ORIGIN"@,
            EnvKey::RpName => "RP_NAME"@,
            EnvKey::ExportToken => "EXPORT_TOKEN"@,
            EnvKey::AdminToken => "ADMIN_TOKEN"@,
            EnvKey::SessionSecure => "SESSION_SECURE"@,
        }
    }

    /// The variable's name.
    pub fn name(&self) -> (r: &'static str)
        ensures
            r@ == self.text(),
    {
        match self {
            EnvKey::BindAddr => "BIND_ADDR",
            EnvKey::DatabaseUrl => "DATABASE_URL",
            EnvKey::RpId => "RP_ID",
            EnvKey::RpOrigin => "RP_ORIGIN",
            EnvKey::RpName => "RP_NAME",
            EnvKey::ExportToken => "EXPORT_TOKEN",
            EnvKey::AdminToken => "ADMIN_TOKEN",
            EnvKey::SessionSecure => "SESSION_SECURE",
        }
    }
}

/// Why the configuration was refused.
#[derive(Clone, Copy, Debug, PartialEq, Eq, Structural)]
pub enum ConfigError {
    /// A required variable is not set.
    Missing(EnvKey),
    /// `BIND_ADDR` is not a socket address.
    InvalidBindAddr,
    /// `RP_ORIGIN` is not a URL.
    InvalidRpOrigin,
    /// `SESSION_SECURE` is neither `true` nor `false`.
    InvalidSessionSecure,
    /// `EXPORT_TOKEN` is empty.
    EmptyExportToken,
    /// `ADMIN_TOKEN` is empty.
    EmptyAdminToken,
    /// `RP_ID` is neither the host of `RP_ORIGIN` nor a suffix of it after a dot.
    RpIdNotSuffix,
}

/// The raw values of the environment, as read at startup.
#[derive(Clone, Debug)]
pub struct EnvVars {
    pub bind_addr: Option<String>,
    /// Whether `bind_addr` parses as a socket address (the caller decides this with
    /// `std::net`).
    pub bind_addr_is_socket: bool,
    pub database_url: Option<String>,
    pub rp_id: Option<String>,
    pub rp_origin: Option<String>,
    pub rp_name: Option<String>,
    pub export_token: Option<String>,
    pub admin_token: Option<String>,
    pub session_secure: Option<String>,
}

/// The validated configuration.
#[derive(Clone, Debug)]
pub struct Config {
    pub bind_addr: String,
    pub database_url: String,
    pub rp_id: String,
    /// The origin's text, which `url_parses` accepts.
    pub rp_origin: String,
    pub rp_name: String,
    pub export_token: String,
    pub admin_token: String,
    pub session_secure: bool,
}

/// The characters of an optional string.
pub open spec fn opt_text(o: Option<String>) -> Option<Seq<char>> {
    match o {
        Some(s) => Some(s@),
        None => None,
    }
}

/// Whether `Url::parse` accepts `origin`.
pub uninterp spec fn url_parses(origin: Seq<char>) -> bool;

/// What `Url::host_str` gives for the URL that `Url::parse` makes of `origin`: its host
/// as text, or `None` for a URL without a host.
pub uninterp spec fn url_host(origin: Seq<char>) -> Option<Seq<char>>;

/// What `Url::domain` gives for the URL that `Url::parse` makes of `origin`: its host
/// as text when the host is a domain name, `None` when it is an IP address or missing.
pub uninterp spec fn url_domain(origin: Seq<char>) -> Option<Seq<char>>;

/// A parsed origin, with the text it was parsed from and its host and domain copied out
/// of the URL where it was parsed. Only `parse_origin` makes one.
pub struct Origin {
    text: String,
    url: Url,
    host: Option<String>,
    domain: Option<String>,
}

impl Origin {
    /// The text the URL was parsed from.
    pub closed spec fn text(self) -> Seq<char> {
        self.text@
    }

    /// The URL's host (`Url::host_str`).
    pub closed spec fn host(self) -> Option<Seq<char>> {
        opt_text(self.host)
    }

    /// The URL's domain (`Url::domain`).
    pub closed spec fn domain(self) -> Option<Seq<char>> {
        opt_text(self.domain)
    }

    /// The URL's host (`Url::host_str`).
    pub fn host_text(&self) -> (r: &Option<String>)
        ensures
            opt_text(*r) == self.host(),
    {
        &self.host
    }

    /// The parsed URL.
    pub fn url(&self) -> &Url {
        &self.url
    }
}

/// Calls `Url::parse` and, on success, `Url::host_str` and `Url::domain` of the parsed
/// URL, keeping the text with it. The contract names the three outcomes `url_parses`,
/// `url_host` and `url_domain` and claims nothing more of them.
#[verifier::external_body]
pub(crate) fn parse_origin(origin: &str) -> (r: Option<Origin>)
    ensures
        r is Some <==> url_parses(origin@),
        r matches Some(o) ==> o.text() == origin@ && o.host() == url_host(origin@) && o.domain()
            == url_domain(origin@),
{
    match Url::parse(origin) {
        Ok(url) => {
            let host = url.host_str().map(str::to_owned);
            let domain = url.domain().map(str::to_owned);
            Some(Origin { text: origin.to_owned(), url, host, domain })
        },
        Err(_) => None,
    }
}

/// The host of an origin, as messages name it: `None` where the text is no URL or the
/// URL has no host.
pub fn origin_host(origin: &str) -> (r: Option<String>)
    ensures
        opt_text(r) == (if url_parses(origin@) {
            url_host(origin@)
        } else {
            None
        }),
{
    match parse_origin(origin) {
        Some(o) => o.host_text().clone(),
        None => None,
    }
}

/// What `str::parse::<bool>` accepts: exactly `true` and `false`.
pub open spec fn bool_text(s: Seq<char>) -> Option<bool> {
    if s == "true"@ {
        Some(true)
    } else if s == "false"@ {
        Some(false)
    } else {
        None
    }
}

/// Parses `true` or `false`.
pub fn parse_bool(s: &str) -> (r: Option<bool>)
    ensures
        r == bool_text(s@),
{
    if same_text(s, "true") {
        Some(true)
    } else if same_text(s, "false") {
        Some(false)
    } else {
        None
    }
}

/// `rp_id` is the host itself or a suffix of it that starts after a dot.
pub open spec fn rp_id_fits(host: Seq<char>, rp_id: Seq<char>) -> bool {
    host == rp_id || has_suffix(host, seq!['.'] + rp_id)
}

/// Whether `rp_id` fits `host`.
pub fn rp_id_fits_host(host: &str, rp_id: &str) -> (r: bool)
    ensures
        r == rp_id_fits(host@, rp_id@),
{
    let dotted = ".".to_owned().concat(rp_id);
    proof {
        reveal_strlit(".");
        assert(dotted@ =~= seq!['.'] + rp_id@);
    }
    same_text(host, rp_id) || ends_with(host, dotted.as_str())
}

/// The first problem with the environment, checked in a fixed order: each variable in
/// turn is read (and the bind address, the origin and the cookie flag parsed right
/// after it), then the tokens must not be empty and the RP ID must fit the origin's host.
pub open spec fn config_problem(v: &EnvVars) -> Option<ConfigError> {
    if v.bind_addr is None {
        Some(ConfigError::Missing(EnvKey::BindAddr))
    } else if !v.bind_addr_is_socket {
        Some(ConfigError::InvalidBindAddr)
    } else if v.database_url is None {
        Some(ConfigError::Missing(EnvKey::DatabaseUrl))
    } else if v.rp_id is None {
        Some(ConfigError::Missing(EnvKey::RpId))
    } else if v.rp_origin is None {
        Some(ConfigError::Missing(EnvKey::RpOrigin))
    } else if !url_parses(v.rp_origin->0@) {
        Some(ConfigError::InvalidRpOrigin)
    } else if v.rp_name is None {
        Some(ConfigError::Missing(EnvKey::RpName))
    } else if v.export_token is None {
        Some(ConfigError::Missing(EnvKey::ExportToken))
    } else if v.admin_token is None {
        Some(ConfigError::Missing(EnvKey::AdminToken))
    } else if v.session_secure is None {
        Some(ConfigError::Missing(EnvKey::SessionSecure))
    } else if bool_text(v.session_secure->0@) is None {
        Some(ConfigError::InvalidSessionSecure)
    } else if v.export_token->0@.len() == 0 {
        Some(ConfigError::EmptyExportToken)
    } else if v.admin_token->0@.len() == 0 {
        Some(ConfigError::EmptyAdminToken)
    } else if !(url_host(v.rp_origin->0@) matches Some(h) && rp_id_fits(
        h,
        v.rp_id->0@,
    )) {
        Some(ConfigError::RpIdNotSuffix)
    } else {
        None
    }
}

impl Config {
    /// Validates the environment's values. On success every field holds the value of
    /// its variable, and `session_secure` is the parsed flag.
    pub fn from_env(vars: EnvVars) -> (r: Result<Config, ConfigError>)
        ensures
            r is Ok <==> config_problem(&vars) is None,
            r matches Err(e) ==> config_problem(&vars) == Some(e),
            r matches Ok(c) ==> {
                &&& vars.bind_addr == Some(c.bind_addr)
                &&& vars.database_url == Some(c.database_url)
                &&& vars.rp_id == Some(c.rp_id)
                &&& vars.rp_origin == Some(c.rp_origin)
                &&& vars.rp_name == Some(c.rp_name)
                &&& vars.export_token == Some(c.export_token)
                &&& vars.admin_token == Some(c.admin_token)
                &&& bool_text(vars.session_secure->0@) == Some(c.session_secure)
            },
    {
        let ghost v = vars;
        let bind_addr = match vars.bind_addr {
            Some(s) => s,
            None => return Err(ConfigError::Missing(EnvKey::BindAddr)),
        };
        if !vars.bind_addr_is_socket {
            return Err(ConfigError::InvalidBindAddr);
        }
        let database_url = match vars.database_url {
            Some(s) => s,
            None => return Err(ConfigError::Missing(EnvKey::DatabaseUrl)),
        };
        let rp_id = match vars.rp_id {
            Some(s) => s,
            None => return Err(ConfigError::Missing(EnvKey::RpId)),
        };
        let origin_text = match vars.rp_origin {
            Some(s) => s,
            None => return Err(ConfigError::Missing(EnvKey::RpOrigin)),
        };
        let origin = match parse_origin(origin_text.as_str()) {
            Some(o) => o,
            None => return Err(ConfigError::InvalidRpOrigin),
        };
        let rp_name = match vars.rp_name {
            Some(s) => s,
            None => return Err(ConfigError::Missing(EnvKey::RpName)),
        };
        let export_token = match vars.export_token {
            Some(s) => s,
            None => return Err(ConfigError::Missing(EnvKey::ExportToken)),
        };
        let admin_token = match vars.admin_token {
            Some(s) => s,
            None => return Err(ConfigError::Missing(EnvKey::AdminToken)),
        };
        let secure_text = match vars.session_secure {
            Some(s) => s,
            None => return Err(ConfigError::Missing(EnvKey::SessionSecure)),
        };
        let session_secure = match parse_bool(secure_text.as_str()) {
            Some(b) => b,
            None => return Err(ConfigError::InvalidSessionSecure),
        };
        if export_token.as_str().is_empty() {
            return Err(ConfigError::EmptyExportToken);
        }
        if admin_token.as_str().is_empty() {
            return Err(ConfigError::EmptyAdminToken);
        }
        let fits = match origin.host_text() {
            Some(h) => rp_id_fits_host(h.as_str(), rp_id.as_str()),
            None => false,
        };
        if !fits {
            return Err(ConfigError::RpIdNotSuffix);
        }
        Ok(
            Config {
                bind_addr,
                database_url,
                rp_id,
                rp_origin: origin_text,
                rp_name,
                export_token,
                admin_token,
                session_secure,
            },
        )
    }
}

proof fn lemma_encode_nonempty(s: Seq<char>)
    requires
        s.len() > 0,
    ensures
        encode_utf8(s).len() > 0,
{
    reveal_with_fuel(encode_utf8, 1);
}

/// Under any accepted configuration both tokens are non-empty, so a request without an
/// `Authorization` header is refused by the export and the admin token checks alike.
pub proof fn lemma_accepted_config_refuses_anonymous(v: &EnvVars)
    requires
        config_problem(v) is None,
    ensures
        v.export_token->0@.len() > 0,
        v.admin_token->0@.len() > 0,
        presented_token(None) != encode_utf8(v.export_token->0@),
        presented_token(None) != encode_utf8(v.admin_token->0@),
{
    lemma_encode_nonempty(v.export_token->0@);
    lemma_encode_nonempty(v.admin_token->0@);
}

/// Under any accepted configuration the RP ID is the origin's host, or a suffix of it
/// that starts after a dot: WebAuthn can use it for that origin.
pub proof fn lemma_accepted_config_rp_id_fits(v: &EnvVars)
    requires
        config_problem(v) is None,
    ensures
        url_parses(v.rp_origin->0@),
        url_host(v.rp_origin->0@) matches Some(h) && rp_id_fits(h, v.rp_id->0@),
{
}

} // verus!
