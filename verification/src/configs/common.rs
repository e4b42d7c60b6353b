use vstd::prelude::*;

verus! {

/// Where the HTTP server listens and how many workers it starts.
#[derive(Debug, Clone)]
pub struct ServerConfig {
    pub app_host: String,
    pub app_port: u16,
    pub app_workers: Option<usize>,
    pub log_folder: String,
}

/// Log level and destination.
#[derive(Debug, Clone)]
pub struct LogConfig {
    pub log_level: String,
    pub log_folder: String,
}

/// Connection settings of the account store.
#[derive(Debug, Clone)]
pub struct DatabaseConfig {
    pub database_url: String,
    pub max_pool_size: u32,
}

/// Settings of the token codec, fixed at startup.
///
/// An empty `issuer` or `audience` means that none is configured: tokens are
/// then issued without that claim and decoded without checking it.
#[derive(Debug, Clone)]
pub struct AuthConfig {
    pub secret_key: String,
    pub token_expire_minutes: i64,
    pub issuer: String,
    pub audience: String,
}

/// The mathematical value of an [`AuthConfig`].
pub ghost struct AuthConfigView {
    pub secret_key: Seq<char>,
    pub token_expire_minutes: int,
    pub issuer: Seq<char>,
    pub audience: Seq<char>,
}

impl View for AuthConfig {
    type V = AuthConfigView;

    open spec fn view(&self) -> AuthConfigView {
        AuthConfigView {
            secret_key: self.secret_key@,
            token_expire_minutes: self.token_expire_minutes as int,
            issuer: self.issuer@,
            audience: self.audience@,
        }
    }
}

impl AuthConfigView {
    /// The issuer that tokens must carry, if one is configured.
    pub open spec fn expected_issuer(self) -> Option<Seq<char>> {
        if self.issuer.len() == 0 {
            None
        } else {
            Some(self.issuer)
        }
    }

    /// The audience that tokens must carry, if one is configured.
    pub open spec fn expected_audience(self) -> Option<Seq<char>> {
        if self.audience.len() == 0 {
            None
        } else {
            Some(self.audience)
        }
    }
}

/// Everything the process reads once at startup.
#[derive(Debug, Clone)]
pub struct ApplicationConfig {
    pub server: ServerConfig,
    pub logger: LogConfig,
    pub database: DatabaseConfig,
    pub auth: AuthConfig,
}

} // verus!
