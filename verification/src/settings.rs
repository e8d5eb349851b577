//! Node configuration. The engine itself reads only the hostname (the
//! origin of outbound activity ids) and the federation policy (which
//! instances may be spoken to); the remaining sections are carried so a
//! deployment can hold its whole configuration in one place.

use vstd::prelude::*;

verus! {

/// Which remote instances this node accepts activities from.
pub struct FederationConfig {
    pub enabled: bool,
    pub allowed_instances: Option<Vec<String>>,
    pub blocked_instances: Option<Vec<String>>,
    pub strict_allowlist: bool,
}

impl Default for FederationConfig {
    fn default() -> (r: Self)
        ensures
            !r.enabled,
            r.allowed_instances is None,
            r.blocked_instances is None,
            r.strict_allowlist,
    {
        FederationConfig {
            enabled: false,
            allowed_instances: None,
            blocked_instances: None,
            strict_allowlist: true,
        }
    }
}

/// Captcha policy for registrations.
pub struct CaptchaConfig {
    pub enabled: bool,
    pub difficulty: String,
}

impl Default for CaptchaConfig {
    fn default() -> (r: Self)
        ensures
            !r.enabled,
            r.difficulty@ == "medium"@,
    {
        CaptchaConfig { enabled: false, difficulty: String::from_str("medium") }
    }
}

/// Connection parameters of the backing database.
pub struct DatabaseConfig {
    pub user: String,
    pub password: String,
    pub host: String,
    pub port: i32,
    pub database: String,
    pub pool_size: u32,
}

impl Default for DatabaseConfig {
    fn default() -> (r: Self)
        ensures
            r.user@ == "apub"@,
            r.password@ == "password"@,
            r.host@ == "localhost"@,
            r.port == 5432,
            r.database@ == "apub"@,
            r.pool_size == 5,
    {
        DatabaseConfig {
            user: String::from_str("apub"),
            password: String::from_str("password"),
            host: String::from_str("localhost"),
            port: 5432,
            database: String::from_str("apub"),
            pool_size: 5,
        }
    }
}

/// Outbound mail settings.
pub struct EmailConfig {
    pub smtp_server: String,
    pub smtp_login: Option<String>,
    pub smtp_password: Option<String>,
    pub smtp_from_address: String,
    pub use_tls: bool,
}

/// Request-per-interval limits, by request class.
pub struct RateLimitConfig {
    pub message: i32,
    pub message_per_second: i32,
    pub post: i32,
    pub post_per_second: i32,
    pub register: i32,
    pub register_per_second: i32,
    pub image: i32,
    pub image_per_second: i32,
}

impl Default for RateLimitConfig {
    fn default() -> (r: Self)
        ensures
            r.message == 180,
            r.message_per_second == 60,
            r.post == 6,
            r.post_per_second == 600,
            r.register == 3,
            r.register_per_second == 3600,
            r.image == 6,
            r.image_per_second == 3600,
    {
        RateLimitConfig {
            message: 180,
            message_per_second: 60,
            post: 6,
            post_per_second: 600,
            register: 3,
            register_per_second: 3600,
            image: 6,
            image_per_second: 3600,
        }
    }
}

/// First-run site setup values.
pub struct SetupConfig {
    pub admin_username: String,
    pub admin_password: String,
    pub site_name: String,
    pub admin_email: Option<String>,
    pub sidebar: Option<String>,
    pub description: Option<String>,
    pub icon: Option<String>,
    pub banner: Option<String>,
    pub enable_downvotes: Option<bool>,
    pub open_registration: Option<bool>,
    pub enable_nsfw: Option<bool>,
    pub community_creation_admin_only: Option<bool>,
}

/// The node's whole configuration.
pub struct Settings {
    pub database: DatabaseConfig,
    pub rate_limit: Option<RateLimitConfig>,
    pub federation: FederationConfig,
    pub captcha: CaptchaConfig,
    pub email: Option<EmailConfig>,
    pub setup: Option<SetupConfig>,
    pub hostname: String,
    pub bind: String,
    pub port: u16,
    pub tls_enabled: bool,
    pub jwt_secret: String,
    pub pictrs_url: Option<String>,
    pub additional_slurs: Option<String>,
    pub actor_name_max_length: usize,
}

impl Default for Settings {
    fn default() -> (r: Self)
        ensures
            r.rate_limit is Some,
            !r.federation.enabled,
            r.federation.allowed_instances is None,
            r.federation.blocked_instances is None,
            r.email is None,
            r.setup is None,
            r.hostname@ == "unset"@,
            r.bind@ == "0.0.0.0"@,
            r.port == 8536,
            r.tls_enabled,
            r.jwt_secret@ == "changeme"@,
            r.pictrs_url is None,
            r.additional_slurs is None,
            r.actor_name_max_length == 20,
    {
        Settings {
            database: DatabaseConfig::default(),
            rate_limit: Some(RateLimitConfig::default()),
            federation: FederationConfig::default(),
            captcha: CaptchaConfig::default(),
            email: None,
            setup: None,
            hostname: String::from_str("unset"),
            bind: String::from_str("0.0.0.0"),
            port: 8536,
            tls_enabled: true,
            jwt_secret: String::from_str("changeme"),
            pictrs_url: None,
            additional_slurs: None,
            actor_name_max_length: 20,
        }
    }
}

} // verus!
