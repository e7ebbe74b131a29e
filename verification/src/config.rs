//! The configuration: regions, servers, and the settings around them.

use crate::decimal::{parse_u16, u16_error, u16_value};
use crate::headers::HeaderMap;
use crate::text::{
    ascii_lowercase, is_ascii_text, is_white_space, joined, lowercase, opt_str, opt_text, same_text,
    trim_text, trimmed, trimmed_end,
};
use std::collections::HashMap;
use vstd::prelude::*;
use vstd::string::*;

verus! {

/// The file that holds the configuration where nothing else is said.
pub const DEFAULT_CONFIG_PATH: &'static str = "moe-sekai-configs.yaml";

/// A region of the game, each with servers of its own.
#[derive(Debug, Clone, Copy, PartialEq, Eq, PartialOrd, Ord, Hash, Structural)]
pub enum ServerRegion {
    Jp,
    En,
    Tw,
    Kr,
    Cn,
}

/// The name of a region.
pub open spec fn region_name(region: ServerRegion) -> Seq<char> {
    match region {
        ServerRegion::Jp => "jp"@,
        ServerRegion::En => "en"@,
        ServerRegion::Tw => "tw"@,
        ServerRegion::Kr => "kr"@,
        ServerRegion::Cn => "cn"@,
    }
}

/// The region that has a name.
pub open spec fn region_named(name: Seq<char>) -> Option<ServerRegion> {
    if name == "jp"@ {
        Some(ServerRegion::Jp)
    } else if name == "en"@ {
        Some(ServerRegion::En)
    } else if name == "tw"@ {
        Some(ServerRegion::Tw)
    } else if name == "kr"@ {
        Some(ServerRegion::Kr)
    } else if name == "cn"@ {
        Some(ServerRegion::Cn)
    } else {
        None
    }
}

/// `r` answers the search for a region under the lower case `lower` of `s`.
pub open spec fn is_region_answer(
    lower: Seq<char>,
    s: Seq<char>,
    r: Result<ServerRegion, String>,
) -> bool {
    match region_named(lower) {
        Some(region) => r == Ok::<ServerRegion, String>(region),
        None => r is Err && r->Err_0@ == "Unknown server region: "@ + s,
    }
}

/// The regions whose accounts are of the CP kind.
pub open spec fn is_cp_region(region: ServerRegion) -> bool {
    region == ServerRegion::Jp || region == ServerRegion::En
}

impl ServerRegion {
    /// The name of the region.
    pub fn as_str(&self) -> (r: &'static str)
        ensures
            r@ == region_name(*self),
    {
        match self {
            ServerRegion::Jp => "jp",
            ServerRegion::En => "en",
            ServerRegion::Tw => "tw",
            ServerRegion::Kr => "kr",
            ServerRegion::Cn => "cn",
        }
    }

    /// Whether accounts of the region are of the CP kind.
    pub fn is_cp_server(&self) -> (r: bool)
        ensures
            r == is_cp_region(*self),
    {
        matches!(self, ServerRegion::Jp | ServerRegion::En)
    }

    /// The region that has this name, written as [`ServerRegion::as_str`]
    /// writes it.
    pub fn from_name(name: &str) -> (r: Option<ServerRegion>)
        ensures
            r == region_named(name@),
    {
        if same_text(name, "jp") {
            Some(ServerRegion::Jp)
        } else if same_text(name, "en") {
            Some(ServerRegion::En)
        } else if same_text(name, "tw") {
            Some(ServerRegion::Tw)
        } else if same_text(name, "kr") {
            Some(ServerRegion::Kr)
        } else if same_text(name, "cn") {
            Some(ServerRegion::Cn)
        } else {
            None
        }
    }

    /// The region that has this name, in whatever case.
    pub fn from_str(s: &str) -> (r: Result<ServerRegion, String>)
        ensures
            is_region_answer(lowercase(s@), s@, r),
            is_ascii_text(s@) ==> is_region_answer(ascii_lowercase(s@), s@, r),
    {
        match ServerRegion::from_name(s.to_lowercase().as_str()) {
            Some(region) => Ok(region),
            None => Err(joined("Unknown server region: ", s)),
        }
    }
}

impl std::str::FromStr for ServerRegion {
    type Err = String;

    fn from_str(s: &str) -> (r: Result<ServerRegion, String>)
        ensures
            is_region_answer(lowercase(s@), s@, r),
            is_ascii_text(s@) ==> is_region_answer(ascii_lowercase(s@), s@, r),
    {
        ServerRegion::from_str(s)
    }
}

/// Each region is found under its name.
pub proof fn regions_are_found_by_name(region: ServerRegion)
    ensures
        region_named(region_name(region)) == Some(region),
{
    reveal_strlit("jp");
    reveal_strlit("en");
    reveal_strlit("tw");
    reveal_strlit("kr");
    reveal_strlit("cn");
    assert("jp"@[0] == 'j' && "en"@[0] == 'e' && "tw"@[0] == 't' && "kr"@[0] == 'k' && "cn"@[0]
        == 'c');
}

/// No two regions share a name.
pub proof fn region_names_differ(a: ServerRegion, b: ServerRegion)
    requires
        region_name(a) == region_name(b),
    ensures
        a == b,
{
    regions_are_found_by_name(a);
    regions_are_found_by_name(b);
}

/// Where Redis is found.
#[derive(Debug, Clone)]
pub struct RedisConfig {
    pub enabled: bool,
    pub host: String,
    pub port: u16,
    pub password: String,
}

impl Default for RedisConfig {
    fn default() -> (r: RedisConfig)
        ensures
            !r.enabled,
            r.host@ == "localhost"@,
            r.port == 6379,
            r.password@ == Seq::<char>::empty(),
    {
        RedisConfig {
            enabled: false,
            host: "localhost".to_owned(),
            port: 6379,
            password: String::new(),
        }
    }
}

/// How this service itself is reached and what it logs.
#[derive(Debug, Clone)]
pub struct BackendConfig {
    pub host: String,
    pub port: u16,
    pub ssl: bool,
    pub ssl_cert: String,
    pub ssl_key: String,
    pub log_level: String,
    pub main_log_file: String,
    pub access_log: String,
    pub access_log_path: String,
    pub sekai_user_jwt_signing_key: String,
    pub enable_trust_proxy: bool,
    pub trusted_proxies: Vec<String>,
    pub proxy_header: String,
}

/// The host to listen on where none is configured.
pub fn default_host() -> (r: String)
    ensures
        r@ == "0.0.0.0"@,
{
    "0.0.0.0".to_owned()
}

/// The port to listen on where none is configured.
pub fn default_port() -> (r: u16)
    ensures
        r == 9999,
{
    9999
}

/// The log level where none is configured.
pub fn default_log_level() -> (r: String)
    ensures
        r@ == "info"@,
{
    "info".to_owned()
}

/// Where a database is found.
#[derive(Debug, Clone)]
pub struct DatabaseConfig {
    pub enabled: bool,
    pub driver: String,
    pub dsn: String,
    pub max_connections: u32,
}

impl Default for DatabaseConfig {
    fn default() -> (r: DatabaseConfig)
        ensures
            !r.enabled,
            r.driver@ == Seq::<char>::empty(),
            r.dsn@ == Seq::<char>::empty(),
            r.max_connections == 0,
    {
        DatabaseConfig {
            enabled: false,
            driver: String::new(),
            dsn: String::new(),
            max_connections: 0,
        }
    }
}

/// Who commits to the Git repositories.
#[derive(Debug, Clone)]
pub struct GitConfig {
    pub enabled: bool,
    pub username: String,
    pub email: String,
    pub password: String,
}

impl Default for GitConfig {
    fn default() -> (r: GitConfig)
        ensures
            !r.enabled,
            r.username@ == Seq::<char>::empty(),
            r.email@ == Seq::<char>::empty(),
            r.password@ == Seq::<char>::empty(),
    {
        GitConfig {
            enabled: false,
            username: String::new(),
            email: String::new(),
            password: String::new(),
        }
    }
}

/// The form of the login request's body that the game server understands.
///
/// - `V1`: the older body, such as `{deviceId, accessToken, userID}` for a
///   Nuverse account.
/// - `V2`: the body since 6.4.0, which carries `{accessToken}` only.
///
/// The form changes with the version of the game, and not in every region at
/// the same time, so each server has its own.
#[derive(Debug, Clone, Copy, PartialEq, Eq, Structural)]
pub enum LoginProtocol {
    V1,
    V2,
}

impl Default for LoginProtocol {
    fn default() -> (r: LoginProtocol)
        ensures
            r == LoginProtocol::V1,
    {
        LoginProtocol::V1
    }
}

/// What is known of the servers of one region.
#[derive(Debug, Clone)]
pub struct ServerConfig {
    pub enabled: bool,
    pub master_dir: String,
    pub version_path: String,
    pub account_dir: String,
    pub api_url: String,
    pub nuverse_master_data_url: String,
    pub nuverse_structure_file_path: String,
    pub require_cookies: bool,
    pub headers: HeaderMap,
    pub aes_key_hex: String,
    pub aes_iv_hex: String,
    pub enable_master_updater: bool,
    pub master_updater_cron: String,
    pub enable_app_hash_updater: bool,
    pub app_hash_updater_cron: String,
    pub remote_version_url: String,
    /// The HTTP(S) proxy for this server. Where there is none, the global one
    /// is taken; an empty one turns proxying off for this server.
    pub proxy: Option<String>,
    /// The form of the login request's body. `V1` where nothing is said, so
    /// that regions which have not moved keep working.
    pub login_protocol: LoginProtocol,
}

/// The text says something: it is more than white space.
pub open spec fn is_given(text: Seq<char>) -> bool {
    trimmed(text).len() > 0
}

/// The proxy that a server uses: its own where it has one, else the global
/// one, and none where the one that counts is blank.
pub open spec fn resolved_proxy(server_proxy: Option<Seq<char>>, global_proxy: Seq<char>) -> Option<
    Seq<char>,
> {
    let proxy = match server_proxy {
        Some(own) => own,
        None => global_proxy,
    };
    if is_given(proxy) {
        Some(proxy)
    } else {
        None
    }
}

impl ServerConfig {
    /// The proxy for this server, given the global one.
    pub fn resolve_proxy(&self, global_proxy: &str) -> (r: Option<String>)
        ensures
            opt_text(r) == resolved_proxy(opt_text(self.proxy), global_proxy@),
    {
        match &self.proxy {
            Some(own) => resolve_proxy_value(Some(own.as_str()), global_proxy),
            None => resolve_proxy_value(None, global_proxy),
        }
    }
}

/// The proxy for a server, given its own and the global one.
pub fn resolve_proxy_value(server_proxy: Option<&str>, global_proxy: &str) -> (r: Option<String>)
    ensures
        opt_text(r) == resolved_proxy(opt_str(server_proxy), global_proxy@),
{
    let proxy = match server_proxy {
        Some(own) => own,
        None => global_proxy,
    };
    if trim_text(proxy).is_empty() {
        None
    } else {
        Some(proxy.to_owned())
    }
}

/// A server that says nothing of a proxy inherits the global one; one that has
/// a proxy uses that, whatever the global one is; and one whose proxy is blank
/// uses none, whatever the global one is.
pub proof fn server_proxies_take_precedence(own: Seq<char>, global_proxy: Seq<char>)
    ensures
        is_given(global_proxy) ==> resolved_proxy(None, global_proxy) == Some(global_proxy),
        !is_given(global_proxy) ==> resolved_proxy(None, global_proxy) is None,
        is_given(own) ==> resolved_proxy(Some(own), global_proxy) == Some(own),
        !is_given(own) ==> resolved_proxy(Some(own), global_proxy) is None,
{
}

/// A source of app hashes.
#[derive(Debug, Clone)]
pub struct AppHashSource {
    pub source_type: String,
    pub dir: String,
    pub url: String,
}

/// A service that is told of new assets.
#[derive(Debug, Clone)]
pub struct AssetUpdaterInfo {
    pub url: String,
    pub authorization: String,
}

/// The whole configuration.
#[derive(Debug, Clone)]
pub struct Config {
    pub proxy: String,
    pub jp_sekai_cookie_url: String,
    pub git: GitConfig,
    pub redis: RedisConfig,
    pub backend: BackendConfig,
    pub database: DatabaseConfig,
    pub master_database: DatabaseConfig,
    pub apphash_sources: Vec<AppHashSource>,
    pub asset_updater_servers: Vec<AssetUpdaterInfo>,
    pub servers: HashMap<ServerRegion, ServerConfig>,
}

impl Config {
    /// Puts the port that the environment names, where it names one, in the
    /// place of the configured one.
    pub fn override_port(&mut self, port: Option<&str>) -> (r: Result<(), String>)
        ensures
            match port {
                None => r is Ok && *final(self) == *old(self),
                Some(text) => match u16_value(text@) {
                    Some(n) => {
                        &&& r is Ok
                        &&& *final(self) == (Config {
                            backend: BackendConfig { port: n as u16, ..old(self).backend },
                            ..*old(self)
                        })
                    },
                    None => {
                        &&& r is Err
                        &&& r->Err_0@ == "Invalid PORT '"@ + text@ + "': "@ + u16_error(text@)
                        &&& *final(self) == *old(self)
                    },
                },
            },
    {
        match port {
            None => Ok(()),
            Some(text) => match parse_u16(text) {
                Ok(n) => {
                    self.backend.port = n;
                    Ok(())
                },
                Err(message) => {
                    let mut words = joined("Invalid PORT '", text);
                    words.append("': ");
                    words.append(message.as_str());
                    Err(words)
                },
            },
        }
    }
}

// ---------------------------------------------------------------------------
// Laws
// ---------------------------------------------------------------------------

/// The regions have these names, and a text is the name of at most one.
pub proof fn regions_have_their_names(region: ServerRegion, name: Seq<char>)
    ensures
        region_name(ServerRegion::Jp) == "jp"@,
        region_name(ServerRegion::En) == "en"@,
        region_name(ServerRegion::Tw) == "tw"@,
        region_name(ServerRegion::Kr) == "kr"@,
        region_name(ServerRegion::Cn) == "cn"@,
        region_named(name) == Some(region) <==> region_name(region) == name,
{
    regions_are_found_by_name(region);
}

/// The search for a region finds it under its name, and under any other text
/// says that there is none.
pub proof fn regions_are_found_under_no_other_name(
    lower: Seq<char>,
    s: Seq<char>,
    r: Result<ServerRegion, String>,
)
    requires
        is_region_answer(lower, s, r),
    ensures
        r is Ok <==> lower == "jp"@ || lower == "en"@ || lower == "tw"@ || lower == "kr"@ || lower
            == "cn"@,
        r is Ok ==> region_name(r->Ok_0) == lower,
        r is Err ==> r->Err_0@ == "Unknown server region: "@ + s,
{
}

/// The accounts of Jp and En, and of no other region, are of the CP kind.
pub proof fn jp_and_en_are_cp_regions()
    ensures
        is_cp_region(ServerRegion::Jp),
        is_cp_region(ServerRegion::En),
        !is_cp_region(ServerRegion::Tw),
        !is_cp_region(ServerRegion::Kr),
        !is_cp_region(ServerRegion::Cn),
{
}

/// A proxy is used as it is given where any of its characters is no white
/// space; a server's own proxy hides the global one even where it is blank.
pub proof fn proxies_are_used_unless_blank(own: Seq<char>, global_proxy: Seq<char>)
    ensures
        resolved_proxy(Some(own), global_proxy) == if exists|i: int|
            0 <= i < own.len() && !is_white_space(#[trigger] own[i]) {
            Some(own)
        } else {
            None
        },
        resolved_proxy(None, global_proxy) == if exists|i: int|
            0 <= i < global_proxy.len() && !is_white_space(#[trigger] global_proxy[i]) {
            Some(global_proxy)
        } else {
            None
        },
{
    lemma_given(own);
    lemma_given(global_proxy);
}

/// A text says something where any of its characters is no white space.
proof fn lemma_given(text: Seq<char>)
    ensures
        is_given(text) <==> exists|i: int|
            0 <= i < text.len() && !is_white_space(#[trigger] text[i]),
    decreases text.len(),
{
    if text.len() > 0 {
        if is_white_space(text[0]) {
            let rest = text.drop_first();
            lemma_given(rest);
            if exists|i: int| 0 <= i < text.len() && !is_white_space(#[trigger] text[i]) {
                let i = choose|i: int| 0 <= i < text.len() && !is_white_space(#[trigger] text[i]);
                assert(rest[i - 1] == text[i]);
            }
            if exists|i: int| 0 <= i < rest.len() && !is_white_space(#[trigger] rest[i]) {
                let i = choose|i: int| 0 <= i < rest.len() && !is_white_space(#[trigger] rest[i]);
                assert(text[i + 1] == rest[i]);
            }
        } else {
            lemma_first_stays(text);
        }
    }
}

/// What begins with no white space is not trimmed away.
proof fn lemma_first_stays(text: Seq<char>)
    requires
        text.len() > 0,
        !is_white_space(text[0]),
    ensures
        trimmed_end(text).len() > 0,
    decreases text.len(),
{
    if is_white_space(text.last()) {
        lemma_first_stays(text.drop_last());
    }
}

} // verus!
