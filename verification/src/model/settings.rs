use vstd::prelude::*;

use crate::model::config::InboundConfig;
use crate::model::ssl::CertInfo;
use crate::text::{lit, cat};

verus! {

/// Application-wide settings, persisted between runs.
#[derive(Debug, Clone)]
pub struct GlobalSettings {
    pub xray_binary_path: String,
    pub config_path: String,
    pub log_level: String,
    pub server_public_ip: Option<String>,
    pub state_dir: String,
    /// The Cloudflare account email used for DNS validation.
    pub cf_email: Option<String>,
    /// The Cloudflare API token used for DNS validation.
    pub cf_token: Option<String>,
    /// The Cloudflare zone of the domains.
    pub cf_zone_id: Option<String>,
}

/// The state directory under a home directory: `<home>/.config/xray-tui`.
pub open spec fn state_dir_under(home: Seq<char>) -> Seq<char> {
    home + "/.config/xray-tui"@
}

/// Where state is kept for a user whose home directory is `home`.
pub fn dirs_like_path(home: &str) -> (r: String)
    ensures
        r@ == state_dir_under(home@),
{
    cat(home, "/.config/xray-tui")
}

/// A copy of an optional text.
pub fn copy_opt(o: &Option<String>) -> (r: Option<String>)
    ensures
        r == *o,
{
    match o {
        Some(s) => Some(s.clone()),
        None => None,
    }
}

impl GlobalSettings {
    /// A copy of the settings.
    pub fn duplicate(&self) -> (r: Self)
        ensures
            r == *self,
    {
        GlobalSettings {
            xray_binary_path: self.xray_binary_path.clone(),
            config_path: self.config_path.clone(),
            log_level: self.log_level.clone(),
            server_public_ip: copy_opt(&self.server_public_ip),
            state_dir: self.state_dir.clone(),
            cf_email: copy_opt(&self.cf_email),
            cf_token: copy_opt(&self.cf_token),
            cf_zone_id: copy_opt(&self.cf_zone_id),
        }
    }

    /// The default settings for a user whose home directory is `home`: the
    /// binary in `/usr/local/bin/xray`, the configuration in
    /// `/usr/local/etc/xray/config.json`, warning-level logs, no known public
    /// IP, state under `<home>/.config/xray-tui`, and no Cloudflare
    /// credentials.
    pub fn default_for_home(home: &str) -> (r: Self)
        ensures
            r.xray_binary_path@ == "/usr/local/bin/xray"@,
            r.config_path@ == "/usr/local/etc/xray/config.json"@,
            r.log_level@ == "warning"@,
            r.server_public_ip is None,
            r.state_dir@ == state_dir_under(home@),
            r.cf_email is None,
            r.cf_token is None,
            r.cf_zone_id is None,
    {
        GlobalSettings {
            xray_binary_path: lit("/usr/local/bin/xray"),
            config_path: lit("/usr/local/etc/xray/config.json"),
            log_level: lit("warning"),
            server_public_ip: None,
            state_dir: dirs_like_path(home),
            cf_email: None,
            cf_token: None,
            cf_zone_id: None,
        }
    }
}

#[derive(Debug, Clone)]
pub struct LogEntry {
    pub timestamp: String,
    pub level: LogLevel,
    pub message: String,
}

#[derive(Debug, Clone, Copy, PartialEq, Eq, Structural)]
pub enum LogLevel {
    Debug,
    Info,
    Warning,
    Error,
}

impl LogLevel {
    /// The label shown for each level.
    pub open spec fn display(self) -> Seq<char> {
        match self {
            LogLevel::Debug => "DEBUG"@,
            LogLevel::Info => "INFO"@,
            LogLevel::Warning => "WARN"@,
            LogLevel::Error => "ERROR"@,
        }
    }

    /// The label shown for the level (its `Display` text).
    pub fn to_string(&self) -> (r: String)
        ensures
            r@ == self.display(),
    {
        match self {
            LogLevel::Debug => lit("DEBUG"),
            LogLevel::Info => lit("INFO"),
            LogLevel::Warning => lit("WARN"),
            LogLevel::Error => lit("ERROR"),
        }
    }
}

/// What is persisted of an inbound: no keys, passwords or user ids.
#[derive(Debug, Clone)]
pub struct StoredInbound {
    pub tag: Option<String>,
    pub port: u16,
    pub listen: String,
    pub protocol: String,
    pub transport: String,
    pub security: String,
    pub enabled: bool,
    pub user_count: usize,
}

impl StoredInbound {
    /// The persisted summary of an inbound; a new summary is enabled.
    pub open spec fn summarizes(self, inb: InboundConfig) -> bool {
        &&& self.tag == inb.tag
        &&& self.port == inb.port
        &&& self.listen@ == inb.listen@
        &&& self.protocol@ == inb.protocol.display()
        &&& self.transport@ == inb.stream_settings.network.display()
        &&& self.security@ == inb.stream_settings.security.display()
        &&& self.enabled
        &&& self.user_count == inb.users()
    }

    /// The summary of an inbound that is persisted in the state file.
    pub fn from_inbound(inb: &InboundConfig) -> (r: Self)
        ensures
            r.summarizes(*inb),
    {
        StoredInbound {
            tag: inb.tag.clone(),
            port: inb.port,
            listen: inb.listen.clone(),
            protocol: inb.protocol.to_string(),
            transport: inb.stream_settings.network.to_string(),
            security: inb.stream_settings.security.to_string(),
            enabled: true,
            user_count: inb.user_count(),
        }
    }
}

/// The snapshot of the application that is persisted.
#[derive(Debug, Clone)]
pub struct AppState {
    pub settings: GlobalSettings,
    pub stored_inbounds: Vec<StoredInbound>,
    pub stored_certs: Vec<CertInfo>,
}

} // verus!
