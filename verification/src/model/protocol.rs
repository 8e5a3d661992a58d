use vstd::prelude::*;

use crate::model::config::FallbackConfig;
use crate::text::lit;

verus! {

/// Protocol-specific settings of an inbound.
#[derive(Debug, Clone)]
pub enum ProtocolSettings {
    VMess(VMessSettings),
    VLess(VLessSettings),
    Trojan(TrojanSettings),
    Shadowsocks(ShadowsocksSettings),
    Http(HttpSettings),
    Socks(SocksSettings),
}

#[derive(Debug, Clone)]
pub struct VMessSettings {
    pub clients: Vec<VMessClient>,
}

#[derive(Debug, Clone)]
pub struct VMessClient {
    pub id: String,
    pub security: String,
    pub email: Option<String>,
    pub level: Option<u32>,
}

/// VMess clients negotiate their cipher unless told otherwise.
pub fn default_vmess_security() -> (r: String)
    ensures
        r@ == "auto"@,
{
    lit("auto")
}

#[derive(Debug, Clone)]
pub struct VLessSettings {
    pub clients: Vec<VLessClient>,
    pub decryption: String,
}

#[derive(Debug, Clone)]
pub struct VLessClient {
    pub id: String,
    pub flow: Option<String>,
    pub email: Option<String>,
    pub level: Option<u32>,
}

/// VLESS inbounds use no decryption unless told otherwise.
pub fn default_decryption() -> (r: String)
    ensures
        r@ == "none"@,
{
    lit("none")
}

#[derive(Debug, Clone)]
pub struct TrojanSettings {
    pub clients: Vec<TrojanClient>,
    pub fallbacks: Vec<FallbackConfig>,
}

#[derive(Debug, Clone)]
pub struct TrojanClient {
    pub password: String,
    pub email: Option<String>,
    pub level: Option<u32>,
}

#[derive(Debug, Clone)]
pub struct ShadowsocksSettings {
    pub method: String,
    pub password: String,
    pub network: String,
    pub email: Option<String>,
    pub level: Option<u32>,
}

/// Shadowsocks serves TCP and UDP unless told otherwise.
pub fn default_ss_network() -> (r: String)
    ensures
        r@ == "tcp,udp"@,
{
    lit("tcp,udp")
}

#[derive(Debug, Clone)]
pub struct HttpSettings {
    pub accounts: Vec<HttpAccount>,
    pub timeout: u32,
    pub allow_transparent: bool,
}

#[derive(Debug, Clone)]
pub struct HttpAccount {
    pub user: String,
    pub pass: String,
}

/// The HTTP proxy timeout, in seconds, when a configuration names none.
pub fn default_http_timeout() -> (r: u32)
    ensures
        r == 300,
{
    300
}

#[derive(Debug, Clone)]
pub struct SocksSettings {
    pub auth: SocksAuth,
    pub udp: bool,
    pub ip: Option<String>,
    pub user_level: u32,
}

#[derive(Debug, Clone)]
pub enum SocksAuth {
    NoAuth {},
    Password { accounts: Vec<SocksAccount> },
}

#[derive(Debug, Clone)]
pub struct SocksAccount {
    pub user: String,
    pub pass: String,
}

} // verus!
