use vstd::prelude::*;

verus! {

/// Presets that fill in every field for a common proxy setup.
#[derive(Debug, Clone, Copy, PartialEq, Eq, Structural)]
pub enum InboundTemplate {
    /// VLESS + WebSocket + TLS: the usual CDN-friendly setup.
    VlessWsTls,
    /// VLESS + WebSocket + Reality: no domain or certificate needed.
    VlessWsReality,
    /// VLESS + gRPC + Reality.
    VlessGrpcReality,
    /// VLESS + TCP + XTLS Vision: no extra framing, for direct connections.
    VlessTcpXtlVision,
    /// VMess + WebSocket + TLS: the classic setup for older clients.
    VMessWsTls,
    /// VMess + WebSocket behind a CDN that provides TLS.
    VMessWsCdn,
    /// VMess + gRPC + TLS.
    VMessGrpcTls,
    /// Trojan + WebSocket + TLS.
    TrojanWsTls,
    /// Trojan + gRPC + TLS.
    TrojanGrpcTls,
    /// Shadowsocks + WebSocket + TLS.
    ShadowsocksWsTls,
    /// VLESS + HTTPUpgrade + Reality.
    VlessHttpUpgradeReality,
    /// A local SOCKS5 proxy.
    SocksLocal,
    /// A local HTTP proxy.
    HttpLocal,
    /// A blank template: everything is chosen by hand.
    Custom,
}

/// The preset templates (every template but `Custom`), in the order they
/// are offered.
pub open spec fn preset_templates() -> Seq<InboundTemplate> {
    seq![
        InboundTemplate::VlessWsTls,
        InboundTemplate::VlessWsReality,
        InboundTemplate::VlessGrpcReality,
        InboundTemplate::VlessTcpXtlVision,
        InboundTemplate::VMessWsTls,
        InboundTemplate::VMessWsCdn,
        InboundTemplate::VMessGrpcTls,
        InboundTemplate::TrojanWsTls,
        InboundTemplate::TrojanGrpcTls,
        InboundTemplate::ShadowsocksWsTls,
        InboundTemplate::VlessHttpUpgradeReality,
        InboundTemplate::SocksLocal,
        InboundTemplate::HttpLocal,
    ]
}

/// What the template step offers: the presets, then `Custom`.
pub open spec fn template_order() -> Seq<InboundTemplate> {
    preset_templates().push(InboundTemplate::Custom)
}

impl InboundTemplate {
    /// The name shown for each template.
    pub open spec fn name(self) -> Seq<char> {
        match self {
            InboundTemplate::VlessWsTls => "VLESS + WS + TLS"@,
            InboundTemplate::VlessWsReality => "VLESS + WS + Reality"@,
            InboundTemplate::VlessGrpcReality => "VLESS + gRPC + Reality"@,
            InboundTemplate::VlessTcpXtlVision => "VLESS + TCP + XTLS Vision"@,
            InboundTemplate::VMessWsTls => "VMess + WS + TLS"@,
            InboundTemplate::VMessWsCdn => "VMess + WS (CDN)"@,
            InboundTemplate::VMessGrpcTls => "VMess + gRPC + TLS"@,
            InboundTemplate::TrojanWsTls => "Trojan + WS + TLS"@,
            InboundTemplate::TrojanGrpcTls => "Trojan + gRPC + TLS"@,
            InboundTemplate::ShadowsocksWsTls => "Shadowsocks + WS + TLS"@,
            InboundTemplate::VlessHttpUpgradeReality => "VLESS + HTTPUpgrade + Reality"@,
            InboundTemplate::SocksLocal => "SOCKS5 本地"@,
            InboundTemplate::HttpLocal => "HTTP 本地代理"@,
            InboundTemplate::Custom => "自定义（从零开始）"@,
        }
    }

    /// The description shown for each template.
    pub open spec fn description(self) -> Seq<char> {
        match self {
            InboundTemplate::VlessWsTls => "最通用：WebSocket 走 CDN，TLS 加密，需域名+证书"@,
            InboundTemplate::VlessWsReality => "无需域名/证书：伪装微软等网站，反代特性"@,
            InboundTemplate::VlessGrpcReality => "gRPC 多路复用 + Reality，适合移动端和弱网"@,
            InboundTemplate::VlessTcpXtlVision => "直连最优：无额外封装开销，需 443 端口"@,
            InboundTemplate::VMessWsTls => "经典组合：兼容老客户端，WebSocket + TLS"@,
            InboundTemplate::VMessWsCdn => "无证书：WebSocket 裸奔，靠 CDN 提供 SSL"@,
            InboundTemplate::VMessGrpcTls => "gRPC 高效传输 + TLS，适合多用户在同一个端口"@,
            InboundTemplate::TrojanWsTls => "Trojan over WebSocket，伪装 HTTP 流量"@,
            InboundTemplate::TrojanGrpcTls => "Trojan over gRPC，复用连接"@,
            InboundTemplate::ShadowsocksWsTls => "SS over WebSocket，兼容 SIP008"@,
            InboundTemplate::VlessHttpUpgradeReality => "新版 HTTP 升级协议 + Reality 伪装"@,
            InboundTemplate::SocksLocal => "本地 SOCKS5 代理，通常监听 127.0.0.1:1080"@,
            InboundTemplate::HttpLocal => "本地 HTTP 代理，通常监听 127.0.0.1:8080"@,
            InboundTemplate::Custom => "自由选择协议、传输、安全等所有参数"@,
        }
    }

    /// The template's name and short description.
    pub fn info(&self) -> (r: (&'static str, &'static str))
        ensures
            r.0@ == self.name(),
            r.1@ == self.description(),
    {
        match self {
            InboundTemplate::VlessWsTls => ("VLESS + WS + TLS", "最通用：WebSocket 走 CDN，TLS 加密，需域名+证书"),
            InboundTemplate::VlessWsReality => ("VLESS + WS + Reality", "无需域名/证书：伪装微软等网站，反代特性"),
            InboundTemplate::VlessGrpcReality => ("VLESS + gRPC + Reality", "gRPC 多路复用 + Reality，适合移动端和弱网"),
            InboundTemplate::VlessTcpXtlVision => ("VLESS + TCP + XTLS Vision", "直连最优：无额外封装开销，需 443 端口"),
            InboundTemplate::VMessWsTls => ("VMess + WS + TLS", "经典组合：兼容老客户端，WebSocket + TLS"),
            InboundTemplate::VMessWsCdn => ("VMess + WS (CDN)", "无证书：WebSocket 裸奔，靠 CDN 提供 SSL"),
            InboundTemplate::VMessGrpcTls => ("VMess + gRPC + TLS", "gRPC 高效传输 + TLS，适合多用户在同一个端口"),
            InboundTemplate::TrojanWsTls => ("Trojan + WS + TLS", "Trojan over WebSocket，伪装 HTTP 流量"),
            InboundTemplate::TrojanGrpcTls => ("Trojan + gRPC + TLS", "Trojan over gRPC，复用连接"),
            InboundTemplate::ShadowsocksWsTls => ("Shadowsocks + WS + TLS", "SS over WebSocket，兼容 SIP008"),
            InboundTemplate::VlessHttpUpgradeReality => ("VLESS + HTTPUpgrade + Reality", "新版 HTTP 升级协议 + Reality 伪装"),
            InboundTemplate::SocksLocal => ("SOCKS5 本地", "本地 SOCKS5 代理，通常监听 127.0.0.1:1080"),
            InboundTemplate::HttpLocal => ("HTTP 本地代理", "本地 HTTP 代理，通常监听 127.0.0.1:8080"),
            InboundTemplate::Custom => ("自定义（从零开始）", "自由选择协议、传输、安全等所有参数"),
        }
    }

    /// The preset templates, in the order they are offered: every template
    /// but `Custom`.
    pub fn all() -> (r: Vec<Self>)
        ensures
            r@ == preset_templates(),
    {
        let mut v: Vec<Self> = Vec::new();
        v.push(InboundTemplate::VlessWsTls);
        v.push(InboundTemplate::VlessWsReality);
        v.push(InboundTemplate::VlessGrpcReality);
        v.push(InboundTemplate::VlessTcpXtlVision);
        v.push(InboundTemplate::VMessWsTls);
        v.push(InboundTemplate::VMessWsCdn);
        v.push(InboundTemplate::VMessGrpcTls);
        v.push(InboundTemplate::TrojanWsTls);
        v.push(InboundTemplate::TrojanGrpcTls);
        v.push(InboundTemplate::ShadowsocksWsTls);
        v.push(InboundTemplate::VlessHttpUpgradeReality);
        v.push(InboundTemplate::SocksLocal);
        v.push(InboundTemplate::HttpLocal);
        assert(v@ =~= preset_templates());
        v
    }

    /// The choices of the template step: the presets, then the `Custom`
    /// button for building from scratch.
    pub fn offered() -> (r: Vec<Self>)
        ensures
            r@ == template_order(),
    {
        let mut v = Self::all();
        v.push(InboundTemplate::Custom);
        v
    }
}

/// What tells the templates' names apart: the length, the second
/// character and, for longer names, the twelfth.
spec fn name_key(n: Seq<char>) -> (nat, char, char) {
    (n.len(), n[1], if n.len() > 11 { n[11] } else { ' ' })
}

/// Each template's name and description are not empty, and no two
/// templates share a name.
pub proof fn lemma_template_names(t1: InboundTemplate, t2: InboundTemplate)
    ensures
        t1.name().len() > 0,
        t1.description().len() > 0,
        t1 != t2 ==> t1.name() != t2.name(),
{
    lemma_name_key(t1);
    lemma_name_key(t2);
}

proof fn lemma_name_key(t: InboundTemplate)
    ensures
        t.description().len() > 0,
        t.name().len() > 11 ==> name_key(t.name()) == (t.name().len(), t.name()[1], t.name()[11]),
        name_key(t.name()) == match t {
            InboundTemplate::VlessWsTls => (16nat, 'L', '+'),
            InboundTemplate::VlessWsReality => (20nat, 'L', '+'),
            InboundTemplate::VlessGrpcReality => (22nat, 'L', 'C'),
            InboundTemplate::VlessTcpXtlVision => (25nat, 'L', ' '),
            InboundTemplate::VMessWsTls => (16nat, 'M', '+'),
            InboundTemplate::VMessWsCdn => (16nat, 'M', '('),
            InboundTemplate::VMessGrpcTls => (18nat, 'M', 'C'),
            InboundTemplate::TrojanWsTls => (17nat, 'r', ' '),
            InboundTemplate::TrojanGrpcTls => (19nat, 'r', 'P'),
            InboundTemplate::ShadowsocksWsTls => (22nat, 'h', ' '),
            InboundTemplate::VlessHttpUpgradeReality => (29nat, 'L', 'P'),
            InboundTemplate::SocksLocal => (9nat, 'O', ' '),
            InboundTemplate::HttpLocal => (9nat, 'T', ' '),
            InboundTemplate::Custom => (9nat, '定', ' '),
        },
{
    match t {
        InboundTemplate::VlessWsTls => {
            reveal_strlit("VLESS + WS + TLS");
            reveal_strlit("最通用：WebSocket 走 CDN，TLS 加密，需域名+证书");
        },
        InboundTemplate::VlessWsReality => {
            reveal_strlit("VLESS + WS + Reality");
            reveal_strlit("无需域名/证书：伪装微软等网站，反代特性");
        },
        InboundTemplate::VlessGrpcReality => {
            reveal_strlit("VLESS + gRPC + Reality");
            reveal_strlit("gRPC 多路复用 + Reality，适合移动端和弱网");
        },
        InboundTemplate::VlessTcpXtlVision => {
            reveal_strlit("VLESS + TCP + XTLS Vision");
            reveal_strlit("直连最优：无额外封装开销，需 443 端口");
        },
        InboundTemplate::VMessWsTls => {
            reveal_strlit("VMess + WS + TLS");
            reveal_strlit("经典组合：兼容老客户端，WebSocket + TLS");
        },
        InboundTemplate::VMessWsCdn => {
            reveal_strlit("VMess + WS (CDN)");
            reveal_strlit("无证书：WebSocket 裸奔，靠 CDN 提供 SSL");
        },
        InboundTemplate::VMessGrpcTls => {
            reveal_strlit("VMess + gRPC + TLS");
            reveal_strlit("gRPC 高效传输 + TLS，适合多用户在同一个端口");
        },
        InboundTemplate::TrojanWsTls => {
            reveal_strlit("Trojan + WS + TLS");
            reveal_strlit("Trojan over WebSocket，伪装 HTTP 流量");
        },
        InboundTemplate::TrojanGrpcTls => {
            reveal_strlit("Trojan + gRPC + TLS");
            reveal_strlit("Trojan over gRPC，复用连接");
        },
        InboundTemplate::ShadowsocksWsTls => {
            reveal_strlit("Shadowsocks + WS + TLS");
            reveal_strlit("SS over WebSocket，兼容 SIP008");
        },
        InboundTemplate::VlessHttpUpgradeReality => {
            reveal_strlit("VLESS + HTTPUpgrade + Reality");
            reveal_strlit("新版 HTTP 升级协议 + Reality 伪装");
        },
        InboundTemplate::SocksLocal => {
            reveal_strlit("SOCKS5 本地");
            reveal_strlit("本地 SOCKS5 代理，通常监听 127.0.0.1:1080");
        },
        InboundTemplate::HttpLocal => {
            reveal_strlit("HTTP 本地代理");
            reveal_strlit("本地 HTTP 代理，通常监听 127.0.0.1:8080");
        },
        InboundTemplate::Custom => {
            reveal_strlit("自定义（从零开始）");
            reveal_strlit("自由选择协议、传输、安全等所有参数");
        },
    }
}

} // verus!
