use vstd::prelude::*;

use crate::services::config_manager::ConfigEntry;

pub use crate::codec::pair_texts;
use crate::codec::{
    base64_decode, base64_encode, base64_standard, json_object, json_object_string, keys_ascending,
    lemma_base64_round_trip, text_before,
};
use vstd::utf8::encode_utf8;
use crate::model::config::InboundConfig;
use crate::model::protocol::ProtocolSettings;
use crate::model::stream::{StreamSecurity, StreamSettings, TransportNetwork};
use crate::text::{decimal, is_prefix, join, join_strings, lit, push_char, texts, u64_to_decimal, chars_of};

verus! {

/// Share links and subscriptions for the users of inbounds.
pub struct SubscriptionService;

/// How a character stands in the fragment or user part of a link: the
/// characters `# & = ? @ : /` and space are percent-escaped, others stand as
/// they are.
pub open spec fn url_escape(c: char) -> Seq<char> {
    if c == '#' { seq!['%', '2', '3'] }
    else if c == '&' { seq!['%', '2', '6'] }
    else if c == '=' { seq!['%', '3', 'D'] }
    else if c == '?' { seq!['%', '3', 'F'] }
    else if c == '@' { seq!['%', '4', '0'] }
    else if c == ':' { seq!['%', '3', 'A'] }
    else if c == '/' { seq!['%', '2', 'F'] }
    else if c == ' ' { seq!['%', '2', '0'] }
    else { seq![c] }
}

/// The escaped text: each character replaced by its `url_escape`.
pub open spec fn urlencode(s: Seq<char>) -> Seq<char>
    decreases s.len(),
{
    if s.len() == 0 {
        Seq::empty()
    } else {
        urlencode(s.drop_last()) + url_escape(s.last())
    }
}

/// The characters that `urlencoding` escapes.
pub open spec fn is_url_reserved(c: char) -> bool {
    c == '#' || c == '&' || c == '=' || c == '?' || c == '@' || c == ':' || c == '/' || c == ' '
}

/// The escaped text holds none of the characters that are escaped.
pub proof fn lemma_urlencode_safe(s: Seq<char>)
    ensures
        forall|i: int| 0 <= i < urlencode(s).len() ==> !is_url_reserved(#[trigger] urlencode(s)[i]),
    decreases s.len(),
{
    if s.len() > 0 {
        lemma_urlencode_safe(s.drop_last());
        let a = urlencode(s.drop_last());
        let b = url_escape(s.last());
        assert forall|i: int| 0 <= i < urlencode(s).len() implies !is_url_reserved(#[trigger] urlencode(s)[i]) by {
            if i >= a.len() {
                assert(urlencode(s)[i] == b[i - a.len()]);
            } else {
                assert(urlencode(s)[i] == a[i]);
            }
        }
    }
}

/// A text without characters to escape is left as it is.
pub proof fn lemma_urlencode_plain(s: Seq<char>)
    requires
        forall|i: int| 0 <= i < s.len() ==> !is_url_reserved(#[trigger] s[i]),
    ensures
        urlencode(s) == s,
    decreases s.len(),
{
    if s.len() > 0 {
        assert(!is_url_reserved(s[s.len() - 1]));
        lemma_urlencode_plain(s.drop_last());
        assert(s.drop_last() + seq![s.last()] =~= s);
    } else {
        assert(s =~= Seq::<char>::empty());
    }
}

fn escape_into(r: &mut String, c: char)
    ensures
        final(r)@ == old(r)@ + url_escape(c),
{
    if c == '#' { r.append("%23"); proof { reveal_strlit("%23"); } }
    else if c == '&' { r.append("%26"); proof { reveal_strlit("%26"); } }
    else if c == '=' { r.append("%3D"); proof { reveal_strlit("%3D"); } }
    else if c == '?' { r.append("%3F"); proof { reveal_strlit("%3F"); } }
    else if c == '@' { r.append("%40"); proof { reveal_strlit("%40"); } }
    else if c == ':' { r.append("%3A"); proof { reveal_strlit("%3A"); } }
    else if c == '/' { r.append("%2F"); proof { reveal_strlit("%2F"); } }
    else if c == ' ' { r.append("%20"); proof { reveal_strlit("%20"); } }
    else { push_char(r, c); }
    assert(final(r)@ =~= old(r)@ + url_escape(c));
}

/// Percent-escapes the characters that would break a link's structure.
pub fn urlencoding(s: &str) -> (r: String)
    ensures
        r@ == urlencode(s@),
{
    let v = chars_of(s);
    let mut r = String::new();
    let mut i: usize = 0;
    while i < v.len()
        invariant
            i <= v@.len(),
            v@ == s@,
            r@ == urlencode(v@.take(i as int)),
        decreases v@.len() - i,
    {
        escape_into(&mut r, v[i]);
        assert(v@.take(i + 1).drop_last() =~= v@.take(i as int));
        i += 1;
    }
    assert(v@.take(v@.len() as int) =~= v@);
    r
}

/// The `type` parameter of a link for each transport.
pub open spec fn net_param(n: TransportNetwork) -> Seq<char> {
    match n {
        TransportNetwork::Tcp => "tcp"@,
        TransportNetwork::Ws => "ws"@,
        TransportNetwork::Grpc => "grpc"@,
        TransportNetwork::HttpUpgrade => "httpupgrade"@,
        TransportNetwork::Quic => "quic"@,
        TransportNetwork::Kcp => "kcp"@,
        TransportNetwork::DomainSocket => "ds"@,
    }
}

/// The `security` parameter of a link for each security layer.
pub open spec fn security_param(s: StreamSecurity) -> Seq<char> {
    match s {
        StreamSecurity::NoSecurity => "none"@,
        StreamSecurity::Tls => "tls"@,
        StreamSecurity::Reality => "reality"@,
    }
}

/// The texts of (key, value) pairs.
/// The query parameters of a link: transport and security, then the TLS
/// server name, the Reality parameters, the WebSocket path and host, and the
/// gRPC service and mode, each where the stream settings have them.
pub open spec fn link_params(ss: StreamSettings) -> Seq<(Seq<char>, Seq<char>)> {
    let p0 = seq![("type"@, net_param(ss.network)), ("security"@, security_param(ss.security))];
    let p1 = match ss.tls_settings {
        Some(t) => match t.server_name {
            Some(n) => p0.push(("sni"@, n@)),
            None => p0,
        },
        None => p0,
    };
    let p2 = match ss.reality_settings {
        Some(r) => {
            let a = p1.push(("sni"@, r.server_name@)).push(("fp"@, r.fingerprint@)).push(
                ("pbk"@, r.public_key@),
            );
            let b = if r.short_ids@.len() > 0 { a.push(("sid"@, r.short_ids@[0]@)) } else { a };
            b.push(("spx"@, match r.spider_x { Some(x) => x@, None => "/"@ }))
        },
        None => p1,
    };
    let p3 = match ss.ws_settings {
        Some(w) => {
            let a = p2.push(("path"@, w.path@));
            match w.host {
                Some(h) => a.push(("host"@, h@)),
                None => a,
            }
        },
        None => p2,
    };
    match ss.grpc_settings {
        Some(g) => {
            let a = p3.push(("serviceName"@, g.service_name@));
            if g.multi_mode { a.push(("mode"@, "multi"@)) } else { a }
        },
        None => p3,
    }
}

/// A link's server name: with Reality (and no TLS settings) the third
/// parameter, right after the transport and the security, is `sni` set to
/// the name the Reality settings impersonate; with TLS settings that name
/// a server, it is `sni` set to that server name.
pub proof fn lemma_sni_is_the_server_name(ss: StreamSettings)
    ensures
        (ss.tls_settings is None && ss.reality_settings is Some) ==> link_params(ss).len() > 2
            && link_params(ss)[2] == ("sni"@, ss.reality_settings->Some_0.server_name@),
        (ss.tls_settings matches Some(t) && t.server_name is Some) ==> link_params(ss).len() > 2
            && link_params(ss)[2] == ("sni"@, ss.tls_settings->Some_0.server_name->Some_0@),
{
}

/// `key=value`.
pub open spec fn key_value(p: (Seq<char>, Seq<char>)) -> Seq<char> {
    p.0 + "="@ + p.1
}

/// Parameters as a query string: `key=value` joined with `&`.
pub open spec fn query(params: Seq<(Seq<char>, Seq<char>)>) -> Seq<char> {
    join(params.map_values(|p: (Seq<char>, Seq<char>)| key_value(p)), "&"@)
}

/// The tag of an inbound, or nothing.
pub open spec fn tag_text(inb: InboundConfig) -> Seq<char> {
    match inb.tag {
        Some(t) => t@,
        None => Seq::empty(),
    }
}

/// `server:port` of an inbound.
pub open spec fn host_port(server: Seq<char>, inb: InboundConfig) -> Seq<char> {
    server + ":"@ + decimal(inb.port as nat)
}

/// A VLESS link: `vless://<id>@<server>:<port>?<params>#<tag>`, where the
/// parameters are the stream parameters and, for a non-empty flow, `flow`.
pub open spec fn vless_link_text(
    inb: InboundConfig,
    server: Seq<char>,
    uuid: Seq<char>,
    flow: Option<Seq<char>>,
) -> Seq<char> {
    let parts = link_params(inb.stream_settings).map_values(|p: (Seq<char>, Seq<char>)| key_value(p));
    let parts2 = match flow {
        Some(f) => if f.len() > 0 { parts.push("flow="@ + f) } else { parts },
        None => parts,
    };
    "vless://"@ + uuid + "@"@ + host_port(server, inb) + "?"@ + join(parts2, "&"@) + "#"@
        + urlencode(tag_text(inb))
}

/// A Trojan link: `trojan://<password>@<server>:<port>?<params>#<tag>` with
/// the password escaped.
pub open spec fn trojan_link_text(inb: InboundConfig, server: Seq<char>, password: Seq<char>) -> Seq<char> {
    "trojan://"@ + urlencode(password) + "@"@ + host_port(server, inb) + "?"@ + query(
        link_params(inb.stream_settings),
    ) + "#"@ + urlencode(tag_text(inb))
}

/// A Shadowsocks link: `ss://<base64 of method:password>@<server>:<port>#<tag>`.
pub open spec fn ss_link_text(
    inb: InboundConfig,
    server: Seq<char>,
    method: Seq<char>,
    password: Seq<char>,
) -> Seq<char> {
    "ss://"@ + base64_standard(method + ":"@ + password) + "@"@ + host_port(server, inb) + "#"@
        + urlencode(tag_text(inb))
}

/// The `tls` field of a VMess link.
pub open spec fn vmess_tls(s: StreamSecurity) -> Seq<char> {
    match s {
        StreamSecurity::Tls => "tls"@,
        StreamSecurity::Reality => "reality"@,
        StreamSecurity::NoSecurity => Seq::empty(),
    }
}

/// The `net` field of a VMess link.
pub open spec fn vmess_net(n: TransportNetwork) -> Seq<char> {
    match n {
        TransportNetwork::Tcp => "tcp"@,
        TransportNetwork::Ws => "ws"@,
        TransportNetwork::Grpc => "grpc"@,
        TransportNetwork::HttpUpgrade => "h2"@,
        TransportNetwork::Quic => "quic"@,
        TransportNetwork::Kcp => "kcp"@,
        TransportNetwork::DomainSocket => "domainsocket"@,
    }
}

/// The WebSocket path, `/` without WebSocket settings.
pub open spec fn ws_path_or_root(ss: StreamSettings) -> Seq<char> {
    match ss.ws_settings {
        Some(w) => w.path@,
        None => "/"@,
    }
}

/// The WebSocket host, or nothing.
pub open spec fn ws_host_or_empty(ss: StreamSettings) -> Seq<char> {
    match ss.ws_settings {
        Some(w) => match w.host {
            Some(h) => h@,
            None => Seq::empty(),
        },
        None => Seq::empty(),
    }
}

/// The TLS server name, or nothing.
pub open spec fn tls_sni_or_empty(ss: StreamSettings) -> Seq<char> {
    match ss.tls_settings {
        Some(t) => match t.server_name {
            Some(n) => n@,
            None => Seq::empty(),
        },
        None => Seq::empty(),
    }
}

/// The fields of a VMess link's JSON object, in the order of their keys.
pub open spec fn vmess_fields(
    inb: InboundConfig,
    server: Seq<char>,
    uuid: Seq<char>,
    security: Seq<char>,
) -> Seq<(Seq<char>, Seq<char>)> {
    let ss = inb.stream_settings;
    seq![
        ("add"@, server),
        ("aid"@, "0"@),
        ("alpn"@, Seq::empty()),
        ("host"@, ws_host_or_empty(ss)),
        ("id"@, uuid),
        ("net"@, vmess_net(ss.network)),
        ("path"@, ws_path_or_root(ss)),
        ("port"@, decimal(inb.port as nat)),
        ("ps"@, tag_text(inb)),
        ("scy"@, security),
        ("sni"@, tls_sni_or_empty(ss)),
        ("tls"@, vmess_tls(ss.security)),
        ("type"@, "none"@),
        ("v"@, "2"@),
    ]
}

/// The keys of a VMess link's JSON object are in ascending order.
proof fn lemma_vmess_keys_ascending(inb: InboundConfig, server: Seq<char>, uuid: Seq<char>, security: Seq<char>)
    ensures
        keys_ascending(vmess_fields(inb, server, uuid, security)),
{
    reveal_strlit("add");
    reveal_strlit("aid");
    reveal_strlit("alpn");
    reveal_strlit("host");
    reveal_strlit("id");
    reveal_strlit("net");
    reveal_strlit("path");
    reveal_strlit("port");
    reveal_strlit("ps");
    reveal_strlit("scy");
    reveal_strlit("sni");
    reveal_strlit("tls");
    reveal_strlit("type");
    reveal_strlit("v");
    reveal_with_fuel(text_before, 3);
    reveal_with_fuel(keys_ascending, 14);
}

/// A VMess link: `vmess://` and the base64 of the link's JSON object.
pub open spec fn vmess_link_text(
    inb: InboundConfig,
    server: Seq<char>,
    uuid: Seq<char>,
    security: Seq<char>,
) -> Seq<char> {
    "vmess://"@ + base64_standard(json_object(vmess_fields(inb, server, uuid, security)))
}

/// The share link of user `idx` of an inbound: VMess, VLESS and Trojan
/// inbounds have one per client; a Shadowsocks inbound has one whatever
/// `idx` is; HTTP and SOCKS inbounds have none.
pub open spec fn share_link(inb: InboundConfig, server: Seq<char>, idx: int) -> Option<Seq<char>> {
    match inb.settings {
        ProtocolSettings::VMess(s) => if 0 <= idx < s.clients@.len() {
            Some(vmess_link_text(inb, server, s.clients@[idx].id@, s.clients@[idx].security@))
        } else {
            None
        },
        ProtocolSettings::VLess(s) => if 0 <= idx < s.clients@.len() {
            Some(
                vless_link_text(
                    inb,
                    server,
                    s.clients@[idx].id@,
                    match s.clients@[idx].flow {
                        Some(f) => Some(f@),
                        None => None,
                    },
                ),
            )
        } else {
            None
        },
        ProtocolSettings::Trojan(s) => if 0 <= idx < s.clients@.len() {
            Some(trojan_link_text(inb, server, s.clients@[idx].password@))
        } else {
            None
        },
        ProtocolSettings::Shadowsocks(s) => Some(ss_link_text(inb, server, s.method@, s.password@)),
        _ => None,
    }
}

/// `s` starts with `p`, which is followed by `rest`.
proof fn lemma_starts_with(p: Seq<char>, rest: Seq<char>)
    ensures
        is_prefix(p, p + rest),
{
    assert((p + rest).subrange(0, p.len() as int) =~= p);
}

/// What a share link carries, whatever else it holds: a VLESS link starts
/// with `vless://`, the client's id, `@`, the server, `:` and the port; a
/// Trojan link with `trojan://`, the escaped password, `@`, the server,
/// `:` and the port; a Shadowsocks link with `ss://`, the base64 of
/// `method:password`, `@`, the server, `:` and the port; a VMess link is
/// `vmess://` and base64 text that decodes to a JSON object whose `add`,
/// `id`, `port` and `scy` members are the server, the client's id, the
/// port and the client's security.
pub proof fn lemma_share_link_carries_the_user(inb: InboundConfig, server: Seq<char>, idx: int)
    ensures
        match inb.settings {
            ProtocolSettings::VLess(s) => 0 <= idx < s.clients@.len() ==> (share_link(inb, server, idx) matches Some(l)
                && is_prefix("vless://"@ + s.clients@[idx].id@ + "@"@ + server + ":"@ + decimal(inb.port as nat) + "?"@, l)),
            ProtocolSettings::Trojan(s) => 0 <= idx < s.clients@.len() ==> (share_link(inb, server, idx) matches Some(l)
                && is_prefix("trojan://"@ + urlencode(s.clients@[idx].password@) + "@"@ + server + ":"@ + decimal(inb.port as nat) + "?"@, l)),
            ProtocolSettings::Shadowsocks(s) => share_link(inb, server, idx) matches Some(l)
                && is_prefix("ss://"@ + base64_standard(s.method@ + ":"@ + s.password@) + "@"@ + server + ":"@ + decimal(inb.port as nat) + "#"@, l),
            ProtocolSettings::VMess(s) => 0 <= idx < s.clients@.len() ==> (share_link(inb, server, idx) matches Some(l)
                && exists|e: Seq<char>, fs: Seq<(Seq<char>, Seq<char>)>| {
                    &&& l == "vmess://"@ + e
                    &&& base64_decode(e) == encode_utf8(json_object(fs))
                    &&& fs.len() > 9
                    &&& fs[0] == ("add"@, server)
                    &&& fs[4] == ("id"@, s.clients@[idx].id@)
                    &&& fs[7] == ("port"@, decimal(inb.port as nat))
                    &&& fs[9] == ("scy"@, s.clients@[idx].security@)
                }),
            _ => share_link(inb, server, idx) is None,
        },
{
    match inb.settings {
        ProtocolSettings::VLess(s) => if 0 <= idx < s.clients@.len() {
            let l = share_link(inb, server, idx)->Some_0;
            let p = "vless://"@ + s.clients@[idx].id@ + "@"@ + server + ":"@ + decimal(inb.port as nat) + "?"@;
            let parts = link_params(inb.stream_settings).map_values(|p: (Seq<char>, Seq<char>)| key_value(p));
            let flow = match s.clients@[idx].flow { Some(f) => Some(f@), None => None };
            let parts2 = match flow {
                Some(f) => if f.len() > 0 { parts.push("flow="@ + f) } else { parts },
                None => parts,
            };
            let rest = join(parts2, "&"@) + "#"@ + urlencode(tag_text(inb));
            assert(l =~= p + rest);
            lemma_starts_with(p, rest);
        },
        ProtocolSettings::Trojan(s) => if 0 <= idx < s.clients@.len() {
            let l = share_link(inb, server, idx)->Some_0;
            let p = "trojan://"@ + urlencode(s.clients@[idx].password@) + "@"@ + server + ":"@ + decimal(inb.port as nat) + "?"@;
            let rest = query(link_params(inb.stream_settings)) + "#"@ + urlencode(tag_text(inb));
            assert(l =~= p + rest);
            lemma_starts_with(p, rest);
        },
        ProtocolSettings::Shadowsocks(s) => {
            let l = share_link(inb, server, idx)->Some_0;
            let p = "ss://"@ + base64_standard(s.method@ + ":"@ + s.password@) + "@"@ + server + ":"@ + decimal(inb.port as nat) + "#"@;
            let rest = urlencode(tag_text(inb));
            assert(l =~= p + rest);
            lemma_starts_with(p, rest);
        },
        ProtocolSettings::VMess(s) => if 0 <= idx < s.clients@.len() {
            let fs = vmess_fields(inb, server, s.clients@[idx].id@, s.clients@[idx].security@);
            let e = base64_standard(json_object(fs));
            lemma_base64_round_trip(encode_utf8(json_object(fs)));
            assert(share_link(inb, server, idx)->Some_0 == "vmess://"@ + e);
        },
        _ => {},
    }
}

/// Decoding an exported subscription gives back the UTF-8 bytes of the
/// share links of every user of every inbound, in order, one per line;
/// with no inbounds the export is empty.
pub proof fn lemma_export_decodes(inbounds: Seq<InboundConfig>, server: Seq<char>)
    ensures
        base64_decode(base64_standard(join(all_links(inbounds, server), "\n"@)))
            == encode_utf8(join(all_links(inbounds, server), "\n"@)),
        inbounds.len() == 0 ==> base64_standard(join(all_links(inbounds, server), "\n"@)) == Seq::<char>::empty(),
{
    lemma_base64_round_trip(encode_utf8(join(all_links(inbounds, server), "\n"@)));
    if inbounds.len() == 0 {
        assert(join(all_links(inbounds, server), "\n"@) =~= Seq::<char>::empty());
        assert(encode_utf8(Seq::<char>::empty()) =~= Seq::<u8>::empty());
    }
}

/// The share links of users `0..n` of an inbound, skipping users without one.
pub open spec fn inbound_links(inb: InboundConfig, server: Seq<char>, n: nat) -> Seq<Seq<char>>
    decreases n,
{
    if n == 0 {
        Seq::empty()
    } else {
        let before = inbound_links(inb, server, (n - 1) as nat);
        match share_link(inb, server, n - 1) {
            Some(l) => before.push(l),
            None => before,
        }
    }
}

/// The share links of all users of all inbounds, in order.
pub open spec fn all_links(inbounds: Seq<InboundConfig>, server: Seq<char>) -> Seq<Seq<char>>
    decreases inbounds.len(),
{
    if inbounds.len() == 0 {
        Seq::empty()
    } else {
        all_links(inbounds.drop_last(), server) + inbound_links(
            inbounds.last(),
            server,
            inbounds.last().users(),
        )
    }
}

fn push_pair(v: &mut Vec<(String, String)>, k: &str, val: String)
    ensures
        pair_texts(final(v)@) == pair_texts(old(v)@).push((k@, val@)),
{
    v.push((lit(k), val));
    assert(pair_texts(final(v)@) =~= pair_texts(old(v)@).push((k@, val@)));
}

/// Each pair as `key=value`.
fn param_parts(params: &Vec<(String, String)>) -> (parts: Vec<String>)
    ensures
        texts(parts@) == pair_texts(params@).map_values(|p: (Seq<char>, Seq<char>)| key_value(p)),
{
    let mut parts: Vec<String> = Vec::new();
    let mut i: usize = 0;
    while i < params.len()
        invariant
            i <= params@.len(),
            texts(parts@) == pair_texts(params@).take(i as int).map_values(
                |p: (Seq<char>, Seq<char>)| key_value(p),
            ),
        decreases params@.len() - i,
    {
        let mut s = params[i].0.clone();
        s.append("=");
        s.append(params[i].1.as_str());
        let ghost prev = parts@;
        parts.push(s);
        assert(pair_texts(params@)[i as int] == (params@[i as int].0@, params@[i as int].1@));
        assert(s@ == key_value(pair_texts(params@)[i as int]));
        assert(texts(parts@) =~= texts(prev).push(s@));
        assert(texts(parts@) =~= pair_texts(params@).take(i + 1).map_values(
            |p: (Seq<char>, Seq<char>)| key_value(p),
        ));
        i += 1;
    }
    assert(pair_texts(params@).take(params@.len() as int) =~= pair_texts(params@));
    parts
}

/// Appends `server:port`.
fn append_host_port(r: &mut String, server: &str, port: u16)
    ensures
        final(r)@ == old(r)@ + server@ + ":"@ + decimal(port as nat),
{
    r.append(server);
    r.append(":");
    let p = u64_to_decimal(port as u64);
    r.append(p.as_str());
}

fn tag_or_empty(inbound: &InboundConfig) -> (r: String)
    ensures
        r@ == tag_text(*inbound),
{
    match &inbound.tag {
        Some(t) => t.clone(),
        None => String::new(),
    }
}

impl SubscriptionService {
    fn transport_params(inbound: &InboundConfig) -> (r: Vec<(String, String)>)
        ensures
            pair_texts(r@) == link_params(inbound.stream_settings),
    {
        let ss = &inbound.stream_settings;
        let mut params: Vec<(String, String)> = Vec::new();
        let net = match ss.network {
            TransportNetwork::Tcp => lit("tcp"),
            TransportNetwork::Ws => lit("ws"),
            TransportNetwork::Grpc => lit("grpc"),
            TransportNetwork::HttpUpgrade => lit("httpupgrade"),
            TransportNetwork::Quic => lit("quic"),
            TransportNetwork::Kcp => lit("kcp"),
            TransportNetwork::DomainSocket => lit("ds"),
        };
        push_pair(&mut params, "type", net);
        let sec = match ss.security {
            StreamSecurity::NoSecurity => lit("none"),
            StreamSecurity::Tls => lit("tls"),
            StreamSecurity::Reality => lit("reality"),
        };
        push_pair(&mut params, "security", sec);
        assert(pair_texts(params@) =~= seq![("type"@, net_param(ss.network)), ("security"@, security_param(ss.security))]);
        if let Some(tls) = &ss.tls_settings {
            if let Some(sni) = &tls.server_name {
                push_pair(&mut params, "sni", sni.clone());
            }
        }
        if let Some(reality) = &ss.reality_settings {
            push_pair(&mut params, "sni", reality.server_name.clone());
            push_pair(&mut params, "fp", reality.fingerprint.clone());
            push_pair(&mut params, "pbk", reality.public_key.clone());
            if reality.short_ids.len() > 0 {
                push_pair(&mut params, "sid", reality.short_ids[0].clone());
            }
            let spx = match &reality.spider_x {
                Some(x) => x.clone(),
                None => lit("/"),
            };
            push_pair(&mut params, "spx", spx);
        }
        if let Some(ws) = &ss.ws_settings {
            push_pair(&mut params, "path", ws.path.clone());
            if let Some(host) = &ws.host {
                push_pair(&mut params, "host", host.clone());
            }
        }
        if let Some(grpc) = &ss.grpc_settings {
            push_pair(&mut params, "serviceName", grpc.service_name.clone());
            if grpc.multi_mode {
                push_pair(&mut params, "mode", lit("multi"));
            }
        }
        params
    }

    fn make_params(params: &Vec<(String, String)>) -> (r: String)
        ensures
            r@ == query(pair_texts(params@)),
    {
        let parts = param_parts(params);
        join_strings(&parts, "&")
    }

    fn vless_link(inbound: &InboundConfig, server: &str, uuid: &str, flow: Option<&str>) -> (r: String)
        ensures
            r@ == vless_link_text(
                *inbound,
                server@,
                uuid@,
                match flow {
                    Some(f) => Some(f@),
                    None => None,
                },
            ),
    {
        let params = Self::transport_params(inbound);
        let mut parts = param_parts(&params);
        let ghost base = texts(parts@);
        if let Some(f) = flow {
            if !f.is_empty() {
                let mut fl = lit("flow=");
                fl.append(f);
                parts.push(fl);
                assert(texts(parts@) =~= base.push("flow="@ + f@));
            }
        }
        let param_str = join_strings(&parts, "&");
        let tag = urlencoding(tag_or_empty(inbound).as_str());
        let mut r = lit("vless://");
        r.append(uuid);
        r.append("@");
        append_host_port(&mut r, server, inbound.port);
        r.append("?");
        r.append(param_str.as_str());
        r.append("#");
        r.append(tag.as_str());
        r
    }

    fn trojan_link(inbound: &InboundConfig, server: &str, password: &str) -> (r: String)
        ensures
            r@ == trojan_link_text(*inbound, server@, password@),
    {
        let params = Self::transport_params(inbound);
        let tag = urlencoding(tag_or_empty(inbound).as_str());
        let mut r = lit("trojan://");
        let pw = urlencoding(password);
        r.append(pw.as_str());
        r.append("@");
        append_host_port(&mut r, server, inbound.port);
        r.append("?");
        let q = Self::make_params(&params);
        r.append(q.as_str());
        r.append("#");
        r.append(tag.as_str());
        r
    }

    fn ss_link(inbound: &InboundConfig, server: &str, method: &str, password: &str) -> (r: String)
        ensures
            r@ == ss_link_text(*inbound, server@, method@, password@),
    {
        let mut plain = lit(method);
        plain.append(":");
        plain.append(password);
        let userinfo = base64_encode(plain.as_str());
        let tag = urlencoding(tag_or_empty(inbound).as_str());
        let mut r = lit("ss://");
        r.append(userinfo.as_str());
        r.append("@");
        append_host_port(&mut r, server, inbound.port);
        r.append("#");
        r.append(tag.as_str());
        r
    }

    fn extract_transport_info(inbound: &InboundConfig) -> (r: (String, String, String))
        ensures
            r.0@ == ws_path_or_root(inbound.stream_settings),
            r.1@ == ws_host_or_empty(inbound.stream_settings),
            r.2@ == tls_sni_or_empty(inbound.stream_settings),
    {
        let ss = &inbound.stream_settings;
        let path = match &ss.ws_settings {
            Some(w) => w.path.clone(),
            None => lit("/"),
        };
        let host = match &ss.ws_settings {
            Some(w) => match &w.host {
                Some(h) => h.clone(),
                None => String::new(),
            },
            None => String::new(),
        };
        let sni = match &ss.tls_settings {
            Some(t) => match &t.server_name {
                Some(n) => n.clone(),
                None => String::new(),
            },
            None => String::new(),
        };
        (path, host, sni)
    }

    fn vmess_link(inbound: &InboundConfig, server: &str, uuid: &str, security: &str) -> (r: String)
        ensures
            r@ == vmess_link_text(*inbound, server@, uuid@, security@),
    {
        let ss = &inbound.stream_settings;
        let tls = match ss.security {
            StreamSecurity::Tls => lit("tls"),
            StreamSecurity::Reality => lit("reality"),
            StreamSecurity::NoSecurity => String::new(),
        };
        let net = match ss.network {
            TransportNetwork::Tcp => lit("tcp"),
            TransportNetwork::Ws => lit("ws"),
            TransportNetwork::Grpc => lit("grpc"),
            TransportNetwork::HttpUpgrade => lit("h2"),
            TransportNetwork::Quic => lit("quic"),
            TransportNetwork::Kcp => lit("kcp"),
            TransportNetwork::DomainSocket => lit("domainsocket"),
        };
        let (path, host, sni) = Self::extract_transport_info(inbound);
        let mut fields: Vec<(String, String)> = Vec::new();
        push_pair(&mut fields, "add", lit(server));
        push_pair(&mut fields, "aid", lit("0"));
        push_pair(&mut fields, "alpn", String::new());
        push_pair(&mut fields, "host", host);
        push_pair(&mut fields, "id", lit(uuid));
        push_pair(&mut fields, "net", net);
        push_pair(&mut fields, "path", path);
        push_pair(&mut fields, "port", u64_to_decimal(inbound.port as u64));
        push_pair(&mut fields, "ps", tag_or_empty(inbound));
        push_pair(&mut fields, "scy", lit(security));
        push_pair(&mut fields, "sni", sni);
        push_pair(&mut fields, "tls", tls);
        push_pair(&mut fields, "type", lit("none"));
        push_pair(&mut fields, "v", lit("2"));
        assert(pair_texts(fields@) =~= vmess_fields(*inbound, server@, uuid@, security@));
        proof { lemma_vmess_keys_ascending(*inbound, server@, uuid@, security@); }
        let json = json_object_string(&fields);
        let encoded = base64_encode(json.as_str());
        let mut r = lit("vmess://");
        r.append(encoded.as_str());
        r
    }

    /// The share link of user `user_index` of an inbound (see `share_link`).
    pub fn generate_share_link(inbound: &InboundConfig, server_ip: &str, user_index: usize) -> (r: Option<String>)
        ensures
            match r {
                Some(l) => share_link(*inbound, server_ip@, user_index as int) == Some(l@),
                None => share_link(*inbound, server_ip@, user_index as int) is None,
            },
    {
        match &inbound.settings {
            ProtocolSettings::VMess(settings) => {
                if user_index < settings.clients.len() {
                    let client = &settings.clients[user_index];
                    Some(Self::vmess_link(inbound, server_ip, client.id.as_str(), client.security.as_str()))
                } else {
                    None
                }
            },
            ProtocolSettings::VLess(settings) => {
                if user_index < settings.clients.len() {
                    let client = &settings.clients[user_index];
                    let flow: Option<&str> = match &client.flow {
                        Some(f) => Some(f.as_str()),
                        None => None,
                    };
                    Some(Self::vless_link(inbound, server_ip, client.id.as_str(), flow))
                } else {
                    None
                }
            },
            ProtocolSettings::Trojan(settings) => {
                if user_index < settings.clients.len() {
                    let client = &settings.clients[user_index];
                    Some(Self::trojan_link(inbound, server_ip, client.password.as_str()))
                } else {
                    None
                }
            },
            ProtocolSettings::Shadowsocks(settings) => {
                Some(Self::ss_link(inbound, server_ip, settings.method.as_str(), settings.password.as_str()))
            },
            _ => None,
        }
    }

    /// Appends the share links of all users of an inbound.
    fn push_inbound_links(links: &mut Vec<String>, inb: &InboundConfig, server_ip: &str)
        ensures
            texts(final(links)@) == texts(old(links)@) + inbound_links(*inb, server_ip@, inb.users()),
    {
        let count = inb.user_count();
        let ghost base = texts(links@);
        let mut j: usize = 0;
        while j < count
            invariant
                j <= count,
                count == inb.users(),
                texts(links@) == base + inbound_links(*inb, server_ip@, j as nat),
            decreases count - j,
        {
            let ghost prev = texts(links@);
            match Self::generate_share_link(inb, server_ip, j) {
                Some(l) => {
                    links.push(l);
                    assert(texts(links@) =~= prev.push(l@));
                },
                None => {},
            }
            assert(inbound_links(*inb, server_ip@, (j + 1) as nat) == match share_link(*inb, server_ip@, j as int) {
                Some(l) => inbound_links(*inb, server_ip@, j as nat).push(l),
                None => inbound_links(*inb, server_ip@, j as nat),
            });
            assert(texts(links@) =~= base + inbound_links(*inb, server_ip@, (j + 1) as nat));
            j += 1;
        }
    }

    /// The subscription for all users of the inbounds: the base64 of their
    /// share links joined with newlines.
    pub fn export_subscription(inbounds: &[InboundConfig], server_ip: &str) -> (r: String)
        ensures
            r@ == base64_standard(join(all_links(inbounds@, server_ip@), "\n"@)),
    {
        let mut links: Vec<String> = Vec::new();
        let mut i: usize = 0;
        while i < inbounds.len()
            invariant
                i <= inbounds@.len(),
                texts(links@) == all_links(inbounds@.take(i as int), server_ip@),
            decreases inbounds@.len() - i,
        {
            Self::push_inbound_links(&mut links, &inbounds[i], server_ip);
            assert(inbounds@.take(i + 1).drop_last() =~= inbounds@.take(i as int));
            assert(inbounds@.take(i + 1).last() == inbounds@[i as int]);
            i += 1;
        }
        assert(inbounds@.take(inbounds@.len() as int) =~= inbounds@);
        let text = join_strings(&links, "\n");
        base64_encode(text.as_str())
    }

    /// The subscription for all users of the loaded configurations (see
    /// `export_subscription`).
    pub fn export_entries(entries: &Vec<ConfigEntry>, server_ip: &str) -> (r: String)
        ensures
            r@ == base64_standard(join(all_links(entry_configs(entries@), server_ip@), "\n"@)),
    {
        let mut links: Vec<String> = Vec::new();
        let mut i: usize = 0;
        while i < entries.len()
            invariant
                i <= entries@.len(),
                texts(links@) == all_links(entry_configs(entries@).take(i as int), server_ip@),
            decreases entries@.len() - i,
        {
            Self::push_inbound_links(&mut links, &entries[i].config, server_ip);
            assert(entry_configs(entries@).take(i + 1).drop_last() =~= entry_configs(entries@).take(i as int));
            assert(entry_configs(entries@).take(i + 1).last() == entries@[i as int].config);
            i += 1;
        }
        assert(entry_configs(entries@).take(entries@.len() as int) =~= entry_configs(entries@));
        let text = join_strings(&links, "\n");
        base64_encode(text.as_str())
    }
}

/// The inbounds of the loaded configurations, in order.
pub open spec fn entry_configs(entries: Seq<ConfigEntry>) -> Seq<InboundConfig> {
    entries.map_values(|e: ConfigEntry| e.config)
}

} // verus!
