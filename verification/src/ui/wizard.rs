use vstd::prelude::*;

use crate::codec::{fresh_uuid, uuid_parses, uuid_text_valid};
use crate::model::config::{InboundConfig, InboundProtocol};
use crate::model::settings::copy_opt;
use crate::model::stream::{StreamSecurity, TransportNetwork};
use crate::text::{
    cat, decimal, lemma_decimal_reads_back, lit, parse_bounded, parse_unsigned, starts_with, without_plus, str_eq, texts, u64_to_decimal,
    is_prefix,
};
use crate::ui::builder::{BuilderView, InboundConfigBuilder, default_view, is_default_builder, or_empty, or_text, ot};
use crate::ui::templates::{InboundTemplate, template_order};

verus! {

/// The steps of the inbound wizard, in order.
#[derive(Debug, Clone, Copy, PartialEq, Eq, Structural)]
pub enum WizardStep {
    Template,
    Basic,
    Transport,
    Sniffing,
    Security,
    Users,
    Confirm,
}

#[derive(Debug, Clone, Copy, PartialEq, Eq, Structural)]
pub enum WizardFieldType {
    Dropdown,
    TextInput,
    Toggle,
    Button,
}

/// One field of a wizard step.
#[derive(Debug, Clone)]
pub struct WizardField {
    pub label: String,
    pub field_type: WizardFieldType,
    pub value: String,
    pub options: Vec<String>,
    pub selected_option: usize,
    pub is_open: bool,
}

/// What a field of a step holds when the step is shown.
pub struct FieldSpec {
    pub label: Seq<char>,
    pub kind: WizardFieldType,
    pub value: Seq<char>,
    pub options: Seq<Seq<char>>,
    pub selected: nat,
}

/// A closed field that holds what `s` says.
pub open spec fn field_matches(f: WizardField, s: FieldSpec) -> bool {
    &&& f.label@ == s.label
    &&& f.field_type == s.kind
    &&& f.value@ == s.value
    &&& texts(f.options@) == s.options
    &&& f.selected_option == s.selected
    &&& !f.is_open
}

/// The fields match the specifications one for one.
pub open spec fn fields_match(fs: Seq<WizardField>, ss: Seq<FieldSpec>) -> bool {
    fs.len() == ss.len() && forall|i: int| 0 <= i < fs.len() ==> field_matches(#[trigger] fs[i], ss[i])
}

/// The first position of `v` in `options`, if it is there.
pub open spec fn first_index(options: Seq<Seq<char>>, v: Seq<char>) -> Option<nat>
    decreases options.len(),
{
    if options.len() == 0 {
        None
    } else if options[0] == v {
        Some(0)
    } else {
        match first_index(options.drop_first(), v) {
            Some(p) => Some(p + 1),
            None => None,
        }
    }
}

/// The first position of `v` in `options`, or 0.
pub open spec fn position_or_zero(options: Seq<Seq<char>>, v: Seq<char>) -> nat {
    match first_index(options, v) {
        Some(p) => p,
        None => 0,
    }
}

/// A dropdown: its selection is the position of its value among the
/// options, or the first option.
pub open spec fn dropdown_spec(label: Seq<char>, value: Seq<char>, options: Seq<Seq<char>>) -> FieldSpec {
    FieldSpec {
        label,
        kind: WizardFieldType::Dropdown,
        value,
        options,
        selected: position_or_zero(options, value),
    }
}

/// A text input.
pub open spec fn text_spec(label: Seq<char>, value: Seq<char>) -> FieldSpec {
    FieldSpec { label, kind: WizardFieldType::TextInput, value, options: Seq::empty(), selected: 0 }
}

/// The text of a toggle.
pub open spec fn bool_text(b: bool) -> Seq<char> {
    if b { "true"@ } else { "false"@ }
}

/// A toggle, `true` or `false`.
pub open spec fn toggle_spec(label: Seq<char>, value: bool) -> FieldSpec {
    FieldSpec {
        label,
        kind: WizardFieldType::Toggle,
        value: bool_text(value),
        options: Seq::empty(),
        selected: 0,
    }
}

/// The button of the `i`-th template: its name and description.
pub open spec fn template_field_spec(i: int) -> FieldSpec {
    let t = template_order()[i];
    FieldSpec {
        label: t.name(),
        kind: WizardFieldType::Button,
        value: "  "@ + t.name() + "  │  "@ + t.description(),
        options: Seq::empty(),
        selected: i as nat,
    }
}

/// The fields of the template step: one button per template.
pub open spec fn template_fields_spec() -> Seq<FieldSpec> {
    Seq::new(14, |i: int| template_field_spec(i))
}

/// The protocols offered in the basic step.
pub open spec fn protocol_options() -> Seq<Seq<char>> {
    seq!["VMess"@, "VLESS"@, "Trojan"@, "Shadowsocks"@, "HTTP"@, "SOCKS"@]
}

/// The fields each step shows for the builder's values.
pub open spec fn step_fields_spec(step: WizardStep, b: BuilderView) -> Seq<FieldSpec> {
    match step {
        WizardStep::Template => template_fields_spec(),
        WizardStep::Basic => seq![
            dropdown_spec("Protocol"@, b.protocol.display(), protocol_options()),
            text_spec("Port"@, decimal(b.port as nat)),
            text_spec("Listen"@, b.listen),
            text_spec("Tag"@, or_empty(b.tag)),
        ],
        WizardStep::Transport => {
            let first = seq![dropdown_spec("Network"@, b.transport.display(), seq!["TCP"@, "WebSocket"@, "gRPC"@])];
            match b.transport {
                TransportNetwork::Ws => first + seq![
                    text_spec("WS Path"@, or_text(b.ws_path, "/ws"@)),
                    text_spec("WS Host"@, or_empty(b.ws_host)),
                ],
                TransportNetwork::Grpc => first + seq![
                    text_spec("gRPC Service"@, or_text(b.grpc_service_name, "TunService"@)),
                    toggle_spec("Multi Mode"@, b.grpc_multi_mode),
                ],
                _ => first,
            }
        },
        WizardStep::Sniffing => seq![
            toggle_spec("Enable Sniffing"@, b.sniffing_enabled),
            toggle_spec("Sniff HTTP"@, b.sniffing_http),
            toggle_spec("Sniff TLS"@, b.sniffing_tls),
            toggle_spec("Sniff QUIC"@, b.sniffing_quic),
            toggle_spec("Route Only"@, b.sniffing_route_only),
        ],
        WizardStep::Security => {
            let first = seq![dropdown_spec("Security"@, b.security.display(), seq!["none"@, "TLS"@, "Reality"@])];
            match b.security {
                StreamSecurity::Tls => first + seq![
                    text_spec("TLS ServerName"@, or_empty(b.tls_server_name)),
                    text_spec("Cert Path"@, or_empty(b.tls_cert_path)),
                    text_spec("Key Path"@, or_empty(b.tls_key_path)),
                ],
                StreamSecurity::Reality => first + seq![
                    text_spec("ServerName"@, or_text(b.reality_server_name, "www.microsoft.com"@)),
                    text_spec("Dest"@, or_text(b.reality_dest, "127.0.0.1:8080"@)),
                    text_spec("Fingerprint"@, b.reality_fingerprint),
                    text_spec("ShortID"@, or_empty(b.reality_short_id)),
                    text_spec("Public Key"@, or_empty(b.reality_public_key)),
                    text_spec("Private Key"@, or_empty(b.reality_private_key)),
                ],
                _ => first,
            }
        },
        WizardStep::Users => match b.protocol {
            InboundProtocol::VMess | InboundProtocol::VLess => seq![
                text_spec("UUID"@, or_empty(b.uuid)),
                text_spec("Email"@, or_empty(b.email)),
            ],
            InboundProtocol::Trojan => seq![
                text_spec("Password"@, or_empty(b.password)),
                text_spec("Email"@, or_empty(b.email)),
            ],
            InboundProtocol::Shadowsocks => seq![
                text_spec("Password"@, or_empty(b.password)),
                dropdown_spec("Method"@, b.ss_method, seq!["aes-256-gcm"@, "chacha20-ietf-poly1305"@]),
            ],
            InboundProtocol::Http => seq![
                text_spec("Username"@, or_empty(b.http_user)),
                text_spec("Password"@, or_empty(b.http_pass)),
            ],
            InboundProtocol::Socks => Seq::empty(),
        },
        WizardStep::Confirm => Seq::empty(),
    }
}

fn position_in(options: &Vec<String>, value: &str) -> (r: usize)
    ensures
        r == position_or_zero(texts(options@), value@),
{
    let mut i: usize = 0;
    while i < options.len()
        invariant
            i <= options@.len(),
            forall|j: int| 0 <= j < i ==> options@[j]@ != value@,
        decreases options@.len() - i,
    {
        if str_eq(options[i].as_str(), value) {
            proof { lemma_position(texts(options@), value@, i as int); }
            return i;
        }
        i += 1;
    }
    proof { lemma_position_absent(texts(options@), value@); }
    0
}

/// `first_index` finds the first place that holds `v`.
proof fn lemma_position(o: Seq<Seq<char>>, v: Seq<char>, i: int)
    requires
        0 <= i < o.len(),
        o[i] == v,
        forall|j: int| 0 <= j < i ==> o[j] != v,
    ensures
        first_index(o, v) == Some(i as nat),
    decreases o.len(),
{
    if i > 0 {
        lemma_position(o.drop_first(), v, i - 1);
    }
}

/// `first_index` finds nothing where no place holds `v`.
proof fn lemma_position_absent(o: Seq<Seq<char>>, v: Seq<char>)
    requires
        forall|j: int| 0 <= j < o.len() ==> o[j] != v,
    ensures
        first_index(o, v) is None,
    decreases o.len(),
{
    if o.len() > 0 {
        lemma_position_absent(o.drop_first(), v);
    }
}

impl WizardField {
    /// A dropdown field whose selection is the position of `value` among the
    /// options, or the first option.
    pub fn dropdown(label: &str, value: &str, options: Vec<String>) -> (r: Self)
        ensures
            field_matches(r, dropdown_spec(label@, value@, texts(options@))),
    {
        let selected = position_in(&options, value);
        WizardField {
            label: lit(label),
            field_type: WizardFieldType::Dropdown,
            value: lit(value),
            options,
            selected_option: selected,
            is_open: false,
        }
    }

    /// A text input field.
    pub fn text(label: &str, value: &str) -> (r: Self)
        ensures
            field_matches(r, text_spec(label@, value@)),
    {
        let options: Vec<String> = Vec::new();
        assert(texts(options@) =~= Seq::<Seq<char>>::empty());
        WizardField {
            label: lit(label),
            field_type: WizardFieldType::TextInput,
            value: lit(value),
            options,
            selected_option: 0,
            is_open: false,
        }
    }

    /// A toggle field.
    pub fn toggle(label: &str, value: bool) -> (r: Self)
        ensures
            field_matches(r, toggle_spec(label@, value)),
    {
        let options: Vec<String> = Vec::new();
        assert(texts(options@) =~= Seq::<Seq<char>>::empty());
        WizardField {
            label: lit(label),
            field_type: WizardFieldType::Toggle,
            value: if value { lit("true") } else { lit("false") },
            options,
            selected_option: 0,
            is_open: false,
        }
    }
}

/// The state of the inbound wizard.
#[derive(Debug, Clone)]
pub struct InboundWizardState {
    pub current_step: WizardStep,
    pub edit_index: Option<usize>,
    pub builder: InboundConfigBuilder,
    pub fields: Vec<WizardField>,
    pub focused: usize,
    pub auto_restart: bool,
    pub json_preview: String,
    pub selected_template: usize,
}

fn strings2(a: &str, b: &str) -> (r: Vec<String>)
    ensures
        texts(r@) == seq![a@, b@],
{
    let mut v: Vec<String> = Vec::new();
    v.push(lit(a));
    v.push(lit(b));
    assert(texts(v@) =~= seq![a@, b@]);
    v
}

fn strings3(a: &str, b: &str, c: &str) -> (r: Vec<String>)
    ensures
        texts(r@) == seq![a@, b@, c@],
{
    let mut v: Vec<String> = Vec::new();
    v.push(lit(a));
    v.push(lit(b));
    v.push(lit(c));
    assert(texts(v@) =~= seq![a@, b@, c@]);
    v
}

fn push_field(v: &mut Vec<WizardField>, f: WizardField, Ghost(specs): Ghost<Seq<FieldSpec>>, Ghost(s): Ghost<FieldSpec>)
    requires
        fields_match(old(v)@, specs),
        field_matches(f, s),
    ensures
        fields_match(final(v)@, specs.push(s)),
{
    v.push(f);
    assert forall|i: int| 0 <= i < final(v)@.len() implies field_matches(#[trigger] final(v)@[i], specs.push(s)[i]) by {
        if i < specs.len() {
            assert(final(v)@[i] == old(v)@[i]);
        }
    }
}

fn text_or_empty_str(o: &Option<String>) -> (r: String)
    ensures
        r@ == or_empty(ot(*o)),
{
    match o {
        Some(s) => s.clone(),
        None => String::new(),
    }
}

fn text_or_str(o: &Option<String>, d: &str) -> (r: String)
    ensures
        r@ == or_text(ot(*o), d@),
{
    match o {
        Some(s) => s.clone(),
        None => lit(d),
    }
}

impl InboundWizardState {
    fn build_template_fields() -> (r: Vec<WizardField>)
        ensures
            fields_match(r@, template_fields_spec()),
    {
        let templates = InboundTemplate::offered();
        let mut v: Vec<WizardField> = Vec::new();
        let mut i: usize = 0;
        while i < templates.len()
            invariant
                templates@ == template_order(),
                i <= templates@.len(),
                fields_match(v@, template_fields_spec().take(i as int)),
            decreases templates@.len() - i,
        {
            let (name, desc) = templates[i].info();
            let mut value = lit("  ");
            value.append(name);
            value.append("  │  ");
            value.append(desc);
            let options: Vec<String> = Vec::new();
            assert(texts(options@) =~= Seq::<Seq<char>>::empty());
            let f = WizardField {
                label: lit(name),
                field_type: WizardFieldType::Button,
                value,
                options,
                selected_option: i,
                is_open: false,
            };
            assert(field_matches(f, template_fields_spec()[i as int]));
            push_field(&mut v, f, Ghost(template_fields_spec().take(i as int)), Ghost(template_fields_spec()[i as int]));
            assert(template_fields_spec().take(i as int).push(template_fields_spec()[i as int]) =~= template_fields_spec().take(i + 1));
            i += 1;
        }
        assert(template_fields_spec().take(14) =~= template_fields_spec());
        v
    }

    /// The fields a step shows for the builder's values (see
    /// `step_fields_spec`).
    pub fn build_step_fields(step: WizardStep, builder: &InboundConfigBuilder) -> (r: Vec<WizardField>)
        ensures
            fields_match(r@, step_fields_spec(step, builder@)),
    {
        let b = builder;
        let ghost bv = builder@;
        let mut v: Vec<WizardField> = Vec::new();
        let ghost e = Seq::<FieldSpec>::empty();
        match step {
            WizardStep::Template => {
                return Self::build_template_fields();
            },
            WizardStep::Basic => {
                let mut opts: Vec<String> = Vec::new();
                opts.push(lit("VMess"));
                opts.push(lit("VLESS"));
                opts.push(lit("Trojan"));
                opts.push(lit("Shadowsocks"));
                opts.push(lit("HTTP"));
                opts.push(lit("SOCKS"));
                assert(texts(opts@) =~= protocol_options());
                let proto = b.protocol.to_string();
                push_field(&mut v, WizardField::dropdown("Protocol", proto.as_str(), opts), Ghost(e),
                    Ghost(dropdown_spec("Protocol"@, bv.protocol.display(), protocol_options())));
                let port = u64_to_decimal(b.port as u64);
                let ghost s1 = e.push(dropdown_spec("Protocol"@, bv.protocol.display(), protocol_options()));
                push_field(&mut v, WizardField::text("Port", port.as_str()), Ghost(s1), Ghost(text_spec("Port"@, decimal(bv.port as nat))));
                let ghost s2 = s1.push(text_spec("Port"@, decimal(bv.port as nat)));
                push_field(&mut v, WizardField::text("Listen", b.listen.as_str()), Ghost(s2), Ghost(text_spec("Listen"@, bv.listen)));
                let ghost s3 = s2.push(text_spec("Listen"@, bv.listen));
                let tag = text_or_empty_str(&b.tag);
                push_field(&mut v, WizardField::text("Tag", tag.as_str()), Ghost(s3), Ghost(text_spec("Tag"@, or_empty(bv.tag))));
                assert(s3.push(text_spec("Tag"@, or_empty(bv.tag))) =~= step_fields_spec(step, bv));
            },
            WizardStep::Transport => {
                let opts = strings3("TCP", "WebSocket", "gRPC");
                let net = b.transport.to_string();
                let ghost d = dropdown_spec("Network"@, bv.transport.display(), seq!["TCP"@, "WebSocket"@, "gRPC"@]);
                push_field(&mut v, WizardField::dropdown("Network", net.as_str(), opts), Ghost(e), Ghost(d));
                let ghost s1 = e.push(d);
                match b.transport {
                    TransportNetwork::Ws => {
                        let p = text_or_str(&b.ws_path, "/ws");
                        let ghost f1 = text_spec("WS Path"@, or_text(bv.ws_path, "/ws"@));
                        push_field(&mut v, WizardField::text("WS Path", p.as_str()), Ghost(s1), Ghost(f1));
                        let h = text_or_empty_str(&b.ws_host);
                        let ghost f2 = text_spec("WS Host"@, or_empty(bv.ws_host));
                        push_field(&mut v, WizardField::text("WS Host", h.as_str()), Ghost(s1.push(f1)), Ghost(f2));
                        assert(s1.push(f1).push(f2) =~= step_fields_spec(step, bv));
                    },
                    TransportNetwork::Grpc => {
                        let p = text_or_str(&b.grpc_service_name, "TunService");
                        let ghost f1 = text_spec("gRPC Service"@, or_text(bv.grpc_service_name, "TunService"@));
                        push_field(&mut v, WizardField::text("gRPC Service", p.as_str()), Ghost(s1), Ghost(f1));
                        let ghost f2 = toggle_spec("Multi Mode"@, bv.grpc_multi_mode);
                        push_field(&mut v, WizardField::toggle("Multi Mode", b.grpc_multi_mode), Ghost(s1.push(f1)), Ghost(f2));
                        assert(s1.push(f1).push(f2) =~= step_fields_spec(step, bv));
                    },
                    _ => {
                        assert(s1 =~= step_fields_spec(step, bv));
                    },
                }
            },
            WizardStep::Sniffing => {
                let ghost f0 = toggle_spec("Enable Sniffing"@, bv.sniffing_enabled);
                let ghost f1 = toggle_spec("Sniff HTTP"@, bv.sniffing_http);
                let ghost f2 = toggle_spec("Sniff TLS"@, bv.sniffing_tls);
                let ghost f3 = toggle_spec("Sniff QUIC"@, bv.sniffing_quic);
                let ghost f4 = toggle_spec("Route Only"@, bv.sniffing_route_only);
                push_field(&mut v, WizardField::toggle("Enable Sniffing", b.sniffing_enabled), Ghost(e), Ghost(f0));
                push_field(&mut v, WizardField::toggle("Sniff HTTP", b.sniffing_http), Ghost(e.push(f0)), Ghost(f1));
                push_field(&mut v, WizardField::toggle("Sniff TLS", b.sniffing_tls), Ghost(e.push(f0).push(f1)), Ghost(f2));
                push_field(&mut v, WizardField::toggle("Sniff QUIC", b.sniffing_quic), Ghost(e.push(f0).push(f1).push(f2)), Ghost(f3));
                push_field(&mut v, WizardField::toggle("Route Only", b.sniffing_route_only), Ghost(e.push(f0).push(f1).push(f2).push(f3)), Ghost(f4));
                assert(e.push(f0).push(f1).push(f2).push(f3).push(f4) =~= step_fields_spec(step, bv));
            },
            WizardStep::Security => {
                let opts = strings3("none", "TLS", "Reality");
                let sec = b.security.to_string();
                let ghost d = dropdown_spec("Security"@, bv.security.display(), seq!["none"@, "TLS"@, "Reality"@]);
                push_field(&mut v, WizardField::dropdown("Security", sec.as_str(), opts), Ghost(e), Ghost(d));
                let ghost s1 = e.push(d);
                match b.security {
                    StreamSecurity::Tls => {
                        let a = text_or_empty_str(&b.tls_server_name);
                        let ghost f1 = text_spec("TLS ServerName"@, or_empty(bv.tls_server_name));
                        push_field(&mut v, WizardField::text("TLS ServerName", a.as_str()), Ghost(s1), Ghost(f1));
                        let c = text_or_empty_str(&b.tls_cert_path);
                        let ghost f2 = text_spec("Cert Path"@, or_empty(bv.tls_cert_path));
                        push_field(&mut v, WizardField::text("Cert Path", c.as_str()), Ghost(s1.push(f1)), Ghost(f2));
                        let k = text_or_empty_str(&b.tls_key_path);
                        let ghost f3 = text_spec("Key Path"@, or_empty(bv.tls_key_path));
                        push_field(&mut v, WizardField::text("Key Path", k.as_str()), Ghost(s1.push(f1).push(f2)), Ghost(f3));
                        assert(s1.push(f1).push(f2).push(f3) =~= step_fields_spec(step, bv));
                    },
                    StreamSecurity::Reality => {
                        let a = text_or_str(&b.reality_server_name, "www.microsoft.com");
                        let ghost f1 = text_spec("ServerName"@, or_text(bv.reality_server_name, "www.microsoft.com"@));
                        push_field(&mut v, WizardField::text("ServerName", a.as_str()), Ghost(s1), Ghost(f1));
                        let d2 = text_or_str(&b.reality_dest, "127.0.0.1:8080");
                        let ghost f2 = text_spec("Dest"@, or_text(bv.reality_dest, "127.0.0.1:8080"@));
                        push_field(&mut v, WizardField::text("Dest", d2.as_str()), Ghost(s1.push(f1)), Ghost(f2));
                        let ghost f3 = text_spec("Fingerprint"@, bv.reality_fingerprint);
                        push_field(&mut v, WizardField::text("Fingerprint", b.reality_fingerprint.as_str()), Ghost(s1.push(f1).push(f2)), Ghost(f3));
                        let sid = text_or_empty_str(&b.reality_short_id);
                        let ghost f4 = text_spec("ShortID"@, or_empty(bv.reality_short_id));
                        push_field(&mut v, WizardField::text("ShortID", sid.as_str()), Ghost(s1.push(f1).push(f2).push(f3)), Ghost(f4));
                        let pk = text_or_empty_str(&b.reality_public_key);
                        let ghost f5 = text_spec("Public Key"@, or_empty(bv.reality_public_key));
                        push_field(&mut v, WizardField::text("Public Key", pk.as_str()), Ghost(s1.push(f1).push(f2).push(f3).push(f4)), Ghost(f5));
                        let sk = text_or_empty_str(&b.reality_private_key);
                        let ghost f6 = text_spec("Private Key"@, or_empty(bv.reality_private_key));
                        push_field(&mut v, WizardField::text("Private Key", sk.as_str()), Ghost(s1.push(f1).push(f2).push(f3).push(f4).push(f5)), Ghost(f6));
                        assert(s1.push(f1).push(f2).push(f3).push(f4).push(f5).push(f6) =~= step_fields_spec(step, bv));
                    },
                    _ => {
                        assert(s1 =~= step_fields_spec(step, bv));
                    },
                }
            },
            WizardStep::Users => {
                match b.protocol {
                    InboundProtocol::VMess | InboundProtocol::VLess => {
                        let u = text_or_empty_str(&b.uuid);
                        let ghost f1 = text_spec("UUID"@, or_empty(bv.uuid));
                        push_field(&mut v, WizardField::text("UUID", u.as_str()), Ghost(e), Ghost(f1));
                        let m = text_or_empty_str(&b.email);
                        let ghost f2 = text_spec("Email"@, or_empty(bv.email));
                        push_field(&mut v, WizardField::text("Email", m.as_str()), Ghost(e.push(f1)), Ghost(f2));
                        assert(e.push(f1).push(f2) =~= step_fields_spec(step, bv));
                    },
                    InboundProtocol::Trojan => {
                        let p = text_or_empty_str(&b.password);
                        let ghost f1 = text_spec("Password"@, or_empty(bv.password));
                        push_field(&mut v, WizardField::text("Password", p.as_str()), Ghost(e), Ghost(f1));
                        let m = text_or_empty_str(&b.email);
                        let ghost f2 = text_spec("Email"@, or_empty(bv.email));
                        push_field(&mut v, WizardField::text("Email", m.as_str()), Ghost(e.push(f1)), Ghost(f2));
                        assert(e.push(f1).push(f2) =~= step_fields_spec(step, bv));
                    },
                    InboundProtocol::Shadowsocks => {
                        let p = text_or_empty_str(&b.password);
                        let ghost f1 = text_spec("Password"@, or_empty(bv.password));
                        push_field(&mut v, WizardField::text("Password", p.as_str()), Ghost(e), Ghost(f1));
                        let opts = strings2("aes-256-gcm", "chacha20-ietf-poly1305");
                        let ghost f2 = dropdown_spec("Method"@, bv.ss_method, seq!["aes-256-gcm"@, "chacha20-ietf-poly1305"@]);
                        push_field(&mut v, WizardField::dropdown("Method", b.ss_method.as_str(), opts), Ghost(e.push(f1)), Ghost(f2));
                        assert(e.push(f1).push(f2) =~= step_fields_spec(step, bv));
                    },
                    InboundProtocol::Http => {
                        let u = text_or_empty_str(&b.http_user);
                        let ghost f1 = text_spec("Username"@, or_empty(bv.http_user));
                        push_field(&mut v, WizardField::text("Username", u.as_str()), Ghost(e), Ghost(f1));
                        let p = text_or_empty_str(&b.http_pass);
                        let ghost f2 = text_spec("Password"@, or_empty(bv.http_pass));
                        push_field(&mut v, WizardField::text("Password", p.as_str()), Ghost(e.push(f1)), Ghost(f2));
                        assert(e.push(f1).push(f2) =~= step_fields_spec(step, bv));
                    },
                    InboundProtocol::Socks => {
                        assert(v@ =~= Seq::<WizardField>::empty());
                    },
                }
            },
            WizardStep::Confirm => {
                assert(v@ =~= Seq::<WizardField>::empty());
            },
        }
        v
    }
}

/// The values of the fields, as texts.
pub open spec fn field_values(fs: Seq<WizardField>) -> Seq<Seq<char>> {
    fs.map_values(|f: WizardField| f.value@)
}

/// The protocol a dropdown value names; VMess for anything else.
pub open spec fn parse_protocol_spec(s: Seq<char>) -> InboundProtocol {
    if s == "VMess"@ {
        InboundProtocol::VMess
    } else if s == "VLESS"@ {
        InboundProtocol::VLess
    } else if s == "Trojan"@ {
        InboundProtocol::Trojan
    } else if s == "Shadowsocks"@ {
        InboundProtocol::Shadowsocks
    } else if s == "HTTP"@ {
        InboundProtocol::Http
    } else if s == "SOCKS"@ {
        InboundProtocol::Socks
    } else {
        InboundProtocol::VMess
    }
}

/// The transport a dropdown value names; TCP for anything else.
pub open spec fn parse_transport_spec(s: Seq<char>) -> TransportNetwork {
    if s == "TCP"@ {
        TransportNetwork::Tcp
    } else if s == "WebSocket"@ || s == "ws"@ {
        TransportNetwork::Ws
    } else if s == "gRPC"@ || s == "grpc"@ {
        TransportNetwork::Grpc
    } else if s == "HTTPUpgrade"@ {
        TransportNetwork::HttpUpgrade
    } else {
        TransportNetwork::Tcp
    }
}

/// The security layer a dropdown value names; none for anything else.
pub open spec fn parse_security_spec(s: Seq<char>) -> StreamSecurity {
    if s == "TLS"@ || s == "tls"@ {
        StreamSecurity::Tls
    } else if s == "Reality"@ || s == "reality"@ {
        StreamSecurity::Reality
    } else {
        StreamSecurity::NoSecurity
    }
}

/// The port typed in the basic step: the value read as a `u16`, or 443.
pub open spec fn port_from_text(s: Seq<char>) -> u16 {
    match parse_unsigned(s, 65535) {
        Some(n) => n as u16,
        None => 443,
    }
}

/// What the values of a step's fields write into the builder. Each field is
/// read by its position: the first field of the transport step is the
/// network and the next two go to the WebSocket path and host; the first
/// field of the security step is the security and the next three go to the
/// TLS server name, certificate and key; the first field of the users step
/// is both the UUID and the password, the second the e-mail.
pub open spec fn apply_fields_view(b: BuilderView, step: WizardStep, vals: Seq<Seq<char>>) -> BuilderView {
    let n = vals.len();
    match step {
        WizardStep::Basic => BuilderView {
            protocol: if n > 0 { parse_protocol_spec(vals[0]) } else { b.protocol },
            port: if n > 1 { port_from_text(vals[1]) } else { b.port },
            listen: if n > 2 { vals[2] } else { b.listen },
            tag: if n > 3 { if vals[3].len() == 0 { None } else { Some(vals[3]) } } else { b.tag },
            ..b
        },
        WizardStep::Transport => BuilderView {
            transport: if n > 0 { parse_transport_spec(vals[0]) } else { b.transport },
            ws_path: if n > 1 { Some(vals[1]) } else { b.ws_path },
            ws_host: if n > 2 { Some(vals[2]) } else { b.ws_host },
            ..b
        },
        WizardStep::Sniffing => BuilderView {
            sniffing_enabled: if n > 0 { vals[0] == "true"@ } else { b.sniffing_enabled },
            sniffing_http: if n > 1 { vals[1] == "true"@ } else { b.sniffing_http },
            sniffing_tls: if n > 2 { vals[2] == "true"@ } else { b.sniffing_tls },
            sniffing_quic: if n > 3 { vals[3] == "true"@ } else { b.sniffing_quic },
            sniffing_route_only: if n > 4 { vals[4] == "true"@ } else { b.sniffing_route_only },
            ..b
        },
        WizardStep::Security => BuilderView {
            security: if n > 0 { parse_security_spec(vals[0]) } else { b.security },
            tls_server_name: if n > 1 { Some(vals[1]) } else { b.tls_server_name },
            tls_cert_path: if n > 2 { Some(vals[2]) } else { b.tls_cert_path },
            tls_key_path: if n > 3 { Some(vals[3]) } else { b.tls_key_path },
            ..b
        },
        WizardStep::Users => BuilderView {
            uuid: if n > 0 { Some(vals[0]) } else { b.uuid },
            password: if n > 0 { Some(vals[0]) } else { b.password },
            email: if n > 1 { Some(vals[1]) } else { b.email },
            ..b
        },
        _ => b,
    }
}

/// Why the builder's values cannot leave a step, if they cannot.
pub open spec fn validation_error(step: WizardStep, b: BuilderView) -> Option<Seq<char>> {
    match step {
        WizardStep::Basic => if b.port == 0 {
            Some("Port must be 1–65535"@)
        } else if b.listen.len() == 0 {
            Some("Listen address is required"@)
        } else {
            None
        },
        WizardStep::Transport => if b.transport == TransportNetwork::Ws && (b.ws_path matches Some(p)
            && !is_prefix("/"@, p)) {
            Some("WS Path must start with /"@)
        } else {
            None
        },
        WizardStep::Users => match b.protocol {
            InboundProtocol::VMess | InboundProtocol::VLess => if (b.uuid matches Some(id)
                && !uuid_text_valid(id)) {
                Some("UUID format is invalid"@)
            } else {
                None
            },
            InboundProtocol::Trojan | InboundProtocol::Shadowsocks => if (b.password matches Some(p)
                && p.len() == 0) {
                Some("Password is required"@)
            } else {
                None
            },
            _ => None,
        },
        _ => None,
    }
}

/// The step after `s`; the last step stays.
pub open spec fn next_of(s: WizardStep) -> WizardStep {
    match s {
        WizardStep::Template => WizardStep::Basic,
        WizardStep::Basic => WizardStep::Transport,
        WizardStep::Transport => WizardStep::Sniffing,
        WizardStep::Sniffing => WizardStep::Security,
        WizardStep::Security => WizardStep::Users,
        WizardStep::Users => WizardStep::Confirm,
        WizardStep::Confirm => WizardStep::Confirm,
    }
}

/// The step before `s`; the first step stays.
pub open spec fn prev_of(s: WizardStep) -> WizardStep {
    match s {
        WizardStep::Template => WizardStep::Template,
        WizardStep::Basic => WizardStep::Template,
        WizardStep::Transport => WizardStep::Basic,
        WizardStep::Sniffing => WizardStep::Transport,
        WizardStep::Security => WizardStep::Sniffing,
        WizardStep::Users => WizardStep::Security,
        WizardStep::Confirm => WizardStep::Users,
    }
}

/// The protocol named in the protocol dropdown (VMess for anything else).
pub fn parse_protocol(s: &str) -> (r: InboundProtocol)
    ensures
        r == parse_protocol_spec(s@),
{
    if str_eq(s, "VMess") {
        InboundProtocol::VMess
    } else if str_eq(s, "VLESS") {
        InboundProtocol::VLess
    } else if str_eq(s, "Trojan") {
        InboundProtocol::Trojan
    } else if str_eq(s, "Shadowsocks") {
        InboundProtocol::Shadowsocks
    } else if str_eq(s, "HTTP") {
        InboundProtocol::Http
    } else if str_eq(s, "SOCKS") {
        InboundProtocol::Socks
    } else {
        InboundProtocol::VMess
    }
}

fn parse_transport(s: &str) -> (r: TransportNetwork)
    ensures
        r == parse_transport_spec(s@),
{
    if str_eq(s, "TCP") {
        TransportNetwork::Tcp
    } else if str_eq(s, "WebSocket") || str_eq(s, "ws") {
        TransportNetwork::Ws
    } else if str_eq(s, "gRPC") || str_eq(s, "grpc") {
        TransportNetwork::Grpc
    } else if str_eq(s, "HTTPUpgrade") {
        TransportNetwork::HttpUpgrade
    } else {
        TransportNetwork::Tcp
    }
}

fn parse_security(s: &str) -> (r: StreamSecurity)
    ensures
        r == parse_security_spec(s@),
{
    if str_eq(s, "TLS") || str_eq(s, "tls") {
        StreamSecurity::Tls
    } else if str_eq(s, "Reality") || str_eq(s, "reality") {
        StreamSecurity::Reality
    } else {
        StreamSecurity::NoSecurity
    }
}

fn apply_basic(b: &mut InboundConfigBuilder, fields: &Vec<WizardField>)
    ensures
        final(b)@ == apply_fields_view(old(b)@, WizardStep::Basic, field_values(fields@)),
{
    let ghost vals = field_values(fields@);
    let ghost b0 = b@;
    let n = fields.len();
    assert(forall|i: int| 0 <= i < n ==> vals[i] == (#[trigger] fields@[i]).value@);
    if n > 0 {
        b.protocol = parse_protocol(fields[0].value.as_str());
    }
    if n > 1 {
        b.port = match parse_bounded(fields[1].value.as_str(), 65535) {
            Some(p) => p as u16,
            None => 443,
        };
    }
    if n > 2 {
        b.listen = fields[2].value.clone();
    }
    if n > 3 {
        b.tag = if fields[3].value.as_str().is_empty() {
            None
        } else {
            Some(fields[3].value.clone())
        };
    }
    assert(b@ =~= apply_fields_view(b0, WizardStep::Basic, vals));
}

fn apply_transport(b: &mut InboundConfigBuilder, fields: &Vec<WizardField>)
    ensures
        final(b)@ == apply_fields_view(old(b)@, WizardStep::Transport, field_values(fields@)),
{
    let ghost vals = field_values(fields@);
    let ghost b0 = b@;
    let n = fields.len();
    assert(forall|i: int| 0 <= i < n ==> vals[i] == (#[trigger] fields@[i]).value@);
    if n > 0 {
        b.transport = parse_transport(fields[0].value.as_str());
    }
    if n > 1 {
        b.ws_path = Some(fields[1].value.clone());
    }
    if n > 2 {
        b.ws_host = Some(fields[2].value.clone());
    }
    assert(b@ =~= apply_fields_view(b0, WizardStep::Transport, vals));
}

#[verifier::rlimit(50)]
fn apply_sniffing(b: &mut InboundConfigBuilder, fields: &Vec<WizardField>)
    ensures
        final(b)@ == apply_fields_view(old(b)@, WizardStep::Sniffing, field_values(fields@)),
{
    let ghost vals = field_values(fields@);
    let ghost b0 = b@;
    let n = fields.len();
    assert(forall|i: int| 0 <= i < n ==> vals[i] == (#[trigger] fields@[i]).value@);
    if n > 0 {
        b.sniffing_enabled = str_eq(fields[0].value.as_str(), "true");
    }
    if n > 1 {
        b.sniffing_http = str_eq(fields[1].value.as_str(), "true");
    }
    if n > 2 {
        b.sniffing_tls = str_eq(fields[2].value.as_str(), "true");
    }
    if n > 3 {
        b.sniffing_quic = str_eq(fields[3].value.as_str(), "true");
    }
    if n > 4 {
        b.sniffing_route_only = str_eq(fields[4].value.as_str(), "true");
    }
    assert(b@ =~= apply_fields_view(b0, WizardStep::Sniffing, vals));
}

fn apply_security(b: &mut InboundConfigBuilder, fields: &Vec<WizardField>)
    ensures
        final(b)@ == apply_fields_view(old(b)@, WizardStep::Security, field_values(fields@)),
{
    let ghost vals = field_values(fields@);
    let ghost b0 = b@;
    let n = fields.len();
    assert(forall|i: int| 0 <= i < n ==> vals[i] == (#[trigger] fields@[i]).value@);
    if n > 0 {
        b.security = parse_security(fields[0].value.as_str());
    }
    if n > 1 {
        b.tls_server_name = Some(fields[1].value.clone());
    }
    if n > 2 {
        b.tls_cert_path = Some(fields[2].value.clone());
    }
    if n > 3 {
        b.tls_key_path = Some(fields[3].value.clone());
    }
    assert(b@ =~= apply_fields_view(b0, WizardStep::Security, vals));
}

fn apply_users(b: &mut InboundConfigBuilder, fields: &Vec<WizardField>)
    ensures
        final(b)@ == apply_fields_view(old(b)@, WizardStep::Users, field_values(fields@)),
{
    let ghost vals = field_values(fields@);
    let ghost b0 = b@;
    let n = fields.len();
    assert(forall|i: int| 0 <= i < n ==> vals[i] == (#[trigger] fields@[i]).value@);
    if n > 0 {
        b.uuid = Some(fields[0].value.clone());
        b.password = Some(fields[0].value.clone());
    }
    if n > 1 {
        b.email = Some(fields[1].value.clone());
    }
    assert(b@ =~= apply_fields_view(b0, WizardStep::Users, vals));
}

/// Writes the values of the current step's fields into the builder (see
/// `apply_fields_view`); nothing else changes.
pub fn apply_fields(state: &mut InboundWizardState)
    ensures
        final(state).builder@ == apply_fields_view(old(state).builder@, old(state).current_step, field_values(old(state).fields@)),
        final(state).current_step == old(state).current_step,
        final(state).fields == old(state).fields,
        final(state).focused == old(state).focused,
        final(state).edit_index == old(state).edit_index,
        final(state).selected_template == old(state).selected_template,
        final(state).json_preview == old(state).json_preview,
        final(state).auto_restart == old(state).auto_restart,
{
    match state.current_step {
        WizardStep::Basic => apply_basic(&mut state.builder, &state.fields),
        WizardStep::Transport => apply_transport(&mut state.builder, &state.fields),
        WizardStep::Sniffing => apply_sniffing(&mut state.builder, &state.fields),
        WizardStep::Security => apply_security(&mut state.builder, &state.fields),
        WizardStep::Users => apply_users(&mut state.builder, &state.fields),
        _ => {
            assert(state.builder@ =~= apply_fields_view(old(state).builder@, old(state).current_step, field_values(old(state).fields@)));
        },
    }
}

/// What is wrong with the builder's values for the current step, if
/// anything (see `validation_error`). Moving on does not check it.
pub fn validate(state: &InboundWizardState) -> (r: Option<String>)
    ensures
        match r {
            Some(m) => validation_error(state.current_step, state.builder@) == Some(m@),
            None => validation_error(state.current_step, state.builder@) is None,
        },
{
    let b = &state.builder;
    match state.current_step {
        WizardStep::Basic => {
            if b.port == 0 {
                return Some(lit("Port must be 1–65535"));
            }
            if b.listen.as_str().is_empty() {
                return Some(lit("Listen address is required"));
            }
        },
        WizardStep::Transport => {
            if b.transport == TransportNetwork::Ws {
                if let Some(p) = &b.ws_path {
                    if !starts_with(p.as_str(), "/") {
                        return Some(lit("WS Path must start with /"));
                    }
                }
            }
        },
        WizardStep::Users => {
            match b.protocol {
                InboundProtocol::VMess | InboundProtocol::VLess => {
                    if let Some(id) = &b.uuid {
                        if !uuid_parses(id.as_str()) {
                            return Some(lit("UUID format is invalid"));
                        }
                    }
                },
                InboundProtocol::Trojan | InboundProtocol::Shadowsocks => {
                    if let Some(p) = &b.password {
                        if p.as_str().is_empty() {
                            return Some(lit("Password is required"));
                        }
                    }
                },
                _ => {},
            }
        },
        _ => {},
    }
    None
}

/// The same field, closed.
pub open spec fn closed(f: WizardField) -> WizardField {
    WizardField { is_open: false, ..f }
}

/// Some field is open.
pub open spec fn any_open(fs: Seq<WizardField>) -> bool {
    exists|i: int| 0 <= i < fs.len() && (#[trigger] fs[i]).is_open
}

/// The wizard's state after `next_step` or `prev_step` moves to `step`
/// with builder values `b`: the step's fields shown afresh (the confirm step
/// keeps the old ones) and the first one focused.
pub open spec fn moved_to(old_fields: Seq<WizardField>, new_fields: Seq<WizardField>, step: WizardStep, b: BuilderView) -> bool {
    if step != WizardStep::Confirm {
        fields_match(new_fields, step_fields_spec(step, b))
    } else {
        new_fields == old_fields
    }
}

/// What `next_step` does: the fields are written into the builder and the
/// wizard moves to the next step, showing its fields with the first one
/// focused (the last step stays).
pub open spec fn next_step_done(pre: InboundWizardState, post: InboundWizardState) -> bool {
    advance_from(pre.builder@, pre, post)
}

/// What `next_step` does to a wizard `pre` whose builder holds `b0`.
pub open spec fn advance_from(b0: BuilderView, pre: InboundWizardState, post: InboundWizardState) -> bool {
    let b = apply_fields_view(b0, pre.current_step, field_values(pre.fields@));
    &&& post.builder@ == b
    &&& post.edit_index == pre.edit_index
    &&& post.selected_template == pre.selected_template
    &&& post.json_preview == pre.json_preview
    &&& post.auto_restart == pre.auto_restart
    &&& post.current_step == next_of(pre.current_step)
    &&& moved_to(pre.fields@, post.fields@, post.current_step, b)
    &&& post.focused == 0
}

/// What `prev_step` does: the fields are written into the builder and the
/// wizard moves to the previous step, showing its fields, the first one
/// focused.
pub open spec fn prev_step_done(pre: InboundWizardState, post: InboundWizardState) -> bool {
    let b = apply_fields_view(pre.builder@, pre.current_step, field_values(pre.fields@));
    &&& post.builder@ == b
    &&& post.current_step == prev_of(pre.current_step)
    &&& fields_match(post.fields@, step_fields_spec(post.current_step, b))
    &&& post.focused == 0
    &&& post.edit_index == pre.edit_index
    &&& post.selected_template == pre.selected_template
    &&& post.json_preview == pre.json_preview
    &&& post.auto_restart == pre.auto_restart
}

/// A wizard that edits inbound `index`, as `InboundWizardState::edit`
/// makes it: at the basic step, with the inbound's protocol, port, listen
/// address, tag, transport, security and sniffing in the builder, and the
/// rest of the builder as a default one with a fresh UUID.
pub open spec fn editing_wizard(r: InboundWizardState, index: usize, inbound: InboundConfig) -> bool {
    &&& r.current_step == WizardStep::Basic
    &&& r.edit_index == Some(index)
    &&& r.builder@.protocol == inbound.protocol
    &&& r.builder@.port == inbound.port
    &&& r.builder@.listen == inbound.listen@
    &&& r.builder@.tag == ot(inbound.tag)
    &&& r.builder@.transport == inbound.stream_settings.network
    &&& r.builder@.security == inbound.stream_settings.security
    &&& r.builder@.sniffing_enabled == inbound.sniffing.enabled
    &&& r.builder@.sniffing_http == texts(inbound.sniffing.dest_override@).contains("http"@)
    &&& r.builder@.sniffing_tls == texts(inbound.sniffing.dest_override@).contains("tls"@)
    &&& r.builder@.uuid matches Some(u) && fresh_uuid(u)
    &&& r.builder@ == (BuilderView {
        protocol: r.builder@.protocol,
        port: r.builder@.port,
        listen: r.builder@.listen,
        tag: r.builder@.tag,
        transport: r.builder@.transport,
        security: r.builder@.security,
        sniffing_enabled: r.builder@.sniffing_enabled,
        sniffing_http: r.builder@.sniffing_http,
        sniffing_tls: r.builder@.sniffing_tls,
        ..default_view(r.builder@.uuid->Some_0)
    })
    &&& r.json_preview@ == Seq::<char>::empty()
    &&& !r.auto_restart
    &&& r.selected_template == 0
    &&& fields_match(r.fields@, step_fields_spec(WizardStep::Basic, r.builder@))
    &&& r.focused == 0
}

fn contains_string(v: &Vec<String>, s: &str) -> (r: bool)
    ensures
        r == texts(v@).contains(s@),
{
    let mut i: usize = 0;
    while i < v.len()
        invariant
            i <= v@.len(),
            forall|j: int| 0 <= j < i ==> texts(v@)[j] != s@,
        decreases v@.len() - i,
    {
        if str_eq(v[i].as_str(), s) {
            assert(texts(v@)[i as int] == s@);
            return true;
        }
        i += 1;
    }
    false
}

impl InboundWizardState {
    /// A new wizard at the template step, with a default builder, the
    /// template buttons as fields, the first one focused and no error.
    pub fn new() -> (r: Self)
        ensures
            r.current_step == WizardStep::Template,
            r.edit_index is None,
            fields_match(r.fields@, template_fields_spec()),
            r.focused == 0,
            !r.auto_restart,
            r.json_preview@ == Seq::<char>::empty(),
            r.selected_template == 0,
            is_default_builder(r.builder@),
    {
        InboundWizardState {
            current_step: WizardStep::Template,
            edit_index: None,
            builder: InboundConfigBuilder::default(),
            fields: Self::build_template_fields(),
            focused: 0,
            auto_restart: false,
            json_preview: String::new(),
            selected_template: 0,
        }
    }

    /// A wizard that edits inbound `index`: at the basic step, with the
    /// inbound's protocol, port, listen address, tag, transport, security
    /// and sniffing in the builder; the rest of the builder is the default.
    pub fn edit(index: usize, inbound: &InboundConfig) -> (r: Self)
        ensures
            editing_wizard(r, index, *inbound),
    {
        let mut wiz = Self::new();
        wiz.edit_index = Some(index);
        wiz.current_step = WizardStep::Basic;
        let http = contains_string(&inbound.sniffing.dest_override, "http");
        let tls = contains_string(&inbound.sniffing.dest_override, "tls");
        wiz.builder.protocol = inbound.protocol;
        wiz.builder.port = inbound.port;
        wiz.builder.listen = inbound.listen.clone();
        wiz.builder.tag = copy_opt(&inbound.tag);
        wiz.builder.transport = inbound.stream_settings.network;
        wiz.builder.security = inbound.stream_settings.security;
        wiz.builder.sniffing_enabled = inbound.sniffing.enabled;
        wiz.builder.sniffing_http = http;
        wiz.builder.sniffing_tls = tls;
        wiz.fields = Self::build_step_fields(WizardStep::Basic, &wiz.builder);
        wiz
    }

    /// Closes every open dropdown; says whether one was open.
    pub fn close_dropdowns(&mut self) -> (r: bool)
        ensures
            r == any_open(old(self).fields@),
            final(self).fields@.len() == old(self).fields@.len(),
            forall|i: int| 0 <= i < old(self).fields@.len() ==> #[trigger] final(self).fields@[i] == closed(old(self).fields@[i]),
            final(self).current_step == old(self).current_step,
            final(self).builder == old(self).builder,
            final(self).focused == old(self).focused,
            final(self).edit_index == old(self).edit_index,
            final(self).selected_template == old(self).selected_template,
            final(self).json_preview == old(self).json_preview,
            final(self).auto_restart == old(self).auto_restart,
    {
        let ghost orig = self.fields@;
        let mut rest: Vec<WizardField> = Vec::new();
        std::mem::swap(&mut rest, &mut self.fields);
        let mut out: Vec<WizardField> = Vec::new();
        let mut any = false;
        let n = rest.len();
        let mut i: usize = 0;
        while i < n
            invariant
                n == orig.len(),
                i <= n,
                rest@ == orig.subrange(i as int, n as int),
                out@.len() == i,
                forall|j: int| 0 <= j < i ==> #[trigger] out@[j] == closed(orig[j]),
                any == exists|j: int| 0 <= j < i && (#[trigger] orig[j]).is_open,
            decreases n - i,
        {
            let mut f = rest.remove(0);
            assert(f == orig[i as int]);
            assert(rest@ =~= orig.subrange(i + 1, n as int));
            if f.is_open {
                any = true;
            }
            f.is_open = false;
            out.push(f);
            i += 1;
        }
        self.fields = out;
        any
    }

    /// Writes the current fields into the builder and moves to the next
    /// step, showing its fields with the first one focused; the values are
    /// not checked. Leaving the users step does not write the JSON preview:
    /// the caller renders it.
    pub fn next_step(&mut self)
        ensures
            next_step_done(*old(self), *final(self)),
    {
        apply_fields(self);
        self.current_step = match self.current_step {
            WizardStep::Template => WizardStep::Basic,
            WizardStep::Basic => WizardStep::Transport,
            WizardStep::Transport => WizardStep::Sniffing,
            WizardStep::Sniffing => WizardStep::Security,
            WizardStep::Security => WizardStep::Users,
            WizardStep::Users => WizardStep::Confirm,
            WizardStep::Confirm => WizardStep::Confirm,
        };
        if self.current_step != WizardStep::Confirm {
            self.fields = Self::build_step_fields(self.current_step, &self.builder);
        }
        self.focused = 0;
    }

    /// Writes the current fields into the builder and moves to the previous
    /// step, showing its fields with the first one focused.
    pub fn prev_step(&mut self)
        ensures
            prev_step_done(*old(self), *final(self)),
    {
        apply_fields(self);
        self.current_step = match self.current_step {
            WizardStep::Transport => WizardStep::Basic,
            WizardStep::Sniffing => WizardStep::Transport,
            WizardStep::Security => WizardStep::Sniffing,
            WizardStep::Users => WizardStep::Security,
            WizardStep::Confirm => WizardStep::Users,
            WizardStep::Basic => WizardStep::Template,
            WizardStep::Template => WizardStep::Template,
        };
        if self.current_step != WizardStep::Confirm {
            self.fields = Self::build_step_fields(self.current_step, &self.builder);
        }
        self.focused = 0;
    }
}

/// Every choice of the Network dropdown (TCP, WebSocket, gRPC) reads back
/// as the transport whose name it shows, and so does HTTPUpgrade.
pub proof fn lemma_transport_round_trip(t: TransportNetwork)
    requires
        t == TransportNetwork::Tcp || t == TransportNetwork::Ws || t == TransportNetwork::Grpc
            || t == TransportNetwork::HttpUpgrade,
    ensures
        parse_transport_spec(t.display()) == t,
{
    reveal_strlit("TCP");
    reveal_strlit("WebSocket");
    reveal_strlit("ws");
    reveal_strlit("gRPC");
    reveal_strlit("grpc");
    reveal_strlit("HTTPUpgrade");
    let (tcp, wsk, ws, g, gl, hu) = ("TCP"@, "WebSocket"@, "ws"@, "gRPC"@, "grpc"@, "HTTPUpgrade"@);
    assert(wsk != tcp && g != tcp && g != wsk && g != ws) by {
        assert(wsk.len() != tcp.len() && g.len() != tcp.len() && g.len() != wsk.len() && g.len() != ws.len());
    }
    assert(hu != tcp && hu != wsk && hu != ws && hu != g && hu != gl) by {
        assert(hu.len() != tcp.len() && hu.len() != wsk.len() && hu.len() != ws.len() && hu.len() != g.len()
            && hu.len() != gl.len());
    }
}

/// Every choice of the Security dropdown (none, TLS, Reality) reads back as
/// the security whose name it shows.
pub proof fn lemma_security_round_trip(t: StreamSecurity)
    ensures
        parse_security_spec(t.display()) == t,
{
    reveal_strlit("none");
    reveal_strlit("TLS");
    reveal_strlit("tls");
    reveal_strlit("Reality");
    reveal_strlit("reality");
    assert("none"@ != "TLS"@ && "none"@ != "tls"@ && "none"@ != "Reality"@ && "none"@ != "reality"@) by {
        assert("none"@.len() != "TLS"@.len() && "none"@.len() != "Reality"@.len());
        assert("none"@[0] != "tls"@[0]);
    }
    assert("Reality"@ != "TLS"@ && "Reality"@ != "tls"@) by {
        assert("Reality"@.len() != "TLS"@.len());
    }
}

/// On the transport step, reading back the fields just built for a builder
/// keeps its transport, whichever the Network dropdown offers.
pub proof fn lemma_transport_reads_back(b: BuilderView, fs: Seq<WizardField>)
    requires
        b.transport == TransportNetwork::Tcp || b.transport == TransportNetwork::Ws
            || b.transport == TransportNetwork::Grpc,
        fields_match(fs, step_fields_spec(WizardStep::Transport, b)),
    ensures
        apply_fields_view(b, WizardStep::Transport, field_values(fs)).transport == b.transport,
{
    let ss = step_fields_spec(WizardStep::Transport, b);
    assert(field_matches(fs[0], ss[0]));
    assert(field_values(fs)[0] == b.transport.display());
    lemma_transport_round_trip(b.transport);
}

/// On the basic and sniffing steps, reading back the fields just built for
/// a builder leaves the builder as it was (on the basic step, an empty tag
/// reads back as none, so the builder's tag is not the empty text).
pub proof fn lemma_fresh_fields_read_back(b: BuilderView, step: WizardStep, fs: Seq<WizardField>)
    requires
        step == WizardStep::Basic || step == WizardStep::Sniffing,
        fields_match(fs, step_fields_spec(step, b)),
        step == WizardStep::Basic ==> b.tag != Some(Seq::<char>::empty()),
    ensures
        apply_fields_view(b, step, field_values(fs)) == b,
{
    let vals = field_values(fs);
    let ss = step_fields_spec(step, b);
    assert forall|i: int| 0 <= i < fs.len() implies #[trigger] vals[i] == ss[i].value by {
        assert(field_matches(fs[i], ss[i]));
    }
    reveal_strlit("true");
    reveal_strlit("false");
    assert("false"@ != "true"@) by {
        assert("false"@.len() != "true"@.len());
    }
    if step == WizardStep::Basic {
        lemma_protocol_round_trip(b.protocol);
        lemma_decimal_reads_back(b.port as nat);
        let d = decimal(b.port as nat);
        assert(without_plus(d) == d);
        assert(parse_unsigned(d, 65535) == Some(b.port as nat));
        assert(vals.len() == 4);
        assert(vals[0] == b.protocol.display());
        assert(vals[1] == d);
        assert(port_from_text(vals[1]) == b.port);
        assert(vals[2] == b.listen);
        assert(vals[3] == or_empty(b.tag));
        let t: Option<Seq<char>> = if vals[3].len() == 0 { None } else { Some(vals[3]) };
        if b.tag is Some && b.tag->Some_0.len() == 0 {
            assert(b.tag->Some_0 =~= Seq::<char>::empty());
        }
        assert(t == b.tag);
        assert(apply_fields_view(b, step, vals) =~= b);
    } else {
        assert(apply_fields_view(b, step, vals) =~= b);
    }
}

/// Moving a step on and back lands on the step one started from (the last
/// step cannot move on); moving back and on likewise (the first step cannot
/// move back).
pub proof fn lemma_step_round_trip(s: WizardStep)
    ensures
        s != WizardStep::Confirm ==> prev_of(next_of(s)) == s,
        s != WizardStep::Template ==> next_of(prev_of(s)) == s,
{
}

/// When the wizard moves on and then back, it is on the step it started
/// from.
pub proof fn lemma_next_then_prev(w0: InboundWizardState, w1: InboundWizardState, w2: InboundWizardState)
    requires
        w0.current_step != WizardStep::Confirm,
        next_step_done(w0, w1),
        prev_step_done(w1, w2),
    ensures
        w2.current_step == w0.current_step,
        w2.edit_index == w0.edit_index,
{
}

/// The protocol dropdown reads back the protocol whose name it shows.
pub proof fn lemma_protocol_round_trip(p: InboundProtocol)
    ensures
        parse_protocol_spec(p.display()) == p,
{
    reveal_strlit("VMess");
    reveal_strlit("VLESS");
    reveal_strlit("Trojan");
    reveal_strlit("Shadowsocks");
    reveal_strlit("HTTP");
    reveal_strlit("SOCKS");
    let (a, b, c, d, e, f) = ("VMess"@, "VLESS"@, "Trojan"@, "Shadowsocks"@, "HTTP"@, "SOCKS"@);
    assert(a != b && a != c && a != d && a != e && a != f) by {
        assert(a[1] != b[1] && a[0] != c[0] && a[0] != d[0] && a[0] != e[0] && a[0] != f[0]);
    }
    assert(b != c && b != d && b != e && b != f) by {
        assert(b[0] != c[0] && b[0] != d[0] && b[0] != e[0] && b[0] != f[0]);
    }
    assert(c != d && c != e && c != f) by {
        assert(c[0] != d[0] && c[0] != e[0] && c[0] != f[0]);
    }
    assert(d != e && d != f && e != f) by {
        assert(d.len() != e.len() && d.len() != f.len() && e[0] != f[0]);
    }
}

} // verus!
