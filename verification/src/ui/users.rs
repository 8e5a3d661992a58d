use vstd::prelude::*;

use crate::codec::{fresh_uuid, new_uuid_v4};
use crate::model::config::{InboundConfig, InboundProtocol};
use crate::model::protocol::{
    HttpAccount, HttpSettings, ProtocolSettings, ShadowsocksSettings, SocksAccount, SocksAuth,
    SocksSettings, TrojanClient, TrojanSettings, VLessClient, VLessSettings, VMessClient,
    VMessSettings,
};
use crate::services::subscription::{lemma_share_link_carries_the_user, share_link, urlencode};
use crate::text::{decimal, is_prefix, lit, str_eq, texts};
use crate::ui::app::UserData;
use crate::ui::builder::{BuilderView, or_empty, ot};
use crate::ui::wizard::{WizardField, WizardStep, field_matches, field_values, fields_match, step_fields_spec};
use crate::ui::screens::settings_page::{optional_of, optional_text};

verus! {

/// Everything of an inbound but its protocol settings is the same.
pub open spec fn same_endpoint(a: InboundConfig, b: InboundConfig) -> bool {
    &&& b.tag == a.tag
    &&& b.port == a.port
    &&& b.listen == a.listen
    &&& b.protocol == a.protocol
    &&& b.stream_settings == a.stream_settings
    &&& b.sniffing == a.sniffing
}

/// `s` with one more element at the end, which is `x`.
pub open spec fn appended<T>(s: Seq<T>, s2: Seq<T>, x: T) -> bool {
    s2 == s.push(x)
}

/// A VMess client made for `data`: its UUID (a fresh one when `data` has
/// none), negotiated security, its email.
pub open spec fn vmess_client_for(c: VMessClient, data: UserData) -> bool {
    &&& (data.uuid matches Some(u) ==> c.id@ == u@)
    &&& (data.uuid is None ==> fresh_uuid(c.id@))
    &&& c.security@ == "auto"@
    &&& c.email == data.email
    &&& c.level is None
}

/// A VLESS client made for `data`: its UUID (a fresh one when `data` has
/// none), flow and email.
pub open spec fn vless_client_for(c: VLessClient, data: UserData) -> bool {
    &&& (data.uuid matches Some(u) ==> c.id@ == u@)
    &&& (data.uuid is None ==> fresh_uuid(c.id@))
    &&& c.flow == data.flow
    &&& c.email == data.email
    &&& c.level is None
}

/// A Trojan client made for `data`: its password (empty when it has none)
/// and email.
pub open spec fn trojan_client_for(c: TrojanClient, data: UserData) -> bool {
    &&& c.password@ == or_empty(ot(data.password))
    &&& c.email == data.email
    &&& c.level is None
}

/// What adding the user `data` does: a VMess, VLESS or Trojan inbound gets
/// one more client at the end; other inbounds are left alone.
pub open spec fn user_added(pre: InboundConfig, post: InboundConfig, data: UserData) -> bool {
    &&& same_endpoint(pre, post)
    &&& match pre.settings {
        ProtocolSettings::VMess(s) => post.settings matches ProtocolSettings::VMess(s2)
            && s2.clients@.len() == s.clients@.len() + 1
            && appended(s.clients@, s2.clients@, s2.clients@.last())
            && vmess_client_for(s2.clients@.last(), data),
        ProtocolSettings::VLess(s) => post.settings matches ProtocolSettings::VLess(s2)
            && s2.decryption == s.decryption
            && s2.clients@.len() == s.clients@.len() + 1
            && appended(s.clients@, s2.clients@, s2.clients@.last())
            && vless_client_for(s2.clients@.last(), data),
        ProtocolSettings::Trojan(s) => post.settings matches ProtocolSettings::Trojan(s2)
            && s2.fallbacks == s.fallbacks
            && s2.clients@.len() == s.clients@.len() + 1
            && appended(s.clients@, s2.clients@, s2.clients@.last())
            && trojan_client_for(s2.clients@.last(), data),
        _ => post.settings == pre.settings,
    }
}

/// What deleting user `i` does: a VMess, VLESS or Trojan inbound loses its
/// client `i` when there is one; anything else is left alone.
pub open spec fn user_deleted(pre: InboundConfig, post: InboundConfig, i: nat) -> bool {
    &&& same_endpoint(pre, post)
    &&& match pre.settings {
        ProtocolSettings::VMess(s) => post.settings matches ProtocolSettings::VMess(s2)
            && s2.clients@ == (if i < s.clients@.len() { s.clients@.remove(i as int) } else { s.clients@ }),
        ProtocolSettings::VLess(s) => post.settings matches ProtocolSettings::VLess(s2)
            && s2.decryption == s.decryption
            && s2.clients@ == (if i < s.clients@.len() { s.clients@.remove(i as int) } else { s.clients@ }),
        ProtocolSettings::Trojan(s) => post.settings matches ProtocolSettings::Trojan(s2)
            && s2.fallbacks == s.fallbacks
            && s2.clients@ == (if i < s.clients@.len() { s.clients@.remove(i as int) } else { s.clients@ }),
        _ => post.settings == pre.settings,
    }
}

/// Adds a user to an inbound (see `user_added`).
pub fn add_user(inbound: &mut InboundConfig, data: UserData)
    ensures
        user_added(*old(inbound), *final(inbound), data),
{
    let ghost d = data;
    match &mut inbound.settings {
        ProtocolSettings::VMess(s) => {
            let id = match data.uuid {
                Some(u) => u,
                None => new_uuid_v4(),
            };
            s.clients.push(VMessClient { id, security: lit("auto"), email: data.email, level: None });
        },
        ProtocolSettings::VLess(s) => {
            let id = match data.uuid {
                Some(u) => u,
                None => new_uuid_v4(),
            };
            s.clients.push(VLessClient { id, flow: data.flow, email: data.email, level: None });
        },
        ProtocolSettings::Trojan(s) => {
            let password = match data.password {
                Some(p) => p,
                None => String::new(),
            };
            s.clients.push(TrojanClient { password, email: data.email, level: None });
        },
        _ => {},
    }
}

/// Deletes user `i` of an inbound (see `user_deleted`).
pub fn delete_user(inbound: &mut InboundConfig, i: usize)
    ensures
        user_deleted(*old(inbound), *final(inbound), i as nat),
{
    match &mut inbound.settings {
        ProtocolSettings::VMess(s) => {
            if i < s.clients.len() {
                s.clients.remove(i);
            }
        },
        ProtocolSettings::VLess(s) => {
            if i < s.clients.len() {
                s.clients.remove(i);
            }
        },
        ProtocolSettings::Trojan(s) => {
            if i < s.clients.len() {
                s.clients.remove(i);
            }
        },
        _ => {},
    }
}

/// `b` is `a` with the element at `i` taken out: the elements before `i`
/// stay where they are and the elements after it move up one place.
pub open spec fn taken_out<T>(a: Seq<T>, b: Seq<T>, i: int) -> bool {
    &&& b.len() + 1 == a.len()
    &&& forall|j: int| 0 <= j < i ==> #[trigger] b[j] == a[j]
    &&& forall|j: int| i <= j < b.len() ==> #[trigger] b[j] == a[j + 1]
}

/// Deleting user `i` of a VMess, VLESS or Trojan inbound that has one takes
/// out exactly that user; when the users' ids are distinct, the deleted
/// id is gone.
pub proof fn lemma_delete_takes_out_user(pre: InboundConfig, post: InboundConfig, i: nat)
    requires
        user_deleted(pre, post, i),
    ensures
        match pre.settings {
            ProtocolSettings::VMess(s) => i < s.clients@.len() ==> {
                let c2 = post.settings->VMess_0.clients@;
                &&& post.settings is VMess
                &&& taken_out(s.clients@, c2, i as int)
                &&& (forall|a: int, b: int| 0 <= a < b < s.clients@.len() ==> #[trigger] s.clients@[a].id@ != #[trigger] s.clients@[b].id@)
                    ==> forall|j: int| 0 <= j < c2.len() ==> #[trigger] c2[j].id@ != s.clients@[i as int].id@
            },
            ProtocolSettings::VLess(s) => i < s.clients@.len() ==> {
                let c2 = post.settings->VLess_0.clients@;
                &&& post.settings is VLess
                &&& taken_out(s.clients@, c2, i as int)
                &&& (forall|a: int, b: int| 0 <= a < b < s.clients@.len() ==> #[trigger] s.clients@[a].id@ != #[trigger] s.clients@[b].id@)
                    ==> forall|j: int| 0 <= j < c2.len() ==> #[trigger] c2[j].id@ != s.clients@[i as int].id@
            },
            ProtocolSettings::Trojan(s) => i < s.clients@.len() ==> {
                &&& post.settings is Trojan
                &&& taken_out(s.clients@, post.settings->Trojan_0.clients@, i as int)
            },
            _ => true,
        },
{
    match pre.settings {
        ProtocolSettings::VMess(s) => if i < s.clients@.len() {
            let s2 = post.settings->VMess_0;
            assert forall|j: int| 0 <= j < s2.clients@.len() implies #[trigger] s2.clients@[j] == if j < i { s.clients@[j] } else { s.clients@[j + 1] } by {}
        },
        ProtocolSettings::VLess(s) => if i < s.clients@.len() {
            let s2 = post.settings->VLess_0;
            assert forall|j: int| 0 <= j < s2.clients@.len() implies #[trigger] s2.clients@[j] == if j < i { s.clients@[j] } else { s.clients@[j + 1] } by {}
        },
        _ => {},
    }
}

/// The Trojan user form shows a Password field and then an Email field;
/// saving a Trojan user from such a form writes each value where its label
/// says: the value of the field labelled `Password` becomes the client's
/// password and the value of the field labelled `Email` its e-mail (none
/// when empty), for a new user and for user `i` edited in place.
pub proof fn lemma_trojan_form_fields_land_by_label(
    pre: InboundConfig,
    post: InboundConfig,
    i: nat,
    b: BuilderView,
    fs: Seq<WizardField>,
    is_new: bool,
)
    requires
        pre.settings is Trojan,
        b.protocol == InboundProtocol::Trojan,
        fields_match(fs, step_fields_spec(WizardStep::Users, b)),
        user_saved(pre, post, i, "Trojan"@, field_values(fs), is_new),
        !is_new ==> i < pre.settings->Trojan_0.clients@.len(),
    ensures
        post.settings is Trojan,
        ({
            let c = if is_new { post.settings->Trojan_0.clients@.last() } else { post.settings->Trojan_0.clients@[i as int] };
            forall|k: int| 0 <= k < fs.len() ==> {
                &&& (#[trigger] fs[k]).label@ == "Password"@ ==> c.password@ == fs[k].value@
                &&& fs[k].label@ == "Email"@ ==> ot(c.email) == optional_text(fs[k].value@)
            }
        }),
{
    reveal_strlit("Password");
    reveal_strlit("Email");
    let ss = step_fields_spec(WizardStep::Users, b);
    assert(field_matches(fs[0], ss[0]));
    assert(field_matches(fs[1], ss[1]));
    assert("Password"@ != "Email"@) by {
        assert("Password"@.len() != "Email"@.len());
    }
    assert(field_values(fs)[0] == fs[0].value@);
    assert(field_values(fs)[1] == fs[1].value@);
}

/// The HTTP user form shows a Username field and then a Password field;
/// saving an HTTP account from such a form writes the value of the field
/// labelled `Username` as the account's user name and the value of the
/// field labelled `Password` as its password, for a new account and for
/// account `i` edited in place.
pub proof fn lemma_http_form_fields_land_by_label(
    pre: InboundConfig,
    post: InboundConfig,
    i: nat,
    b: BuilderView,
    fs: Seq<WizardField>,
    is_new: bool,
)
    requires
        pre.settings is Http,
        b.protocol == InboundProtocol::Http,
        fields_match(fs, step_fields_spec(WizardStep::Users, b)),
        user_saved(pre, post, i, "HTTP"@, field_values(fs), is_new),
        !is_new ==> i < pre.settings->Http_0.accounts@.len(),
    ensures
        post.settings is Http,
        ({
            let a = if is_new { post.settings->Http_0.accounts@.last() } else { post.settings->Http_0.accounts@[i as int] };
            forall|k: int| 0 <= k < fs.len() ==> {
                &&& (#[trigger] fs[k]).label@ == "Username"@ ==> a.user@ == fs[k].value@
                &&& fs[k].label@ == "Password"@ ==> a.pass@ == fs[k].value@
            }
        }),
{
    reveal_strlit("Username");
    reveal_strlit("Password");
    let ss = step_fields_spec(WizardStep::Users, b);
    assert(field_matches(fs[0], ss[0]));
    assert(field_matches(fs[1], ss[1]));
    assert("Username"@ != "Password"@) by {
        assert("Username"@[0] != "Password"@[0]);
    }
    assert(field_values(fs)[0] == fs[0].value@);
    assert(field_values(fs)[1] == fs[1].value@);
}

/// The Shadowsocks user form shows a Password field and then a Method
/// dropdown; saving from such a form writes the value of the field labelled
/// `Password` as the password and the value of the field labelled `Method`
/// as the cipher method.
pub proof fn lemma_shadowsocks_form_fields_land_by_label(
    pre: InboundConfig,
    post: InboundConfig,
    i: nat,
    b: BuilderView,
    fs: Seq<WizardField>,
    is_new: bool,
)
    requires
        pre.settings is Shadowsocks,
        b.protocol == InboundProtocol::Shadowsocks,
        fields_match(fs, step_fields_spec(WizardStep::Users, b)),
        user_saved(pre, post, i, "Shadowsocks"@, field_values(fs), is_new),
    ensures
        post.settings is Shadowsocks,
        forall|k: int| 0 <= k < fs.len() ==> {
            &&& (#[trigger] fs[k]).label@ == "Password"@ ==> post.settings->Shadowsocks_0.password@ == fs[k].value@
            &&& fs[k].label@ == "Method"@ ==> post.settings->Shadowsocks_0.method@ == fs[k].value@
        },
{
    reveal_strlit("Method");
    reveal_strlit("Password");
    let ss = step_fields_spec(WizardStep::Users, b);
    assert(field_matches(fs[0], ss[0]));
    assert(field_matches(fs[1], ss[1]));
    assert("Method"@ != "Password"@) by {
        assert("Method"@.len() != "Password"@.len());
    }
    assert(field_values(fs)[0] == fs[0].value@);
    assert(field_values(fs)[1] == fs[1].value@);
}

/// A user added with a UUID to a VLESS inbound gets a share link of its
/// own: the link for the new last user starts with `vless://`, that UUID,
/// `@`, the server, `:` and the inbound's port; a user added with a
/// password to a Trojan inbound likewise gets a link that starts with
/// `trojan://`, that password escaped, `@`, the server, `:` and the port.
pub proof fn lemma_added_user_gets_a_link(pre: InboundConfig, post: InboundConfig, data: UserData, server: Seq<char>)
    requires
        user_added(pre, post, data),
    ensures
        (pre.settings is VLess && data.uuid is Some) ==> (share_link(post, server, pre.settings->VLess_0.clients@.len() as int) matches Some(l)
            && is_prefix("vless://"@ + data.uuid->Some_0@ + "@"@ + server + ":"@ + decimal(pre.port as nat) + "?"@, l)),
        (pre.settings is Trojan && data.password is Some) ==> (share_link(post, server, pre.settings->Trojan_0.clients@.len() as int) matches Some(l)
            && is_prefix("trojan://"@ + urlencode(data.password->Some_0@) + "@"@ + server + ":"@ + decimal(pre.port as nat) + "?"@, l)),
{
    match pre.settings {
        ProtocolSettings::VLess(s) => {
            lemma_share_link_carries_the_user(post, server, s.clients@.len() as int);
        },
        ProtocolSettings::Trojan(s) => {
            lemma_share_link_carries_the_user(post, server, s.clients@.len() as int);
        },
        _ => {},
    }
}

/// Deleting the user that was just added brings back the users the inbound
/// had.
pub proof fn lemma_delete_after_add(a: InboundConfig, b: InboundConfig, c: InboundConfig, data: UserData)
    requires
        user_added(a, b, data),
        user_deleted(b, c, a.users()),
    ensures
        same_endpoint(a, c),
        match a.settings {
            ProtocolSettings::VMess(s) => c.settings matches ProtocolSettings::VMess(s3) && s3.clients@ == s.clients@,
            ProtocolSettings::VLess(s) => c.settings matches ProtocolSettings::VLess(s3) && s3.clients@ == s.clients@
                && s3.decryption == s.decryption,
            ProtocolSettings::Trojan(s) => c.settings matches ProtocolSettings::Trojan(s3) && s3.clients@ == s.clients@
                && s3.fallbacks == s.fallbacks,
            _ => c.settings == a.settings,
        },
{
    match a.settings {
        ProtocolSettings::VMess(s) => {
            let s2 = b.settings->VMess_0;
            assert(s2.clients@.remove(s.clients@.len() as int) =~= s.clients@);
        },
        ProtocolSettings::VLess(s) => {
            let s2 = b.settings->VLess_0;
            assert(s2.clients@.remove(s.clients@.len() as int) =~= s.clients@);
        },
        ProtocolSettings::Trojan(s) => {
            let s2 = b.settings->Trojan_0;
            assert(s2.clients@.remove(s.clients@.len() as int) =~= s.clients@);
        },
        _ => {},
    }
}

/// The `i`-th value typed in the user form, if there is one.
pub open spec fn typed(vs: Seq<Seq<char>>, i: int) -> Option<Seq<char>> {
    if 0 <= i < vs.len() { Some(vs[i]) } else { None }
}

/// The `i`-th value typed, or `d` when there is none.
pub open spec fn typed_or(vs: Seq<Seq<char>>, i: int, d: Seq<char>) -> Seq<char> {
    match typed(vs, i) {
        Some(v) => v,
        None => d,
    }
}

/// A text kept, or replaced by the `i`-th value typed.
pub open spec fn kept_or_typed(old: Seq<char>, vs: Seq<Seq<char>>, i: int) -> Seq<char> {
    typed_or(vs, i, old)
}

/// An optional text kept, or replaced by the `i`-th value typed (nothing
/// when that value is empty).
pub open spec fn opt_kept_or_typed(old: Option<Seq<char>>, vs: Seq<Seq<char>>, i: int) -> Option<Seq<char>> {
    match typed(vs, i) {
        Some(v) => optional_text(v),
        None => old,
    }
}

/// `s2` is `s` with element `i` replaced.
pub open spec fn replaced_at<T>(s: Seq<T>, s2: Seq<T>, i: int) -> bool {
    s2.len() == s.len() && s2 == s.update(i, s2[i])
}

/// The VMess clients after the user form (see `user_saved`).
pub open spec fn vmess_saved(s: VMessSettings, s2: VMessSettings, i: nat, vs: Seq<Seq<char>>, is_new: bool) -> bool {
    if is_new {
        let c = s2.clients@.last();
        &&& s2.clients@.len() == s.clients@.len() + 1
        &&& appended(s.clients@, s2.clients@, c)
        &&& c.id@ == typed_or(vs, 0, Seq::empty())
        &&& c.security@ == typed_or(vs, 1, "auto"@)
        &&& ot(c.email) == optional_text(typed_or(vs, 2, Seq::empty()))
        &&& c.level is None
    } else if i < s.clients@.len() {
        let (c, c2) = (s.clients@[i as int], s2.clients@[i as int]);
        &&& replaced_at(s.clients@, s2.clients@, i as int)
        &&& c2.id@ == kept_or_typed(c.id@, vs, 0)
        &&& c2.security@ == kept_or_typed(c.security@, vs, 1)
        &&& ot(c2.email) == opt_kept_or_typed(ot(c.email), vs, 2)
        &&& c2.level == c.level
    } else {
        s2.clients@ == s.clients@
    }
}

/// The VLESS clients after the user form (see `user_saved`).
pub open spec fn vless_saved(s: VLessSettings, s2: VLessSettings, i: nat, vs: Seq<Seq<char>>, is_new: bool) -> bool {
    &&& s2.decryption == s.decryption
    &&& if is_new {
        let c = s2.clients@.last();
        &&& s2.clients@.len() == s.clients@.len() + 1
        &&& appended(s.clients@, s2.clients@, c)
        &&& c.id@ == typed_or(vs, 0, Seq::empty())
        &&& ot(c.flow) == optional_text(typed_or(vs, 1, Seq::empty()))
        &&& ot(c.email) == optional_text(typed_or(vs, 2, Seq::empty()))
        &&& c.level is None
    } else if i < s.clients@.len() {
        let (c, c2) = (s.clients@[i as int], s2.clients@[i as int]);
        &&& replaced_at(s.clients@, s2.clients@, i as int)
        &&& c2.id@ == kept_or_typed(c.id@, vs, 0)
        &&& ot(c2.flow) == opt_kept_or_typed(ot(c.flow), vs, 1)
        &&& ot(c2.email) == opt_kept_or_typed(ot(c.email), vs, 2)
        &&& c2.level == c.level
    } else {
        s2.clients@ == s.clients@
    }
}

/// The Trojan clients after the user form (see `user_saved`).
pub open spec fn trojan_saved(s: TrojanSettings, s2: TrojanSettings, i: nat, vs: Seq<Seq<char>>, is_new: bool) -> bool {
    &&& s2.fallbacks == s.fallbacks
    &&& if is_new {
        let c = s2.clients@.last();
        &&& s2.clients@.len() == s.clients@.len() + 1
        &&& appended(s.clients@, s2.clients@, c)
        &&& c.password@ == typed_or(vs, 0, Seq::empty())
        &&& ot(c.email) == optional_text(typed_or(vs, 1, Seq::empty()))
        &&& c.level is None
    } else if i < s.clients@.len() {
        let (c, c2) = (s.clients@[i as int], s2.clients@[i as int]);
        &&& replaced_at(s.clients@, s2.clients@, i as int)
        &&& c2.password@ == kept_or_typed(c.password@, vs, 0)
        &&& ot(c2.email) == opt_kept_or_typed(ot(c.email), vs, 1)
        &&& c2.level == c.level
    } else {
        s2.clients@ == s.clients@
    }
}

/// The Shadowsocks user after the user form (see `user_saved`).
pub open spec fn shadowsocks_saved(s: ShadowsocksSettings, s2: ShadowsocksSettings, vs: Seq<Seq<char>>) -> bool {
    &&& s2.password@ == kept_or_typed(s.password@, vs, 0)
    &&& s2.method@ == kept_or_typed(s.method@, vs, 1)
    &&& ot(s2.email) == opt_kept_or_typed(ot(s.email), vs, 2)
    &&& s2.network == s.network
    &&& s2.level == s.level
}

/// User name and password accounts after the user form (see `user_saved`).
pub open spec fn accounts_saved<A>(
    a: Seq<A>,
    a2: Seq<A>,
    user: spec_fn(A) -> Seq<char>,
    pass: spec_fn(A) -> Seq<char>,
    i: nat,
    vs: Seq<Seq<char>>,
    is_new: bool,
) -> bool {
    if is_new {
        let x = a2.last();
        &&& a2.len() == a.len() + 1
        &&& appended(a, a2, x)
        &&& user(x) == typed_or(vs, 0, Seq::empty())
        &&& pass(x) == typed_or(vs, 1, Seq::empty())
    } else if i < a.len() {
        &&& replaced_at(a, a2, i as int)
        &&& user(a2[i as int]) == kept_or_typed(user(a[i as int]), vs, 0)
        &&& pass(a2[i as int]) == kept_or_typed(pass(a[i as int]), vs, 1)
    } else {
        a2 == a
    }
}

/// The HTTP accounts after the user form (see `user_saved`).
pub open spec fn http_saved(s: HttpSettings, s2: HttpSettings, i: nat, vs: Seq<Seq<char>>, is_new: bool) -> bool {
    &&& s2.timeout == s.timeout
    &&& s2.allow_transparent == s.allow_transparent
    &&& accounts_saved(s.accounts@, s2.accounts@, |x: HttpAccount| x.user@, |x: HttpAccount| x.pass@, i, vs, is_new)
}

/// The SOCKS accounts after the user form (see `user_saved`); a SOCKS
/// inbound without authentication has none to change.
pub open spec fn socks_saved(s: SocksSettings, s2: SocksSettings, i: nat, vs: Seq<Seq<char>>, is_new: bool) -> bool {
    &&& s2.udp == s.udp
    &&& s2.ip == s.ip
    &&& s2.user_level == s.user_level
    &&& match s.auth {
        SocksAuth::Password { accounts } => s2.auth matches SocksAuth::Password { accounts: accounts2 }
            && accounts_saved(accounts@, accounts2@, |x: SocksAccount| x.user@, |x: SocksAccount| x.pass@, i, vs, is_new),
        SocksAuth::NoAuth {} => s2.auth == s.auth,
    }
}

/// How the user form's values `vs` change the users of an inbound whose
/// protocol is `proto`: a new user goes at the end, an edited user `i`
/// takes the typed values in the form's order (id or password first);
/// empty emails and flows are left out. The values are: VMess id, security,
/// email; VLESS id, flow, email; Trojan password, email; Shadowsocks
/// password, method, email (the one user is always edited); HTTP and SOCKS
/// (with password authentication) user, password. A form for another
/// protocol than the inbound's changes nothing.
pub open spec fn user_saved(
    pre: InboundConfig,
    post: InboundConfig,
    i: nat,
    proto: Seq<char>,
    vs: Seq<Seq<char>>,
    is_new: bool,
) -> bool {
    &&& same_endpoint(pre, post)
    &&& match pre.settings {
        ProtocolSettings::VMess(s) => if proto == "VMess"@ {
            post.settings matches ProtocolSettings::VMess(s2) && vmess_saved(s, s2, i, vs, is_new)
        } else {
            post.settings == pre.settings
        },
        ProtocolSettings::VLess(s) => if proto == "VLESS"@ {
            post.settings matches ProtocolSettings::VLess(s2) && vless_saved(s, s2, i, vs, is_new)
        } else {
            post.settings == pre.settings
        },
        ProtocolSettings::Trojan(s) => if proto == "Trojan"@ {
            post.settings matches ProtocolSettings::Trojan(s2) && trojan_saved(s, s2, i, vs, is_new)
        } else {
            post.settings == pre.settings
        },
        ProtocolSettings::Shadowsocks(s) => if proto == "Shadowsocks"@ {
            post.settings matches ProtocolSettings::Shadowsocks(s2) && shadowsocks_saved(s, s2, vs)
        } else {
            post.settings == pre.settings
        },
        ProtocolSettings::Http(s) => if proto == "HTTP"@ {
            post.settings matches ProtocolSettings::Http(s2) && http_saved(s, s2, i, vs, is_new)
        } else {
            post.settings == pre.settings
        },
        ProtocolSettings::Socks(s) => if proto == "SOCKS"@ {
            post.settings matches ProtocolSettings::Socks(s2) && socks_saved(s, s2, i, vs, is_new)
        } else {
            post.settings == pre.settings
        },
    }
}

/// Taking out element `i` and putting `x` in its place replaces it.
pub proof fn lemma_remove_insert<T>(s: Seq<T>, i: int, x: T)
    requires
        0 <= i < s.len(),
    ensures
        s.remove(i).insert(i, x) == s.update(i, x),
{
    assert(s.remove(i).insert(i, x) =~= s.update(i, x));
}

fn value_at(values: &Vec<String>, i: usize) -> (r: Option<String>)
    ensures
        ot(r) == typed(texts(values@), i as int),
{
    if i < values.len() { Some(values[i].clone()) } else { None }
}

fn value_or(values: &Vec<String>, i: usize, d: &str) -> (r: String)
    ensures
        r@ == typed_or(texts(values@), i as int, d@),
{
    if i < values.len() { values[i].clone() } else { lit(d) }
}

fn value_or_empty(values: &Vec<String>, i: usize) -> (r: String)
    ensures
        r@ == typed_or(texts(values@), i as int, Seq::empty()),
{
    if i < values.len() { values[i].clone() } else { String::new() }
}

fn keep_or_take(v: &mut String, values: &Vec<String>, i: usize)
    ensures
        final(v)@ == kept_or_typed(old(v)@, texts(values@), i as int),
{
    if i < values.len() {
        *v = values[i].clone();
    }
}

fn opt_keep_or_take(v: &mut Option<String>, values: &Vec<String>, i: usize)
    ensures
        ot(*final(v)) == opt_kept_or_typed(ot(*old(v)), texts(values@), i as int),
{
    if i < values.len() {
        *v = optional_of(values[i].clone());
    }
}

fn save_vmess(s: &mut VMessSettings, i: usize, values: &Vec<String>, is_new: bool)
    ensures
        vmess_saved(*old(s), *final(s), i as nat, texts(values@), is_new),
{
    if is_new {
        let c = VMessClient {
            id: value_or_empty(values, 0),
            security: value_or(values, 1, "auto"),
            email: optional_of(value_or_empty(values, 2)),
            level: None,
        };
        s.clients.push(c);
    } else if i < s.clients.len() {
        let ghost before = s.clients@;
        let mut c = s.clients.remove(i);
        keep_or_take(&mut c.id, values, 0);
        keep_or_take(&mut c.security, values, 1);
        opt_keep_or_take(&mut c.email, values, 2);
        s.clients.insert(i, c);
        proof { lemma_remove_insert(before, i as int, c); }
    }
}

fn save_vless(s: &mut VLessSettings, i: usize, values: &Vec<String>, is_new: bool)
    ensures
        vless_saved(*old(s), *final(s), i as nat, texts(values@), is_new),
{
    if is_new {
        s.clients.push(VLessClient {
            id: value_or_empty(values, 0),
            flow: optional_of(value_or_empty(values, 1)),
            email: optional_of(value_or_empty(values, 2)),
            level: None,
        });
    } else if i < s.clients.len() {
        let ghost before = s.clients@;
        let mut c = s.clients.remove(i);
        keep_or_take(&mut c.id, values, 0);
        opt_keep_or_take(&mut c.flow, values, 1);
        opt_keep_or_take(&mut c.email, values, 2);
        s.clients.insert(i, c);
        proof { lemma_remove_insert(before, i as int, c); }
    }
}

fn save_trojan(s: &mut TrojanSettings, i: usize, values: &Vec<String>, is_new: bool)
    ensures
        trojan_saved(*old(s), *final(s), i as nat, texts(values@), is_new),
{
    if is_new {
        s.clients.push(TrojanClient {
            password: value_or_empty(values, 0),
            email: optional_of(value_or_empty(values, 1)),
            level: None,
        });
    } else if i < s.clients.len() {
        let ghost before = s.clients@;
        let mut c = s.clients.remove(i);
        keep_or_take(&mut c.password, values, 0);
        opt_keep_or_take(&mut c.email, values, 1);
        s.clients.insert(i, c);
        proof { lemma_remove_insert(before, i as int, c); }
    }
}

fn save_http(accounts: &mut Vec<HttpAccount>, i: usize, values: &Vec<String>, is_new: bool)
    ensures
        accounts_saved(old(accounts)@, final(accounts)@, |x: HttpAccount| x.user@, |x: HttpAccount| x.pass@, i as nat, texts(values@), is_new),
{
    if is_new {
        accounts.push(HttpAccount { user: value_or_empty(values, 0), pass: value_or_empty(values, 1) });
    } else if i < accounts.len() {
        let ghost before = accounts@;
        let mut a = accounts.remove(i);
        keep_or_take(&mut a.user, values, 0);
        keep_or_take(&mut a.pass, values, 1);
        accounts.insert(i, a);
        proof { lemma_remove_insert(before, i as int, a); }
    }
}

fn save_socks(accounts: &mut Vec<SocksAccount>, i: usize, values: &Vec<String>, is_new: bool)
    ensures
        accounts_saved(old(accounts)@, final(accounts)@, |x: SocksAccount| x.user@, |x: SocksAccount| x.pass@, i as nat, texts(values@), is_new),
{
    if is_new {
        accounts.push(SocksAccount { user: value_or_empty(values, 0), pass: value_or_empty(values, 1) });
    } else if i < accounts.len() {
        let ghost before = accounts@;
        let mut a = accounts.remove(i);
        keep_or_take(&mut a.user, values, 0);
        keep_or_take(&mut a.pass, values, 1);
        accounts.insert(i, a);
        proof { lemma_remove_insert(before, i as int, a); }
    }
}

/// Applies the user form to an inbound (see `user_saved`).
pub fn save_user(inbound: &mut InboundConfig, i: usize, proto: &str, values: &Vec<String>, is_new: bool)
    ensures
        user_saved(*old(inbound), *final(inbound), i as nat, proto@, texts(values@), is_new),
{
    match &mut inbound.settings {
        ProtocolSettings::VMess(s) => {
            if str_eq(proto, "VMess") {
                save_vmess(s, i, values, is_new);
            }
        },
        ProtocolSettings::VLess(s) => {
            if str_eq(proto, "VLESS") {
                save_vless(s, i, values, is_new);
            }
        },
        ProtocolSettings::Trojan(s) => {
            if str_eq(proto, "Trojan") {
                save_trojan(s, i, values, is_new);
            }
        },
        ProtocolSettings::Shadowsocks(s) => {
            if str_eq(proto, "Shadowsocks") {
                keep_or_take(&mut s.password, values, 0);
                keep_or_take(&mut s.method, values, 1);
                opt_keep_or_take(&mut s.email, values, 2);
            }
        },
        ProtocolSettings::Http(s) => {
            if str_eq(proto, "HTTP") {
                save_http(&mut s.accounts, i, values, is_new);
            }
        },
        ProtocolSettings::Socks(s) => {
            if str_eq(proto, "SOCKS") {
                match &mut s.auth {
                    SocksAuth::Password { accounts } => save_socks(accounts, i, values, is_new),
                    SocksAuth::NoAuth {} => {},
                }
            }
        },
    }
}

} // verus!
