use vstd::prelude::*;

use vstd::string::StringSliceAdditionalSpecFns;

use crate::codec::{add_days, date_plus_days, parse_iso_date, parsed_iso_date};
use crate::model::ssl::{CalendarDate, CertInfo};
use crate::services::error::ServiceError;
use crate::text::{
    cat, contains, contains_text, is_prefix, lines_of, lit, split_lines, split_words, starts_with,
    str_eq, texts, trim, trim_end_char, trim_matches, trim_matches_char, trim_ws, words_of,
};

verus! {

/// Issues and lists certificates with acme.sh.
pub struct AcmeService;

/// Where acme.sh may be installed, in the order they are looked for.
pub open spec fn acme_candidates(home: Seq<char>) -> Seq<Seq<char>> {
    seq![
        "/root/.acme.sh/acme.sh"@,
        home + "/.acme.sh/acme.sh"@,
        trim_end_char(home, '/') + "/.acme.sh/acme.sh"@,
        "/usr/local/bin/acme.sh"@,
        "/usr/bin/acme.sh"@,
        home + "/.acme.sh/acme.sh"@,
    ]
}

/// The directory a domain's certificate is installed in for Xray.
pub open spec fn cert_dir(domain: Seq<char>) -> Seq<char> {
    "/etc/xray/certs/"@ + domain
}

/// The arguments of `acme.sh` that issue a certificate for `domain` by
/// `method`: a web root (by default `/var/www/html`), TLS-ALPN, or
/// Cloudflare DNS.
pub open spec fn issue_args_spec(domain: Seq<char>, method: Seq<char>, webroot: Option<Seq<char>>) -> Option<
    Seq<Seq<char>>,
> {
    let base = seq!["--issue"@, "-d"@, domain];
    if method == "webroot"@ {
        Some(base + seq!["--webroot"@, match webroot { Some(w) => w, None => "/var/www/html"@ }])
    } else if method == "alpn"@ {
        Some(base.push("--alpn"@))
    } else if method == "dns_cf"@ {
        Some(base + seq!["--dns"@, "dns_cf"@])
    } else {
        None
    }
}

/// The Cloudflare credentials handed to acme.sh: an API token (`CF_Token`)
/// when the key starts with `cfut_` or is longer than 30 bytes, else a
/// global key (`CF_Key`) with the account e-mail (`CF_Email`) if there is one.
pub open spec fn cf_env_spec(key: Option<&str>, email: Option<Seq<char>>) -> Seq<(Seq<char>, Seq<char>)> {
    match key {
        Some(k) => if is_prefix("cfut_"@, k@) || k.len() > 30 {
            seq![("CF_Token"@, k@)]
        } else {
            match email {
                Some(e) => seq![("CF_Key"@, k@), ("CF_Email"@, e)],
                None => seq![("CF_Key"@, k@)],
            }
        },
        None => Seq::empty(),
    }
}

/// The data rows of `acme.sh --list`, as words: the lines after a line that
/// names `Main_Domain`, up to the first blank line.
pub open spec fn cert_rows(lines: Seq<Seq<char>>, started: bool) -> Seq<Seq<Seq<char>>>
    decreases lines.len(),
{
    if lines.len() == 0 {
        Seq::empty()
    } else {
        let l = lines[0];
        if contains_text(l, "Main_Domain"@) {
            cert_rows(lines.drop_first(), true)
        } else if !started {
            cert_rows(lines.drop_first(), false)
        } else if trim_ws(l).len() == 0 {
            Seq::empty()
        } else if words_of(l).len() == 0 {
            cert_rows(lines.drop_first(), true)
        } else {
            seq![words_of(l)] + cert_rows(lines.drop_first(), true)
        }
    }
}

/// The date in column `i` of a row, or 2020-01-01 when there is none.
pub open spec fn row_date(row: Seq<Seq<char>>, i: int) -> CalendarDate {
    if i < row.len() {
        match parsed_iso_date(row[i]) {
            Some(d) => d,
            None => CalendarDate { year: 2020, month: 1, day: 1 },
        }
    } else {
        CalendarDate { year: 2020, month: 1, day: 1 }
    }
}

/// The certificate a row of `acme.sh --list` describes: the domain without
/// wildcard stars and dots around it, the certificate and key where acme.sh
/// keeps them under `home`, and the dates of columns 5 and 6.
pub open spec fn describes_row(c: CertInfo, row: Seq<Seq<char>>, home: Seq<char>) -> bool {
    let domain = trim_matches_char(trim_matches_char(row[0], '*'), '.');
    let dir = home + "/.acme.sh/"@ + domain;
    &&& c.domain@ == domain
    &&& c.cert_path@ == dir + "/fullchain.cer"@
    &&& c.key_path@ == dir + "/"@ + domain + ".key"@
    &&& c.issued_at == row_date(row, 4)
    &&& c.expires_at == row_date(row, 5)
    &&& c.issuer@ == "Let's Encrypt"@
    &&& !c.auto_renew
    &&& c.renew_command is None
}

fn date_or_default(row: &Vec<String>, i: usize) -> (r: CalendarDate)
    ensures
        r == row_date(texts(row@), i as int),
{
    if i < row.len() {
        match parse_iso_date(row[i].as_str()) {
            Some(d) => d,
            None => CalendarDate { year: 2020, month: 1, day: 1 },
        }
    } else {
        CalendarDate { year: 2020, month: 1, day: 1 }
    }
}

impl AcmeService {
    /// The places acme.sh is looked for (see `acme_candidates`).
    pub fn candidate_paths(home: &str) -> (r: Vec<String>)
        ensures
            texts(r@) == acme_candidates(home@),
    {
        let mut v: Vec<String> = Vec::new();
        v.push(lit("/root/.acme.sh/acme.sh"));
        v.push(cat(home, "/.acme.sh/acme.sh"));
        let v0 = chars_trim_end_slash(home);
        v.push(cat(v0.as_str(), "/.acme.sh/acme.sh"));
        v.push(lit("/usr/local/bin/acme.sh"));
        v.push(lit("/usr/bin/acme.sh"));
        v.push(cat(home, "/.acme.sh/acme.sh"));
        assert(texts(v@) =~= acme_candidates(home@));
        v
    }

    /// The shell command that installs acme.sh: through curl if there is
    /// curl, else through wget; an error when there is neither.
    pub fn installer_command(has_curl: bool, has_wget: bool) -> (r: Result<String, ServiceError>)
        ensures
            has_curl ==> (r matches Ok(c) && c@ == "curl https://get.acme.sh | sh"@),
            !has_curl && has_wget ==> (r matches Ok(c) && c@ == "wget -O - https://get.acme.sh | sh"@),
            !has_curl && !has_wget ==> (r matches Err(ServiceError::Acme(m)) && m@
                == "Either 'curl' or 'wget' is required to install acme.sh. Please install one first."@),
    {
        if !has_curl && !has_wget {
            return Err(
                ServiceError::Acme(
                    lit(
                        "Either 'curl' or 'wget' is required to install acme.sh. Please install one first.",
                    ),
                ),
            );
        }
        if has_curl {
            Ok(lit("curl https://get.acme.sh | sh"))
        } else {
            Ok(lit("wget -O - https://get.acme.sh | sh"))
        }
    }

    /// The arguments that register the acme.sh account, with the given
    /// e-mail or `my@example.com`.
    pub fn register_args(email: Option<&str>) -> (r: Vec<String>)
        ensures
            texts(r@) == seq![
                "--register-account"@,
                "-m"@,
                match email {
                    Some(e) => e@,
                    None => "my@example.com"@,
                },
            ],
    {
        let mut v: Vec<String> = Vec::new();
        v.push(lit("--register-account"));
        v.push(lit("-m"));
        match email {
            Some(e) => v.push(lit(e)),
            None => v.push(lit("my@example.com")),
        }
        assert(texts(v@) =~= seq![
            "--register-account"@,
            "-m"@,
            match email {
                Some(e) => e@,
                None => "my@example.com"@,
            },
        ]);
        v
    }

    /// What a run of acme.sh gives: its output and error output together, or
    /// an error that quotes them when it failed.
    pub fn acme_outcome(stdout: &str, stderr: &str, success: bool) -> (r: Result<String, ServiceError>)
        ensures
            success ==> (r matches Ok(o) && o@ == stdout@ + stderr@),
            !success ==> (r matches Err(ServiceError::Acme(m)) && m@ == "acme.sh failed:\n"@ + stdout@
                + stderr@),
    {
        let combined = cat(stdout, stderr);
        if !success {
            return Err(ServiceError::Acme(cat("acme.sh failed:\n", combined.as_str())));
        }
        Ok(combined)
    }

    /// The arguments that issue a certificate (see `issue_args_spec`); an
    /// unknown method is an error that names it.
    pub fn issue_args(domain: &str, method: &str, webroot: Option<&str>) -> (r: Result<Vec<String>, ServiceError>)
        ensures
            match r {
                Ok(args) => issue_args_spec(
                    domain@,
                    method@,
                    match webroot {
                        Some(w) => Some(w@),
                        None => None,
                    },
                ) == Some(texts(args@)),
                Err(e) => issue_args_spec(
                    domain@,
                    method@,
                    match webroot {
                        Some(w) => Some(w@),
                        None => None,
                    },
                ) is None && (e matches ServiceError::Acme(m) && m@ == "Unknown method: "@ + method@),
            },
    {
        let mut args: Vec<String> = Vec::new();
        args.push(lit("--issue"));
        args.push(lit("-d"));
        args.push(lit(domain));
        let ghost base = texts(args@);
        assert(base =~= seq!["--issue"@, "-d"@, domain@]);
        if str_eq(method, "webroot") {
            match webroot {
                Some(w) => {
                    args.push(lit("--webroot"));
                    args.push(lit(w));
                },
                None => {
                    args.push(lit("--webroot"));
                    args.push(lit("/var/www/html"));
                },
            }
            assert(texts(args@) =~= base + seq![
                "--webroot"@,
                match webroot {
                    Some(w) => w@,
                    None => "/var/www/html"@,
                },
            ]);
            Ok(args)
        } else if str_eq(method, "alpn") {
            args.push(lit("--alpn"));
            assert(texts(args@) =~= base.push("--alpn"@));
            Ok(args)
        } else if str_eq(method, "dns_cf") {
            args.push(lit("--dns"));
            args.push(lit("dns_cf"));
            assert(texts(args@) =~= base + seq!["--dns"@, "dns_cf"@]);
            Ok(args)
        } else {
            Err(ServiceError::Acme(cat("Unknown method: ", method)))
        }
    }

    /// The environment variables that pass Cloudflare credentials to acme.sh
    /// (see `cf_env_spec`).
    pub fn cf_env(cf_key: Option<&str>, cf_email: Option<&str>) -> (r: Vec<(String, String)>)
        ensures
            crate::services::subscription::pair_texts(r@) == cf_env_spec(
                cf_key,
                match cf_email {
                    Some(e) => Some(e@),
                    None => None,
                },
            ),
    {
        let mut v: Vec<(String, String)> = Vec::new();
        if let Some(token) = cf_key {
            if starts_with(token, "cfut_") || token.len() > 30 {
                v.push((lit("CF_Token"), lit(token)));
                assert(crate::services::subscription::pair_texts(v@) =~= seq![("CF_Token"@, token@)]);
            } else {
                v.push((lit("CF_Key"), lit(token)));
                if let Some(email) = cf_email {
                    v.push((lit("CF_Email"), lit(email)));
                    assert(crate::services::subscription::pair_texts(v@) =~= seq![("CF_Key"@, token@), ("CF_Email"@, email@)]);
                } else {
                    assert(crate::services::subscription::pair_texts(v@) =~= seq![("CF_Key"@, token@)]);
                }
            }
        } else {
            assert(crate::services::subscription::pair_texts(v@) =~= Seq::<(Seq<char>, Seq<char>)>::empty());
        }
        v
    }

    /// Whether acme.sh reported the certificate issued (or already valid).
    pub fn issue_succeeded(output: &str) -> (r: bool)
        ensures
            r == (contains_text(output@, "Certificate success"@) || contains_text(output@, "Cert success"@)
                || contains_text(output@, "Domains not changed"@)),
    {
        contains(output, "Certificate success") || contains(output, "Cert success") || contains(
            output,
            "Domains not changed",
        )
    }

    /// Whether acme.sh reported a renewal as successful.
    pub fn renew_succeeded(output: &str) -> (r: bool)
        ensures
            r == contains_text(output@, "success"@),
    {
        contains(output, "success")
    }

    /// The arguments that install a domain's certificate and key into
    /// `/etc/xray/certs/<domain>` and reload Xray afterwards.
    pub fn install_cert_args(domain: &str) -> (r: Vec<String>)
        ensures
            texts(r@) == seq![
                "--install-cert"@,
                "-d"@,
                domain@,
                "--cert-file"@,
                cert_dir(domain@) + "/fullchain.pem"@,
                "--key-file"@,
                cert_dir(domain@) + "/privkey.pem"@,
                "--reloadcmd"@,
                "systemctl reload xray 2>/dev/null || true"@,
            ],
    {
        let dir = cat("/etc/xray/certs/", domain);
        let mut v: Vec<String> = Vec::new();
        v.push(lit("--install-cert"));
        v.push(lit("-d"));
        v.push(lit(domain));
        v.push(lit("--cert-file"));
        v.push(cat(dir.as_str(), "/fullchain.pem"));
        v.push(lit("--key-file"));
        v.push(cat(dir.as_str(), "/privkey.pem"));
        v.push(lit("--reloadcmd"));
        v.push(lit("systemctl reload xray 2>/dev/null || true"));
        assert(texts(v@) =~= seq![
            "--install-cert"@,
            "-d"@,
            domain@,
            "--cert-file"@,
            cert_dir(domain@) + "/fullchain.pem"@,
            "--key-file"@,
            cert_dir(domain@) + "/privkey.pem"@,
            "--reloadcmd"@,
            "systemctl reload xray 2>/dev/null || true"@,
        ]);
        v
    }

    /// The record of a certificate just issued on `today`: installed under
    /// `/etc/xray/certs/<domain>`, valid for 90 days, renewable with the
    /// acme.sh under `home`. `None` when chrono has no date 90 days later.
    pub fn issued_cert(domain: &str, today: CalendarDate, home: &str) -> (r: Option<CertInfo>)
        ensures
            r is Some <==> date_plus_days(today, 90) is Some,
            r matches Some(c) ==> {
                &&& c.domain@ == domain@
                &&& c.cert_path@ == cert_dir(domain@) + "/fullchain.pem"@
                &&& c.key_path@ == cert_dir(domain@) + "/privkey.pem"@
                &&& c.issued_at == today
                &&& Some(c.expires_at) == date_plus_days(today, 90)
                &&& c.issuer@ == "Let's Encrypt"@
                &&& !c.auto_renew
                &&& c.renew_command matches Some(cmd) && cmd@ == home@ + "/.acme.sh/acme.sh --renew -d "@
                    + domain@ + " --reloadcmd 'systemctl reload xray'"@
            },
    {
        let expires = match add_days(today, 90) {
            Some(d) => d,
            None => {
                return None;
            },
        };
        let dir = cat("/etc/xray/certs/", domain);
        let mut renew = cat(home, "/.acme.sh/acme.sh --renew -d ");
        renew.append(domain);
        renew.append(" --reloadcmd 'systemctl reload xray'");
        Some(
            CertInfo {
                domain: lit(domain),
                issued_at: today,
                expires_at: expires,
                cert_path: cat(dir.as_str(), "/fullchain.pem"),
                key_path: cat(dir.as_str(), "/privkey.pem"),
                issuer: lit("Let's Encrypt"),
                auto_renew: false,
                renew_command: Some(renew),
            },
        )
    }

    /// The certificates listed by `acme.sh --list`, one per data row (see
    /// `cert_rows` and `describes_row`). It never fails.
    pub fn parse_cert_list(output: &str, home: &str) -> (r: Result<Vec<CertInfo>, ServiceError>)
        ensures
            r matches Ok(certs) && {
                let rows = cert_rows(lines_of(output@), false);
                &&& certs@.len() == rows.len()
                &&& forall|i: int| 0 <= i < rows.len() ==> describes_row(#[trigger] certs@[i], rows[i], home@)
            },
    {
        let lines = split_lines(output);
        let ghost all = texts(lines@);
        let mut certs: Vec<CertInfo> = Vec::new();
        let ghost mut rows_done: Seq<Seq<Seq<char>>> = Seq::empty();
        let mut started = false;
        let mut i: usize = 0;
        assert(all.subrange(0, all.len() as int) =~= all);
        while i < lines.len()
            invariant_except_break
                i <= lines@.len(),
                all == texts(lines@),
                all == lines_of(output@),
                cert_rows(all, false) == rows_done + cert_rows(all.subrange(i as int, all.len() as int), started),
                certs@.len() == rows_done.len(),
                forall|j: int| 0 <= j < rows_done.len() ==> describes_row(#[trigger] certs@[j], rows_done[j], home@),
                forall|j: int| 0 <= j < rows_done.len() ==> (#[trigger] rows_done[j]).len() > 0,
            ensures
                cert_rows(all, false) == rows_done,
                certs@.len() == rows_done.len(),
                forall|j: int| 0 <= j < rows_done.len() ==> describes_row(#[trigger] certs@[j], rows_done[j], home@),
            decreases lines@.len() - i,
        {
            let ghost rest = all.subrange(i as int, all.len() as int);
            assert(rest[0] == lines@[i as int]@);
            assert(rest.drop_first() =~= all.subrange(i + 1, all.len() as int));
            let line = lines[i].as_str();
            if contains(line, "Main_Domain") {
                started = true;
                i += 1;
                continue;
            }
            if !started {
                i += 1;
                continue;
            }
            let t = trim(line);
            if t.as_str().is_empty() {
                assert(cert_rows(rest, started) == Seq::<Seq<Seq<char>>>::empty());
                assert(rows_done + Seq::<Seq<Seq<char>>>::empty() =~= rows_done);
                break;
            }
            let parts = split_words(line);
            if parts.len() == 0 {
                i += 1;
                continue;
            }
            let d1 = trim_matches(parts[0].as_str(), '*');
            let domain = trim_matches(d1.as_str(), '.');
            let mut acme_dir = cat(home, "/.acme.sh/");
            acme_dir.append(domain.as_str());
            let cert_path = cat(acme_dir.as_str(), "/fullchain.cer");
            let mut key_path = cat(acme_dir.as_str(), "/");
            key_path.append(domain.as_str());
            key_path.append(".key");
            let issued_at = date_or_default(&parts, 4);
            let expires_at = date_or_default(&parts, 5);
            let cert = CertInfo {
                domain,
                issued_at,
                expires_at,
                cert_path,
                key_path,
                issuer: lit("Let's Encrypt"),
                auto_renew: false,
                renew_command: None,
            };
            let ghost row = texts(parts@);
            assert(row[0] == parts@[0]@);
            assert(describes_row(cert, row, home@));
            certs.push(cert);
            proof {
                rows_done = rows_done.push(row);
            }
            assert(cert_rows(rest, started) == seq![row] + cert_rows(rest.drop_first(), true));
            assert(rows_done.drop_last() + (seq![row] + cert_rows(rest.drop_first(), true)) =~= rows_done
                + cert_rows(all.subrange(i + 1, all.len() as int), true));
            i += 1;
        }
        Ok(certs)
    }
}

/// `home` without trailing slashes.
fn chars_trim_end_slash(home: &str) -> (r: String)
    ensures
        r@ == trim_end_char(home@, '/'),
{
    let v = crate::text::chars_of(home);
    let mut b: usize = v.len();
    assert(home@.subrange(0, b as int) =~= home@);
    while b > 0 && v[b - 1] == '/'
        invariant
            v@ == home@,
            b <= v@.len(),
            trim_end_char(home@, '/') == trim_end_char(home@.subrange(0, b as int), '/'),
        decreases b,
    {
        assert(home@.subrange(0, b as int).drop_last() =~= home@.subrange(0, b - 1));
        b -= 1;
    }
    crate::text::string_of_range(&v, 0, b)
}

} // verus!
