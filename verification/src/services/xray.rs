use vstd::prelude::*;

use crate::model::config::{InboundConfig, XrayConfig};
use crate::model::copy::{Duplicate, same_seq};
use crate::model::routing::RoutingConfig;
use crate::model::settings::GlobalSettings;
use crate::services::error::ServiceError;
use crate::text::{cat, lines_of, lit, split_lines, strip_prefix, trim, trim_ws};

verus! {

/// The shell line that fetches and runs Xray's official install script.
pub open spec fn install_script() -> Seq<char> {
    "bash <(curl -Ls https://github.com/XTLS/Xray-install/raw/main/install-release.sh)"@
}

/// Generates, checks and parses what concerns the Xray binary.
pub struct XrayService {
    settings: GlobalSettings,
}

/// Every inbound of a configuration has a listen address and a port.
pub open spec fn inbounds_valid(inbounds: Seq<InboundConfig>) -> bool {
    forall|i: int| 0 <= i < inbounds.len() ==> (#[trigger] inbounds[i]).listen@.len() > 0
        && inbounds[i].port != 0
}

/// The first inbound that has no listen address or port 0.
pub open spec fn first_invalid(inbounds: Seq<InboundConfig>, i: int) -> bool {
    0 <= i < inbounds.len() && (inbounds[i].listen@.len() == 0 || inbounds[i].port == 0) && forall|
        j: int,
    |
        0 <= j < i ==> (#[trigger] inbounds[j]).listen@.len() > 0 && inbounds[j].port != 0
}

/// The key printed on the line that starts with `prefix`, trimmed; the last
/// such line wins; nothing when no line starts with it.
pub open spec fn key_after(lines: Seq<Seq<char>>, prefix: Seq<char>) -> Seq<char>
    decreases lines.len(),
{
    if lines.len() == 0 {
        Seq::empty()
    } else {
        let l = lines.last();
        if prefix.len() <= l.len() && l.subrange(0, prefix.len() as int) == prefix {
            trim_ws(l.subrange(prefix.len() as int, l.len() as int))
        } else {
            key_after(lines.drop_last(), prefix)
        }
    }
}

/// The (private, public) key pair printed by `xray x25519`, when both
/// keys are there.
pub open spec fn x25519_keys(output: Seq<char>) -> Option<(Seq<char>, Seq<char>)> {
    let private = key_after(lines_of(output), "Private key: "@);
    let public = key_after(lines_of(output), "Public key: "@);
    if private.len() == 0 || public.len() == 0 {
        None
    } else {
        Some((private, public))
    }
}

/// The first line of the output of `xray version`, if there is one.
pub open spec fn version_line(output: Seq<char>) -> Option<Seq<char>> {
    let lines = lines_of(output);
    if lines.len() > 0 {
        Some(lines[0])
    } else {
        None
    }
}

impl XrayService {
    pub fn new(settings: GlobalSettings) -> (r: Self)
        ensures
            r.settings_spec() == settings,
    {
        XrayService { settings }
    }

    /// The settings the service was made with.
    pub closed spec fn settings_spec(&self) -> GlobalSettings {
        self.settings
    }

    pub fn settings(&self) -> (r: &GlobalSettings)
        ensures
            *r == self.settings_spec(),
    {
        &self.settings
    }

    /// The configuration for the given inbounds and routing (see
    /// `XrayConfig::from_inbounds`).
    pub fn generate_config(&self, inbounds: &[InboundConfig], routing: &RoutingConfig) -> (r: XrayConfig)
        ensures
            r.log.loglevel@ == "warning"@,
            r.log.access is None,
            r.log.error is None,
            r.api is None,
            routing.same_as(&r.routing),
            r.policy.levels is None,
            r.policy.system is None,
            same_seq(inbounds@, r.inbounds@),
            r.outbounds@.len() == 2,
            r.outbounds@[0].is_plain("freedom"@, "direct"@),
            r.outbounds@[1].is_plain("blackhole"@, "block"@),
            r.dns is None,
    {
        XrayConfig::from_inbounds(inbounds, routing)
    }

    /// Checks that every inbound has a listen address and a non-zero port;
    /// the first inbound that has not is reported.
    pub fn validate_config(&self, config: &XrayConfig) -> (r: Result<(), ServiceError>)
        ensures
            r is Ok <==> inbounds_valid(config.inbounds@),
            r matches Err(e) ==> exists|i: int|
                #[trigger] first_invalid(config.inbounds@, i) && (e matches ServiceError::Command(m)
                    && m@ == (if config.inbounds@[i].listen@.len() == 0 {
                    "listen address is empty"@
                } else {
                    "port cannot be 0"@
                })),
    {
        let mut i: usize = 0;
        while i < config.inbounds.len()
            invariant
                i <= config.inbounds@.len(),
                forall|j: int| 0 <= j < i ==> (#[trigger] config.inbounds@[j]).listen@.len() > 0
                    && config.inbounds@[j].port != 0,
            decreases config.inbounds@.len() - i,
        {
            let inbound = &config.inbounds[i];
            if inbound.listen.as_str().is_empty() {
                assert(first_invalid(config.inbounds@, i as int));
                return Err(ServiceError::Command(crate::text::lit("listen address is empty")));
            }
            if inbound.port == 0 {
                assert(first_invalid(config.inbounds@, i as int));
                return Err(ServiceError::Command(crate::text::lit("port cannot be 0")));
            }
            i += 1;
        }
        Ok(())
    }

    /// The key pair that `xray x25519` printed: the text after
    /// `Private key: ` and after `Public key: ` on the last lines that start
    /// with them, trimmed. Fails, quoting the output, when either is missing
    /// or empty.
    pub fn parse_reality_keys(output: &str) -> (r: Result<(String, String), ServiceError>)
        ensures
            match r {
                Ok((private, public)) => x25519_keys(output@) == Some((private@, public@)),
                Err(e) => x25519_keys(output@) is None && (e matches ServiceError::Command(m)
                    && m@ == "Failed to parse x25519 output:\n"@ + output@),
            },
    {
        let lines = split_lines(output);
        let mut private_key = String::new();
        let mut public_key = String::new();
        let mut i: usize = 0;
        while i < lines.len()
            invariant
                i <= lines@.len(),
                crate::text::texts(lines@) == lines_of(output@),
                private_key@ == key_after(lines_of(output@).take(i as int), "Private key: "@),
                public_key@ == key_after(lines_of(output@).take(i as int), "Public key: "@),
            decreases lines@.len() - i,
        {
            let ghost upto = lines_of(output@).take(i + 1);
            assert(upto.drop_last() =~= lines_of(output@).take(i as int));
            assert(upto.last() == lines@[i as int]@);
            if let Some(key) = strip_prefix(lines[i].as_str(), "Private key: ") {
                private_key = trim(key.as_str());
            }
            if let Some(key) = strip_prefix(lines[i].as_str(), "Public key: ") {
                public_key = trim(key.as_str());
            }
            i += 1;
        }
        assert(lines_of(output@).take(lines@.len() as int) =~= lines_of(output@));
        if private_key.as_str().is_empty() || public_key.as_str().is_empty() {
            return Err(ServiceError::Command(cat("Failed to parse x25519 output:\n", output)));
        }
        Ok((private_key, public_key))
    }

    /// The command that runs the official install script: `bash -c <script>`
    /// for the `root` user, and the same through `sudo` for anyone else (or
    /// when the user is not known).
    pub fn install_command(user: Option<&str>) -> (r: (String, Vec<String>))
        ensures
            r.1@.len() >= 2,
            r.1@[r.1@.len() - 1]@ == install_script(),
            if user matches Some(u) && u@ == "root"@ {
                r.0@ == "bash"@ && r.1@.len() == 2 && r.1@[0]@ == "-c"@
            } else {
                r.0@ == "sudo"@ && r.1@.len() == 3 && r.1@[0]@ == "bash"@ && r.1@[1]@ == "-c"@
            },
    {
        let is_root = match user {
            Some(u) => crate::text::str_eq(u, "root"),
            None => false,
        };
        let mut args: Vec<String> = Vec::new();
        let program = if is_root {
            lit("bash")
        } else {
            args.push(lit("bash"));
            lit("sudo")
        };
        args.push(lit("-c"));
        args.push(lit("bash <(curl -Ls https://github.com/XTLS/Xray-install/raw/main/install-release.sh)"));
        (program, args)
    }

    /// The version that `xray version` printed: its first line, if any.
    pub fn parse_version(output: &str) -> (r: Option<String>)
        ensures
            match r {
                Some(v) => version_line(output@) == Some(v@),
                None => version_line(output@) is None,
            },
    {
        let lines = split_lines(output);
        if lines.len() > 0 {
            Some(lines[0].clone())
        } else {
            None
        }
    }
}

} // verus!
