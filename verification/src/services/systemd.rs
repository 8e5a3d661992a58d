use vstd::prelude::*;

use crate::services::error::ServiceError;
use crate::text::{lines_of, lit, parse_bounded, parse_unsigned, split_lines, str_eq, trim, trim_ws};

verus! {

/// The systemd unit that runs Xray.
pub struct SystemdService {
    unit_name: String,
    xray_binary: String,
    config_path: String,
    unit_file_path: String,
}

/// The unit file that runs `binary` on the configuration at `config`.
pub open spec fn unit_file_text(binary: Seq<char>, config: Seq<char>) -> Seq<char> {
    "[Unit]\nDescription=Xray Service\nAfter=network.target\n\n[Service]\nType=simple\nExecStart="@
        + binary + " run -config "@ + config
        + "\nRestart=on-failure\nRestartSec=5\n\n[Install]\nWantedBy=multi-user.target\n"@
}

/// The first line of the output of `xray version`, or `unknown`.
pub open spec fn version_or_unknown(output: Seq<char>) -> Seq<char> {
    if lines_of(output).len() > 0 {
        lines_of(output)[0]
    } else {
        "unknown"@
    }
}

impl SystemdService {
    /// The unit name.
    pub closed spec fn unit(&self) -> Seq<char> {
        self.unit_name@
    }

    /// The path of the Xray binary.
    pub closed spec fn binary(&self) -> Seq<char> {
        self.xray_binary@
    }

    /// The path of the Xray configuration.
    pub closed spec fn config(&self) -> Seq<char> {
        self.config_path@
    }

    /// The path of the unit file.
    pub closed spec fn unit_path_spec(&self) -> Seq<char> {
        self.unit_file_path@
    }

    /// The unit `xray`, installed at `/etc/systemd/system/xray.service`.
    pub fn new(xray_binary: String, config_path: String) -> (r: Self)
        ensures
            r.unit() == "xray"@,
            r.binary() == xray_binary@,
            r.config() == config_path@,
            r.unit_path_spec() == "/etc/systemd/system/xray.service"@,
    {
        SystemdService {
            unit_name: lit("xray"),
            xray_binary,
            config_path,
            unit_file_path: lit("/etc/systemd/system/xray.service"),
        }
    }

    pub fn unit_name(&self) -> (r: &str)
        ensures
            r@ == self.unit(),
    {
        self.unit_name.as_str()
    }

    pub fn xray_binary(&self) -> (r: &str)
        ensures
            r@ == self.binary(),
    {
        self.xray_binary.as_str()
    }

    pub fn unit_path(&self) -> (r: &str)
        ensures
            r@ == self.unit_path_spec(),
    {
        self.unit_file_path.as_str()
    }

    /// Whether `systemctl is-active` reported the unit running: its output,
    /// trimmed, is `active`.
    pub fn is_active_output(stdout: &str) -> (r: bool)
        ensures
            r == (trim_ws(stdout@) == "active"@),
    {
        let t = trim(stdout);
        str_eq(t.as_str(), "active")
    }

    /// The version reported by `xray version`: its first line, or `unknown`.
    pub fn version_from_output(output: &str) -> (r: String)
        ensures
            r@ == version_or_unknown(output@),
    {
        let lines = split_lines(output);
        if lines.len() > 0 {
            lines[0].clone()
        } else {
            lit("unknown")
        }
    }

    /// The main PID reported by `systemctl show --property=MainPID --value`:
    /// the trimmed output read as a `u32`.
    pub fn pid_from_output(output: &str) -> (r: Result<u32, ServiceError>)
        ensures
            match r {
                Ok(pid) => parse_unsigned(trim_ws(output@), u32::MAX as nat) == Some(pid as nat),
                Err(e) => parse_unsigned(trim_ws(output@), u32::MAX as nat) is None && (
                e matches ServiceError::Systemd(m) && m@ == "Invalid PID"@),
            },
    {
        let t = trim(output);
        match parse_bounded(t.as_str(), u32::MAX as u64) {
            Some(n) => Ok(n as u32),
            None => Err(ServiceError::Systemd(lit("Invalid PID"))),
        }
    }

    /// The unit file for this service's binary and configuration.
    pub fn unit_file_content(&self) -> (r: String)
        ensures
            r@ == unit_file_text(self.binary(), self.config()),
    {
        let mut s = lit(
            "[Unit]\nDescription=Xray Service\nAfter=network.target\n\n[Service]\nType=simple\nExecStart=",
        );
        s.append(self.xray_binary.as_str());
        s.append(" run -config ");
        s.append(self.config_path.as_str());
        s.append("\nRestart=on-failure\nRestartSec=5\n\n[Install]\nWantedBy=multi-user.target\n");
        s
    }
}

} // verus!
