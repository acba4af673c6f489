use crate::error::Error;
use crate::net::{Ipv4Prefix, Prefix};
use crate::text::{decimal, push_decimal, str_equal};
use vstd::prelude::*;
use vstd::string::StringExecFns;

verus! {

/// What a script or configuration is made for.
#[derive(Debug, Clone, Copy, PartialEq, Eq, Structural)]
pub enum Target {
    /// Lines for an OpenVPN configuration, with the metric of the routes.
    OpenVPN(u32),
    Linux,
    Mac,
    /// A Windows batch file, with the metric of the routes.
    Windows(u32),
    Android,
}

/// What the Linux script that adds the routes begins with.
pub const LINUX_UP_HEADER: &'static str = r#"#!/bin/bash
export PATH="/bin:/sbin:/usr/sbin:/usr/bin"

OLDGW=`ip route show | grep '^default' | sed -e 's/default via \([^ ]*\).*/\1/'`

if [ $OLDGW == '' ]; then
    exit 0
fi

if [ ! -e /tmp/vpn_oldgw ]; then
    echo $OLDGW > /tmp/vpn_oldgw
fi

"#;

/// What the Linux script that removes the routes begins with.
pub const LINUX_DOWN_HEADER: &'static str = r#"#!/bin/bash
export PATH="/bin:/sbin:/usr/sbin:/usr/bin"

OLDGW=`cat /tmp/vpn_oldgw`

"#;

/// What the macOS script that adds the routes begins with.
pub const MAC_UP_HEADER: &'static str = r#"export PATH="/bin:/sbin:/usr/sbin:/usr/bin"
    
OLDGW=`netstat -nr | grep '^default' | grep -v 'ppp' | sed 's/default *\([0-9\.]*\) .*/\1/' | awk '{if($1){print $1}}'`

if [ ! -e /tmp/pptp_oldgw ]; then
    echo "${OLDGW}" > /tmp/pptp_oldgw
fi

dscacheutil -flushcache

route add 10.0.0.0/8 "${OLDGW}"
route add 172.16.0.0/12 "${OLDGW}"
route add 192.168.0.0/16 "${OLDGW}"

"#;

/// What the macOS script that removes the routes begins with.
pub const MAC_DOWN_HEADER: &'static str = r#"#!/bin/sh
export PATH="/bin:/sbin:/usr/sbin:/usr/bin"

if [ ! -e /tmp/pptp_oldgw ]; then
        exit 0
fi

OLDGW=`cat /tmp/pptp_oldgw`

route delete 10.0.0.0/8 "${OLDGW}"
route delete 172.16.0.0/12 "${OLDGW}"
route delete 192.168.0.0/16 "${OLDGW}"

"#;

/// What the Windows batch file that adds the routes begins with.
pub const WINDOWS_UP_HEADER: &'static str = r#"@echo off
for /F "tokens=3" %%* in ('route print ^| findstr "\<0.0.0.0\>"') do set "gw=%%*"
echo gw=%gw%
ipconfig /flushdns

"#;

/// What the Windows batch file that removes the routes begins with.
pub const WINDOWS_DOWN_HEADER: &'static str = r#"@echo off

"#;

/// What the Android script that adds the routes begins with.
pub const ANDROID_UP_HEADER: &'static str = r#"#!/bin/sh
alias nestat='/system/xbin/busybox netstat'
alias grep='/system/xbin/busybox grep'
alias awk='/system/xbin/busybox awk'
alias route='/system/xbin/busybox route'

OLDGW=`netstat -rn | grep ^0\.0\.0\.0 | awk '{print $2}'`

"#;

/// What the Android script that removes the routes begins with.
pub const ANDROID_DOWN_HEADER: &'static str = r#"#!/bin/sh
alias route='/system/xbin/busybox route'
    
"#;

/// The kinds of line that the scripts hold, one line for each prefix.
#[derive(Debug, Clone, Copy, PartialEq, Eq, Structural)]
pub enum Line {
    OpenVpn(u32),
    LinuxUp,
    LinuxDown,
    MacUp,
    MacDown,
    WindowsUp(u32),
    WindowsDown,
    AndroidUp,
    AndroidDown,
}

/// The line of the given kind for the network `ip`.
pub open spec fn line_text(line: Line, ip: Ipv4Prefix) -> Seq<char> {
    match line {
        Line::OpenVpn(metric) => "route "@ + ip.addr().text() + " "@ + ip.netmask().text()
            + " net_gateway "@ + decimal(metric as nat),
        Line::LinuxUp | Line::AndroidUp => "route add -net "@ + ip.addr().text() + " netmask "@
            + ip.netmask().text() + " gw $OLDGW"@,
        Line::LinuxDown | Line::AndroidDown => "route del -net "@ + ip.addr().text()
            + " netmask "@ + ip.netmask().text(),
        Line::MacUp => "route add "@ + ip.text() + " \"${OLDGW}\""@,
        Line::MacDown => "route delete "@ + ip.text() + " ${OLDGW}"@,
        Line::WindowsUp(metric) => "route add "@ + ip.addr().text() + " mask "@
            + ip.netmask().text() + " %gw% metric "@ + decimal(metric as nat),
        Line::WindowsDown => "route delete "@ + ip.addr().text(),
    }
}

/// The lines of the given kind for the networks `ips`, in their order, with
/// a line feed between one line and the next and none at the end.
pub open spec fn lines_text(line: Line, ips: Seq<Ipv4Prefix>) -> Seq<char>
    decreases ips.len(),
{
    if ips.len() == 0 {
        Seq::empty()
    } else if ips.len() == 1 {
        line_text(line, ips[0])
    } else {
        lines_text(line, ips.drop_last()) + seq!['\n'] + line_text(line, ips.last())
    }
}

/// The IPv4 networks among `prefixes`, in their order.
pub open spec fn ipv4_only(prefixes: Seq<Prefix>) -> Seq<Ipv4Prefix>
    decreases prefixes.len(),
{
    if prefixes.len() == 0 {
        Seq::empty()
    } else {
        match prefixes.last() {
            Prefix::V4(ip) => ipv4_only(prefixes.drop_last()).push(ip),
            Prefix::V6(_) => ipv4_only(prefixes.drop_last()),
        }
    }
}

/// Picks the IPv4 networks out of `prefixes`. The scripts are written for
/// IPv4 routes only.
pub fn ipv4_prefixes(prefixes: &[Prefix]) -> (ips: Vec<Ipv4Prefix>)
    ensures
        ips@ == ipv4_only(prefixes@),
{
    let mut ips: Vec<Ipv4Prefix> = Vec::new();
    let mut i: usize = 0;
    while i < prefixes.len()
        invariant
            i <= prefixes@.len(),
            ips@ == ipv4_only(prefixes@.take(i as int)),
        decreases prefixes.len() - i,
    {
        proof {
            assert(prefixes@.take(i + 1).drop_last() == prefixes@.take(i as int));
        }
        match prefixes[i] {
            Prefix::V4(ip) => {
                ips.push(ip);
            },
            Prefix::V6(_) => {},
        }
        i += 1;
    }
    proof {
        assert(prefixes@.take(prefixes@.len() as int) == prefixes@);
    }
    ips
}

/// Appends the line of the given kind for the network `ip` to `out`.
pub fn push_line(out: &mut String, line: Line, ip: &Ipv4Prefix)
    ensures
        final(out)@ == old(out)@ + line_text(line, *ip),
{
    match line {
        Line::OpenVpn(metric) => {
            out.append("route ");
            ip.addr().push_text(out);
            out.append(" ");
            ip.netmask().push_text(out);
            out.append(" net_gateway ");
            push_decimal(out, metric as u64);
        },
        Line::LinuxUp | Line::AndroidUp => {
            out.append("route add -net ");
            ip.addr().push_text(out);
            out.append(" netmask ");
            ip.netmask().push_text(out);
            out.append(" gw $OLDGW");
        },
        Line::LinuxDown | Line::AndroidDown => {
            out.append("route del -net ");
            ip.addr().push_text(out);
            out.append(" netmask ");
            ip.netmask().push_text(out);
        },
        Line::MacUp => {
            out.append("route add ");
            ip.push_text(out);
            out.append(" \"${OLDGW}\"");
        },
        Line::MacDown => {
            out.append("route delete ");
            ip.push_text(out);
            out.append(" ${OLDGW}");
        },
        Line::WindowsUp(metric) => {
            out.append("route add ");
            ip.addr().push_text(out);
            out.append(" mask ");
            ip.netmask().push_text(out);
            out.append(" %gw% metric ");
            push_decimal(out, metric as u64);
        },
        Line::WindowsDown => {
            out.append("route delete ");
            ip.addr().push_text(out);
        },
    }
}

/// Appends the lines of the given kind for the networks `ips` to `out`.
pub fn push_lines(out: &mut String, line: Line, ips: &[Ipv4Prefix])
    ensures
        final(out)@ == old(out)@ + lines_text(line, ips@),
{
    let mut i: usize = 0;
    while i < ips.len()
        invariant
            i <= ips@.len(),
            out@ == old(out)@ + lines_text(line, ips@.take(i as int)),
        decreases ips.len() - i,
    {
        proof {
            assert(ips@.take(i + 1).drop_last() == ips@.take(i as int));
        }
        if i > 0 {
            out.push('\n');
        }
        push_line(out, line, &ips[i]);
        i += 1;
    }
    proof {
        assert(ips@.take(ips@.len() as int) == ips@);
    }
}

/// A text that begins with `header` and goes on with the lines of the
/// given kind for the networks `ips`.
pub fn script(header: &str, line: Line, ips: &[Ipv4Prefix]) -> (text: String)
    ensures
        text@ == header@ + lines_text(line, ips@),
{
    let mut text = String::from_str(header);
    push_lines(&mut text, line, ips);
    text
}

/// The lines for an OpenVPN configuration: one `route` directive for each
/// network, through `net_gateway` and with the given metric.
pub fn export_openvpn(ips: &[Ipv4Prefix], metric: u32) -> (text: String)
    ensures
        text@ == lines_text(Line::OpenVpn(metric), ips@),
{
    let mut text = String::new();
    push_lines(&mut text, Line::OpenVpn(metric), ips);
    text
}

/// The two Linux scripts: one that adds a route for each network through
/// the gateway in use before, and one that removes them.
pub fn export_linux(ips: &[Ipv4Prefix]) -> (scripts: (String, Option<String>))
    ensures
        scripts.0@ == LINUX_UP_HEADER@ + lines_text(Line::LinuxUp, ips@),
        scripts.1 is Some,
        scripts.1->Some_0@ == LINUX_DOWN_HEADER@ + lines_text(Line::LinuxDown, ips@),
{
    let up = script(LINUX_UP_HEADER, Line::LinuxUp, ips);
    let down = script(LINUX_DOWN_HEADER, Line::LinuxDown, ips);
    (up, Some(down))
}

/// The two macOS scripts.
pub fn export_mac(ips: &[Ipv4Prefix]) -> (scripts: (String, Option<String>))
    ensures
        scripts.0@ == MAC_UP_HEADER@ + lines_text(Line::MacUp, ips@),
        scripts.1 is Some,
        scripts.1->Some_0@ == MAC_DOWN_HEADER@ + lines_text(Line::MacDown, ips@),
{
    let up = script(MAC_UP_HEADER, Line::MacUp, ips);
    let down = script(MAC_DOWN_HEADER, Line::MacDown, ips);
    (up, Some(down))
}

/// The two Windows batch files, with the given metric for the routes.
pub fn export_windows(ips: &[Ipv4Prefix], metric: u32) -> (scripts: (String, Option<String>))
    ensures
        scripts.0@ == WINDOWS_UP_HEADER@ + lines_text(Line::WindowsUp(metric), ips@),
        scripts.1 is Some,
        scripts.1->Some_0@ == WINDOWS_DOWN_HEADER@ + lines_text(Line::WindowsDown, ips@),
{
    let up = script(WINDOWS_UP_HEADER, Line::WindowsUp(metric), ips);
    let down = script(WINDOWS_DOWN_HEADER, Line::WindowsDown, ips);
    (up, Some(down))
}

/// The two Android scripts.
pub fn export_android(ips: &[Ipv4Prefix]) -> (scripts: (String, Option<String>))
    ensures
        scripts.0@ == ANDROID_UP_HEADER@ + lines_text(Line::AndroidUp, ips@),
        scripts.1 is Some,
        scripts.1->Some_0@ == ANDROID_DOWN_HEADER@ + lines_text(Line::AndroidDown, ips@),
{
    let up = script(ANDROID_UP_HEADER, Line::AndroidUp, ips);
    let down = script(ANDROID_DOWN_HEADER, Line::AndroidDown, ips);
    (up, Some(down))
}

/// The text that adds the routes for `target`.
pub open spec fn up_text(target: Target, ips: Seq<Ipv4Prefix>) -> Seq<char> {
    match target {
        Target::OpenVPN(metric) => lines_text(Line::OpenVpn(metric), ips),
        Target::Linux => LINUX_UP_HEADER@ + lines_text(Line::LinuxUp, ips),
        Target::Mac => MAC_UP_HEADER@ + lines_text(Line::MacUp, ips),
        Target::Windows(metric) => WINDOWS_UP_HEADER@ + lines_text(Line::WindowsUp(metric), ips),
        Target::Android => ANDROID_UP_HEADER@ + lines_text(Line::AndroidUp, ips),
    }
}

/// The text that removes the routes for `target`. An OpenVPN configuration
/// has none.
pub open spec fn down_text(target: Target, ips: Seq<Ipv4Prefix>) -> Option<Seq<char>> {
    match target {
        Target::OpenVPN(_) => None,
        Target::Linux => Some(LINUX_DOWN_HEADER@ + lines_text(Line::LinuxDown, ips)),
        Target::Mac => Some(MAC_DOWN_HEADER@ + lines_text(Line::MacDown, ips)),
        Target::Windows(_) => Some(WINDOWS_DOWN_HEADER@ + lines_text(Line::WindowsDown, ips)),
        Target::Android => Some(ANDROID_DOWN_HEADER@ + lines_text(Line::AndroidDown, ips)),
    }
}

/// The target that a name stands for. The targets that take a metric get
/// the metric one.
pub open spec fn target_named(name: Seq<char>) -> Option<Target> {
    if name == "openvpn"@ {
        Some(Target::OpenVPN(1))
    } else if name == "linux"@ {
        Some(Target::Linux)
    } else if name == "mac"@ {
        Some(Target::Mac)
    } else if name == "windows"@ {
        Some(Target::Windows(1))
    } else if name == "android"@ {
        Some(Target::Android)
    } else {
        None
    }
}

/// The file that takes the lines for an OpenVPN configuration.
pub const OPENVPN_FILE: &'static str = "openvpn_conf.txt";

/// The name of the file for the script that adds the routes.
pub open spec fn up_file(target: Target) -> Seq<char> {
    match target {
        Target::OpenVPN(_) => OPENVPN_FILE@,
        Target::Windows(_) => "up.bat"@,
        _ => "up.sh"@,
    }
}

/// The name of the file for the script that removes the routes.
pub open spec fn down_file(target: Target) -> Seq<char> {
    match target {
        Target::Windows(_) => "down.bat"@,
        _ => "down.sh"@,
    }
}

/// A file to be written: its name and its content.
#[derive(Debug, PartialEq, Eq)]
pub struct ExportFile {
    pub name: String,
    pub content: String,
}

impl Target {
    /// The target that `s` names: one of `openvpn`, `linux`, `mac`,
    /// `windows` and `android`.
    pub fn from_str(s: &str) -> (r: Result<Target, Error>)
        ensures
            match target_named(s@) {
                Some(target) => r == Ok::<Target, Error>(target),
                None => r == Err::<Target, Error>(Error::InvalidTarget),
            },
    {
        if str_equal(s, "openvpn") {
            Ok(Target::OpenVPN(1))
        } else if str_equal(s, "linux") {
            Ok(Target::Linux)
        } else if str_equal(s, "mac") {
            Ok(Target::Mac)
        } else if str_equal(s, "windows") {
            Ok(Target::Windows(1))
        } else if str_equal(s, "android") {
            Ok(Target::Android)
        } else {
            Err(Error::InvalidTarget)
        }
    }

    /// Export config string/scripts of the target.
    ///
    /// `source_ips` is what the source of prefixes gave: its failure is
    /// handed on as it is. For OpenVPN the text is to be appended to the
    /// configuration file and there is no second text. For the others the
    /// two texts are the script that adds the routes and the script that
    /// removes them. Only the IPv4 prefixes are written out.
    pub fn export_str(&self, source_ips: Result<Vec<Prefix>, Error>) -> (r: Result<
        (String, Option<String>),
        Error,
    >)
        ensures
            match source_ips {
                Err(e) => r == Err::<(String, Option<String>), Error>(e),
                Ok(prefixes) => {
                    &&& r is Ok
                    &&& r->Ok_0.0@ == up_text(*self, ipv4_only(prefixes@))
                    &&& match down_text(*self, ipv4_only(prefixes@)) {
                        Some(text) => r->Ok_0.1 is Some && r->Ok_0.1->Some_0@ == text,
                        None => r->Ok_0.1 is None,
                    }
                },
            },
    {
        let prefixes = match source_ips {
            Err(e) => {
                return Err(e);
            },
            Ok(prefixes) => prefixes,
        };
        let ips = ipv4_prefixes(prefixes.as_slice());
        match self {
            Target::OpenVPN(metric) => Ok((export_openvpn(ips.as_slice(), *metric), None)),
            Target::Linux => Ok(export_linux(ips.as_slice())),
            Target::Mac => Ok(export_mac(ips.as_slice())),
            Target::Windows(metric) => Ok(export_windows(ips.as_slice(), *metric)),
            Target::Android => Ok(export_android(ips.as_slice())),
        }
    }
    /// The files that hold the scripts of the target, to be written to the
    /// current directory: the OpenVPN lines in one file, and for the others
    /// the script that adds the routes and then the script that removes
    /// them, as batch files for Windows and as shell scripts elsewhere. A
    /// failure of the source is handed on as it is.
    pub fn export_file(&self, source_ips: Result<Vec<Prefix>, Error>) -> (r: Result<
        Vec<ExportFile>,
        Error,
    >)
        ensures
            match source_ips {
                Err(e) => r == Err::<Vec<ExportFile>, Error>(e),
                Ok(prefixes) => {
                    &&& r is Ok
                    &&& r->Ok_0@.len() >= 1
                    &&& r->Ok_0@[0].name@ == up_file(*self)
                    &&& r->Ok_0@[0].content@ == up_text(*self, ipv4_only(prefixes@))
                    &&& match down_text(*self, ipv4_only(prefixes@)) {
                        Some(text) => {
                            &&& r->Ok_0@.len() == 2
                            &&& r->Ok_0@[1].name@ == down_file(*self)
                            &&& r->Ok_0@[1].content@ == text
                        },
                        None => r->Ok_0@.len() == 1,
                    }
                },
            },
    {
        let (up, down) = match self.export_str(source_ips) {
            Err(e) => {
                return Err(e);
            },
            Ok(scripts) => scripts,
        };
        let windows = match self {
            Target::Windows(_) => true,
            _ => false,
        };
        let up_name = match self {
            Target::OpenVPN(_) => String::from_str(OPENVPN_FILE),
            _ => if windows {
                String::from_str("up.bat")
            } else {
                String::from_str("up.sh")
            },
        };
        let mut files: Vec<ExportFile> = Vec::new();
        files.push(ExportFile { name: up_name, content: up });
        match down {
            Some(down) => {
                let down_name = if windows {
                    String::from_str("down.bat")
                } else {
                    String::from_str("down.sh")
                };
                files.push(ExportFile { name: down_name, content: down });
            },
            None => {},
        }
        Ok(files)
    }
}

} // verus!
