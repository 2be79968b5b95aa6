//! Defense decisions: the whitelist, dry runs, and the firewall rule that
//! blocking or unblocking an IP calls for.
use vstd::prelude::*;
use crate::parser::DefenseAction;
use crate::text::str_eq;

verus! {

/// IPs that are never blocked.
pub open spec fn is_whitelisted(ip: Seq<char>) -> bool {
    ip == "127.0.0.1"@ || ip == "::1"@ || ip == "10.0.0.1"@
}

/// Whether `ip` is on the whitelist.
pub fn is_ip_whitelisted(ip: &str) -> (r: bool)
    ensures
        r == is_whitelisted(ip@),
{
    str_eq(ip, "127.0.0.1") || str_eq(ip, "::1") || str_eq(ip, "10.0.0.1")
}

/// A firewall rule change: append or delete the rule dropping all input
/// from an IP.
#[derive(Debug, Clone, PartialEq, Eq)]
pub enum FirewallCommand {
    Block(String),
    Unblock(String),
}

/// What carrying out a defense action leaves to do.
#[derive(Debug, Clone, PartialEq, Eq)]
pub enum DefenseStep {
    /// Nothing to run; the outcome is this message.
    Done(String),
    /// Run this firewall command; its success message is
    /// [`firewall_success_message`].
    Firewall(FirewallCommand),
}

/// Why a defense action was refused.
#[derive(Debug, Clone, PartialEq, Eq)]
pub enum DefenseError {
    /// The IP is not an IPv4 or IPv6 address.
    InvalidIp(String),
}

pub open spec fn pass_message() -> Seq<char> {
    "PASS — IP не заблокирован"@
}

pub open spec fn whitelist_message(ip: Seq<char>) -> Seq<char> {
    "WHITELIST — IP "@ + ip + " в белом списке, блокировка отклонена"@
}

pub open spec fn dry_run_block_message(ip: Seq<char>) -> Seq<char> {
    "DRY-RUN — IP "@ + ip + " был бы заблокирован (iptables не вызван)"@
}

pub open spec fn dry_run_unblock_message(ip: Seq<char>) -> Seq<char> {
    "DRY-RUN — IP "@ + ip + " был бы разблокирован"@
}

pub open spec fn blocked_message(ip: Seq<char>) -> Seq<char> {
    "BLOCKED — IP "@ + ip + " заблокирован через iptables"@
}

pub open spec fn unblocked_message(ip: Seq<char>) -> Seq<char> {
    "UNBLOCKED — IP "@ + ip + " разблокирован"@
}

/// The outcome of a defense action, given whether the IP it names is a valid
/// address: passing needs nothing; a whitelisted IP is never blocked; an
/// invalid IP is refused; a dry run only reports; otherwise the firewall
/// gets a blocking rule.
pub open spec fn spec_execute_defense(
    action: Option<Seq<char>>,
    dry_run: bool,
    ip_is_valid: bool,
) -> Result<Result<Seq<char>, Seq<char>>, Seq<char>> {
    match action {
        None => Ok(Ok(pass_message())),
        Some(ip) => if is_whitelisted(ip) {
            Ok(Ok(whitelist_message(ip)))
        } else if !ip_is_valid {
            Err(ip)
        } else if dry_run {
            Ok(Ok(dry_run_block_message(ip)))
        } else {
            Ok(Err(ip))
        },
    }
}

/// A step as a value: `Ok(message)` when done, `Err(ip)` for a blocking
/// rule on `ip`.
pub open spec fn block_step_view(s: DefenseStep) -> Result<Seq<char>, Seq<char>> {
    match s {
        DefenseStep::Done(m) => Ok(m@),
        DefenseStep::Firewall(FirewallCommand::Block(ip)) => Err(ip@),
        DefenseStep::Firewall(FirewallCommand::Unblock(ip)) => Err(ip@),
    }
}

fn message_with_ip(prefix: &str, ip: &str, suffix: &str) -> (m: String)
    ensures
        m@ == prefix@ + ip@ + suffix@,
{
    let mut m = String::new();
    m.append(prefix);
    m.append(ip);
    m.append(suffix);
    assert(m@ =~= prefix@ + ip@ + suffix@);
    m
}

/// Decides how to carry out `action`. `ip_is_valid` tells whether the IP of
/// a blocking action parses as an IPv4 or IPv6 address.
pub fn execute_defense(action: &DefenseAction, dry_run: bool, ip_is_valid: bool) -> (r: Result<
    DefenseStep,
    DefenseError,
>)
    ensures
        match (r, spec_execute_defense(crate::parser::blocked_ip(*action), dry_run, ip_is_valid)) {
            (Ok(step), Ok(expected)) => block_step_view(step) == expected && !(step matches DefenseStep::Firewall(FirewallCommand::Unblock(_))),
            (Err(DefenseError::InvalidIp(ip)), Err(expected)) => ip@ == expected,
            _ => false,
        },
{
    match action {
        DefenseAction::Pass => Ok(DefenseStep::Done("PASS — IP не заблокирован".to_owned())),
        DefenseAction::BlockIp(ip) => {
            if is_ip_whitelisted(ip.as_str()) {
                return Ok(
                    DefenseStep::Done(
                        message_with_ip(
                            "WHITELIST — IP ",
                            ip.as_str(),
                            " в белом списке, блокировка отклонена",
                        ),
                    ),
                );
            }
            if !ip_is_valid {
                return Err(DefenseError::InvalidIp(ip.clone()));
            }
            if dry_run {
                return Ok(
                    DefenseStep::Done(
                        message_with_ip(
                            "DRY-RUN — IP ",
                            ip.as_str(),
                            " был бы заблокирован (iptables не вызван)",
                        ),
                    ),
                );
            }
            Ok(DefenseStep::Firewall(FirewallCommand::Block(ip.clone())))
        },
    }
}

/// Decides how to lift the block on `ip`; `ip_is_valid` tells whether it
/// parses as an IPv4 or IPv6 address.
pub fn unblock_ip(ip: &str, dry_run: bool, ip_is_valid: bool) -> (r: Result<
    DefenseStep,
    DefenseError,
>)
    ensures
        !ip_is_valid ==> (r matches Err(DefenseError::InvalidIp(e)) && e@ == ip@),
        ip_is_valid && dry_run ==> (r matches Ok(DefenseStep::Done(m)) && m@
            == dry_run_unblock_message(ip@)),
        ip_is_valid && !dry_run ==> (r matches Ok(
            DefenseStep::Firewall(FirewallCommand::Unblock(u)),
        ) && u@ == ip@),
{
    if !ip_is_valid {
        return Err(DefenseError::InvalidIp(ip.to_owned()));
    }
    if dry_run {
        return Ok(DefenseStep::Done(message_with_ip("DRY-RUN — IP ", ip, " был бы разблокирован")));
    }
    Ok(DefenseStep::Firewall(FirewallCommand::Unblock(ip.to_owned())))
}

/// The `iptables` arguments for a command: append (`-A`) or delete (`-D`)
/// the rule `INPUT -s <ip> -j DROP`.
pub open spec fn spec_firewall_args(cmd: FirewallCommand) -> Seq<Seq<char>> {
    match cmd {
        FirewallCommand::Block(ip) => seq!["-A"@, "INPUT"@, "-s"@, ip@, "-j"@, "DROP"@],
        FirewallCommand::Unblock(ip) => seq!["-D"@, "INPUT"@, "-s"@, ip@, "-j"@, "DROP"@],
    }
}

/// The `iptables` arguments for `cmd`.
pub fn firewall_args(cmd: &FirewallCommand) -> (args: Vec<String>)
    ensures
        crate::memory::strings_view(args@) == spec_firewall_args(*cmd),
{
    let (flag, ip) = match cmd {
        FirewallCommand::Block(ip) => ("-A", ip),
        FirewallCommand::Unblock(ip) => ("-D", ip),
    };
    let mut args: Vec<String> = Vec::new();
    args.push(flag.to_owned());
    args.push("INPUT".to_owned());
    args.push("-s".to_owned());
    args.push(ip.clone());
    args.push("-j".to_owned());
    args.push("DROP".to_owned());
    assert(crate::memory::strings_view(args@) =~= spec_firewall_args(*cmd));
    args
}

/// The message once `cmd` has run successfully.
pub fn firewall_success_message(cmd: &FirewallCommand) -> (m: String)
    ensures
        m@ == match *cmd {
            FirewallCommand::Block(ip) => blocked_message(ip@),
            FirewallCommand::Unblock(ip) => unblocked_message(ip@),
        },
{
    match cmd {
        FirewallCommand::Block(ip) => message_with_ip(
            "BLOCKED — IP ",
            ip.as_str(),
            " заблокирован через iptables",
        ),
        FirewallCommand::Unblock(ip) => message_with_ip(
            "UNBLOCKED — IP ",
            ip.as_str(),
            " разблокирован",
        ),
    }
}

/// Law: a whitelisted IP is never handed to the firewall, whatever the
/// verdict, the mode, or the address check say.
pub proof fn law_whitelist_never_blocked(ip: Seq<char>, dry_run: bool, ip_is_valid: bool)
    requires
        is_whitelisted(ip),
    ensures
        spec_execute_defense(Some(ip), dry_run, ip_is_valid) matches Ok(Ok(m)) && m
            == whitelist_message(ip),
{
}

/// Law: a dry run never reaches the firewall.
pub proof fn law_dry_run_never_blocks(action: Option<Seq<char>>, ip_is_valid: bool)
    ensures
        !(spec_execute_defense(action, true, ip_is_valid) matches Ok(Err(_))),
{
}

/// Law: only 127.0.0.1, ::1 and 10.0.0.1 are spared. A blocking verdict on
/// any other valid address, outside a dry run, goes to the firewall as a
/// blocking rule for exactly that address.
pub proof fn law_only_listed_addresses_are_spared(ip: Seq<char>)
    ensures
        is_whitelisted(ip) <==> (ip == "127.0.0.1"@ || ip == "::1"@ || ip == "10.0.0.1"@),
        ip != "127.0.0.1"@ && ip != "::1"@ && ip != "10.0.0.1"@ ==> spec_execute_defense(
            Some(ip),
            false,
            true,
        ) == Ok::<Result<Seq<char>, Seq<char>>, Seq<char>>(Err(ip)),
{
}

} // verus!
