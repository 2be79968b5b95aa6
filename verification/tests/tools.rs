use rust_ai_agent::parser::DefenseAction;
use rust_ai_agent::tools::{
    execute_defense, firewall_args, firewall_success_message, is_ip_whitelisted, unblock_ip,
    DefenseError, DefenseStep, FirewallCommand,
};

#[test]
fn whitelist_holds_loopback_and_gateway() {
    assert!(is_ip_whitelisted("127.0.0.1"));
    assert!(is_ip_whitelisted("::1"));
    assert!(is_ip_whitelisted("10.0.0.1"));
    assert!(!is_ip_whitelisted("10.0.0.2"));
}

#[test]
fn pass_needs_nothing() {
    assert_eq!(
        execute_defense(&DefenseAction::Pass, false, true),
        Ok(DefenseStep::Done("PASS — IP не заблокирован".to_owned()))
    );
}

#[test]
fn whitelisted_ip_is_never_blocked() {
    let r = execute_defense(&DefenseAction::BlockIp("127.0.0.1".to_owned()), false, true);
    assert_eq!(
        r,
        Ok(DefenseStep::Done(
            "WHITELIST — IP 127.0.0.1 в белом списке, блокировка отклонена".to_owned()
        ))
    );
}

#[test]
fn invalid_ip_is_refused() {
    let r = execute_defense(&DefenseAction::BlockIp("999.1.1.1".to_owned()), false, false);
    assert_eq!(r, Err(DefenseError::InvalidIp("999.1.1.1".to_owned())));
    assert_eq!(unblock_ip("x", true, false), Err(DefenseError::InvalidIp("x".to_owned())));
}

#[test]
fn dry_run_only_reports() {
    let r = execute_defense(&DefenseAction::BlockIp("8.8.8.8".to_owned()), true, true);
    assert_eq!(
        r,
        Ok(DefenseStep::Done("DRY-RUN — IP 8.8.8.8 был бы заблокирован (iptables не вызван)".to_owned()))
    );
    assert_eq!(
        unblock_ip("8.8.8.8", true, true),
        Ok(DefenseStep::Done("DRY-RUN — IP 8.8.8.8 был бы разблокирован".to_owned()))
    );
}

#[test]
fn live_run_asks_the_firewall() {
    let r = execute_defense(&DefenseAction::BlockIp("8.8.8.8".to_owned()), false, true);
    let cmd = FirewallCommand::Block("8.8.8.8".to_owned());
    assert_eq!(r, Ok(DefenseStep::Firewall(cmd.clone())));
    assert_eq!(firewall_args(&cmd), vec!["-A", "INPUT", "-s", "8.8.8.8", "-j", "DROP"]);
    assert_eq!(firewall_success_message(&cmd), "BLOCKED — IP 8.8.8.8 заблокирован через iptables");
    let un = FirewallCommand::Unblock("8.8.8.8".to_owned());
    assert_eq!(unblock_ip("8.8.8.8", false, true), Ok(DefenseStep::Firewall(un.clone())));
    assert_eq!(firewall_args(&un), vec!["-D", "INPUT", "-s", "8.8.8.8", "-j", "DROP"]);
    assert_eq!(firewall_success_message(&un), "UNBLOCKED — IP 8.8.8.8 разблокирован");
}
