use ssh_session::config::SshConfig;
use ssh_session::errors::ChannelError;
use ssh_session::negotiate::{advance, default_pty_request, initial_state, NegotiationState};
use ssh_session::text::u16_to_dec;

#[test]
fn negotiation_succeeds_in_fixed_order() {
    let s0 = initial_state();
    assert_eq!(s0, NegotiationState::NeedOpen);
    let s1 = advance(s0, Ok(())).expect("open");
    assert_eq!(s1, NegotiationState::NeedPty);
    let s2 = advance(s1, Ok(())).expect("pty");
    assert_eq!(s2, NegotiationState::NeedShell);
    let s3 = advance(s2, Ok(())).expect("shell");
    assert_eq!(s3, NegotiationState::Ready);
}

#[test]
fn open_failure_stops_negotiation() {
    let r = advance(NegotiationState::NeedOpen, Err("boom".to_string()));
    match r {
        Err(ChannelError::Open(c)) => assert_eq!(c, "boom"),
        _ => panic!("expected the open-step error"),
    }
}

#[test]
fn pty_failure_reports_its_own_step() {
    let r = advance(NegotiationState::NeedPty, Err("denied".to_string()));
    match r {
        Err(ChannelError::Pty(c)) => assert_eq!(c, "denied"),
        _ => panic!("expected the pty-step error"),
    }
}

#[test]
fn shell_failure_reports_its_own_step() {
    let r = advance(NegotiationState::NeedShell, Err("no shell".to_string()));
    match r {
        Err(ChannelError::Shell(c)) => assert_eq!(c, "no shell"),
        _ => panic!("expected the shell-step error"),
    }
}

#[test]
fn channel_error_messages_name_the_step() {
    assert_eq!(ChannelError::Open("a".to_string()).message(), "Channel Open Error: a");
    assert_eq!(ChannelError::Pty("b".to_string()).message(), "PTY Request Error: b");
    assert_eq!(ChannelError::Shell("c".to_string()).message(), "Shell Request Error: c");
}

#[test]
fn pty_request_uses_fixed_geometry() {
    let p = default_pty_request();
    assert!(p.want_reply);
    assert_eq!(p.term.as_str(), "xterm");
    assert_eq!(p.col_width, 80);
    assert_eq!(p.row_height, 24);
    assert_eq!(p.pix_width, 0);
    assert_eq!(p.pix_height, 0);
}

#[test]
fn endpoint_and_timeout_defaults() {
    let c = SshConfig {
        host: "example".to_string(),
        port: 2222,
        username: "u".to_string(),
        password: None,
        private_key: None,
        passphrase: None,
        connect_timeout: None,
    };
    assert_eq!(c.endpoint().as_str(), "example:2222");
    assert_eq!(c.effective_timeout(), 10);
    let c2 = SshConfig { connect_timeout: Some(3), ..c };
    assert_eq!(c2.effective_timeout(), 3);
}

#[test]
fn decimal_rendering_is_exact() {
    assert_eq!(u16_to_dec(0).as_str(), "0");
    assert_eq!(u16_to_dec(7).as_str(), "7");
    assert_eq!(u16_to_dec(22).as_str(), "22");
    assert_eq!(u16_to_dec(8080).as_str(), "8080");
    assert_eq!(u16_to_dec(65535).as_str(), "65535");
}

#[test]
fn key_usability_requires_nonblank_text() {
    let base = SshConfig {
        host: "h".to_string(),
        port: 22,
        username: "u".to_string(),
        password: None,
        private_key: None,
        passphrase: None,
        connect_timeout: None,
    };
    assert!(!base.key_is_usable());
    let blank = SshConfig { private_key: Some(" \t\r\n ".to_string()), ..base };
    assert!(!blank.key_is_usable());
    let usable = SshConfig { private_key: Some("x".to_string()), ..blank };
    assert!(usable.key_is_usable());
}
