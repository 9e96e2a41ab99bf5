use rbox_core::connector::{
    auth_kind_of, AuthKind, ConnectAction, ConnectError, ConnectFlow, ConnectStage, StepOutcome,
};
use rbox_core::digest::md5_string;
use rbox_core::exec::{decode_output, shape_output, split_output_lines, ExecOutput};
use rbox_core::images::get_image_file_name;
use rbox_core::jsonp::{generate_jsonp_content, jsonp_wrap};
use rbox_core::server::{
    check_start_static_server, get_server_config, is_server_running,
    mark_static_server_started, set_server_config, stop_static_server, unset_server_config,
    ServerConfig, ServerError,
};

fn run_flow(auth_type: &str) -> Vec<ConnectAction> {
    let mut flow = ConnectFlow::new(auth_type);
    let mut seen = Vec::new();
    loop {
        let a = flow.action();
        seen.push(a);
        if a == ConnectAction::Finished {
            break;
        }
        assert!(flow.record(StepOutcome::Succeeded).is_ok());
    }
    seen
}

#[test]
fn password_flow_order() {
    assert_eq!(auth_kind_of("password"), AuthKind::Password);
    assert_eq!(auth_kind_of("key"), AuthKind::PublicKeyFile);
    assert_eq!(auth_kind_of("Password"), AuthKind::PublicKeyFile);
    assert_eq!(
        run_flow("password"),
        vec![
            ConnectAction::Handshake,
            ConnectAction::QueryAuthMethods,
            ConnectAction::PasswordAuth,
            ConnectAction::CheckAuthenticated,
            ConnectAction::Finished
        ]
    );
    assert_eq!(run_flow("/home/u/.ssh/id_rsa")[2], ConnectAction::PubkeyAuth);
}

#[test]
fn failed_step_names_its_stage() {
    let mut flow = ConnectFlow::new("password");
    assert!(flow.record(StepOutcome::Succeeded).is_ok());
    let err = flow.record(StepOutcome::Failed("timed out".to_string())).err().unwrap();
    assert_eq!(err.stage, ConnectStage::AuthMethods);
    assert_eq!(err.message().as_str(), "auth root error :timed out");
    let mut flow = ConnectFlow::new("key");
    let err = flow.record(StepOutcome::Failed("bad banner".to_string())).err().unwrap();
    assert_eq!(err.message().as_str(), "handshake error:bad banner");
    let mut flow = ConnectFlow::new("password");
    for _ in 0..2 {
        assert!(flow.record(StepOutcome::Succeeded).is_ok());
    }
    let err = flow.record(StepOutcome::Failed("denied".to_string())).err().unwrap();
    assert_eq!(err.message().as_str(), "userauth_password error :denied");
    let e = ConnectError { stage: ConnectStage::Connect, detail: "refused".to_string() };
    assert_eq!(e.message().as_str(), "refused");
    let e = ConnectError { stage: ConnectStage::PostCheck, detail: String::new() };
    assert_eq!(e.message().as_str(), "authenticated wrong");
}

#[test]
fn exec_output_lines() {
    let lines = split_output_lines("a\nb c\n");
    assert_eq!(lines, vec!["a".to_string(), "b c".to_string(), String::new()]);
    assert_eq!(split_output_lines(""), vec![String::new()]);
    match shape_output("x\ny".to_string(), false) {
        ExecOutput::Text(t) => assert_eq!(t.as_str(), "x\ny"),
        ExecOutput::Lines(_) => panic!("expected text"),
    }
    match decode_output(&[b'o', b'k', 0xff, b'\n', b'z'], true) {
        ExecOutput::Lines(v) => {
            assert_eq!(v, vec!["ok\u{FFFD}".to_string(), "z".to_string()]);
        }
        ExecOutput::Text(_) => panic!("expected lines"),
    }
}

#[test]
fn image_file_names() {
    assert_eq!(get_image_file_name("nginx:latest").as_str(), "nginx.tar");
    assert_eq!(get_image_file_name("registry/app:1.2:x").as_str(), "registry/app.tar");
    assert_eq!(get_image_file_name("plain").as_str(), "plain.tar");
    assert_eq!(get_image_file_name("").as_str(), ".tar");
}

#[test]
fn jsonp_scripts() {
    assert_eq!(
        generate_jsonp_content("image/png", b"abc", "h1").as_str(),
        "window[\"jsonp_h1\"] && window[\"jsonp_h1\"](\"data:image/png;base64,YWJj\")"
    );
    assert_eq!(
        generate_jsonp_content("image/jpg", b"a", "z").as_str(),
        "window[\"jsonp_z\"] && window[\"jsonp_z\"](\"data:image/jpeg;base64,YQ==\")"
    );
    assert_eq!(
        generate_jsonp_content("text/plain", b"", "q").as_str(),
        "window['jsonp_q'] && window['jsonp_q'](\"data:application/octet-stream;base64,\")"
    );
    assert_eq!(
        jsonp_wrap("image/jpeg", "AA==", "k").as_str(),
        "window[\"jsonp_k\"] && window[\"jsonp_k\"](\"data:image/jpeg;base64,AA==\")"
    );
}

#[test]
fn md5_hex_digests() {
    assert_eq!(md5_string("").as_str(), "d41d8cd98f00b204e9800998ecf8427e");
    assert_eq!(md5_string("abc").as_str(), "900150983cd24fb0d6963f7d28e17f72");
}

#[test]
fn static_server_settings() {
    let mut cfg = ServerConfig::new();
    assert!(!is_server_running(&cfg));
    assert_eq!(stop_static_server(&mut cfg), Err(ServerError::NotRunning));
    assert_eq!(ServerError::NotRunning.message(), "web server not running");
    assert_eq!(check_start_static_server(&cfg), Ok(()));
    mark_static_server_started(&mut cfg, "/srv".to_string(), 8080);
    assert_eq!(get_server_config(&cfg), ("/srv".to_string(), 8080, 1));
    assert_eq!(check_start_static_server(&cfg), Err(ServerError::AlreadyRunning));
    assert_eq!(stop_static_server(&mut cfg), Ok(()));
    assert_eq!(get_server_config(&cfg), (String::new(), 0, 0));
    set_server_config(&mut cfg, "/a".to_string(), 1, 5);
    assert!(is_server_running(&cfg));
    unset_server_config(&mut cfg);
    assert!(!is_server_running(&cfg));
}
