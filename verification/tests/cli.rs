use sledge::backend::{BackendError, InputBackend};
use sledge::cli::{choose_config_path, Cli, Command, RunArgs, ValidateArgs};
use sledge::ipc::{
    reload_reply, reload_response, status_report, status_reply, yn, Response, StatusPayload, StatusPermissions,
};
use sledge::linux::LinuxBackend;
use sledge::text::{decimal_string, str_eq};
use sledge::windows::WindowsBackend;

#[test]
fn missing_subcommand_runs_the_daemon() {
    let mut cli = Cli {
        config: Some("/c".into()),
        socket: None,
        command: None,
    };
    assert!(matches!(cli.take_command(), Command::Run(RunArgs { stdout_logs: false })));
    let mut cli = Cli {
        config: None,
        socket: None,
        command: Some(Command::Validate(ValidateArgs { path: "p".into() })),
    };
    assert!(matches!(cli.take_command(), Command::Validate(ValidateArgs { path }) if path == "p"));
    assert!(cli.command.is_none());
}

#[test]
fn config_path_precedence() {
    let s = |x: &str| Some(x.to_string());
    assert_eq!(choose_config_path(s("cli"), s("env"), s("def")), s("cli"));
    assert_eq!(choose_config_path(None, s("env"), s("def")), s("env"));
    assert_eq!(choose_config_path(None, None, s("def")), s("def"));
    assert_eq!(choose_config_path(None, None, None), None);
}

fn payload() -> StatusPayload {
    StatusPayload {
        version: "0.1.0".into(),
        rules_loaded: 3,
        uptime_secs: 9,
        focused_app: None,
        permissions: StatusPermissions {
            accessibility: true,
            input_monitoring: false,
        },
    }
}

#[test]
fn reply_interpretation() {
    assert!(matches!(reload_response(Ok(())), Response::Reloaded));
    assert!(matches!(reload_response(Err("bad".into())), Response::Error { message } if message == "bad"));
    assert_eq!(status_reply(Response::Status(payload())).unwrap().rules_loaded, 3);
    assert_eq!(
        status_reply(Response::Error { message: "x".into() }).unwrap_err(),
        "daemon error: x"
    );
    assert_eq!(status_reply(Response::Reloaded).unwrap_err(), "unexpected response");
    assert!(reload_reply(Response::Reloaded).is_ok());
    assert_eq!(
        reload_reply(Response::Error { message: "y".into() }).unwrap_err(),
        "reload failed: y"
    );
    assert_eq!(reload_reply(Response::Status(payload())).unwrap_err(), "unexpected response");
    assert_eq!(yn(true), "yes");
    assert_eq!(yn(false), "NO");
}

#[test]
fn placeholder_backends_refuse() {
    let mut l = LinuxBackend::new();
    assert_eq!(
        l.inject(&sledge::action::Action::SetInputSource { id: "x".into() }),
        Err(BackendError::Other("sledge_linux backend is not yet implemented".into()))
    );
    let w = WindowsBackend::default();
    assert_eq!(
        w.inject(&sledge::action::Action::SetInputSource { id: "x".into() }),
        Err(BackendError::Other("sledge_windows backend is not yet implemented".into()))
    );
    struct Sink;
    impl sledge::backend::EventSink for Sink {
        fn on_event(
            &mut self,
            _event: sledge::event::KeyEvent,
            _focused_app: Option<&str>,
        ) -> sledge::backend::BackendVerdict {
            sledge::backend::BackendVerdict::Pass
        }
    }
    assert!(l.run(Box::new(Sink)).is_err());
}

#[test]
fn text_helpers() {
    assert!(str_eq("abc", "abc"));
    assert!(!str_eq("abc", "abd"));
    assert!(!str_eq("ab", "abc"));
    assert!(str_eq("", ""));
    assert!(str_eq("élan", "élan"));
    assert_eq!(decimal_string(0), "0");
    assert_eq!(decimal_string(42), "42");
    assert_eq!(decimal_string(-7), "-7");
    assert_eq!(decimal_string(i32::MAX), "2147483647");
}

#[test]
fn status_report_lines() {
    assert_eq!(
        status_report(&payload()),
        vec![
            "sledge 0.1.0",
            "  uptime         : 9s",
            "  rules loaded   : 3",
            "  focused app    : <unknown>",
            "  accessibility  : yes",
            "  input monitor  : NO",
        ]
    );
    let mut p = payload();
    p.focused_app = Some("com.mitchellh.ghostty".into());
    p.uptime_secs = 86_400;
    assert_eq!(status_report(&p)[1], "  uptime         : 86400s");
    assert_eq!(status_report(&p)[3], "  focused app    : com.mitchellh.ghostty");
}
