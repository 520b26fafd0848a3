use pam::codes::{CredFlag, Error, Op, ResultCode};
use pam::conv::{Conversation, PasswordConv, PromptKind, Response};
use pam::script::ScriptedService;
use pam::service::UserRecord;
use pam::Authenticator;

fn conv(login: &str, secret: &str) -> PasswordConv {
    let mut c = PasswordConv::new();
    c.set_credentials(login, secret);
    c
}

fn scripted(codes: &[ResultCode]) -> ScriptedService {
    let mut s = ScriptedService::new();
    for code in codes {
        s.enqueue(*code);
    }
    s
}

#[test]
fn password_conv_answers_each_prompt_kind() {
    let mut c = conv("alice", "hunter2");
    assert_eq!(c.username(), "alice".to_string());
    let prompts = vec![
        (PromptKind::EchoOn, "login:".to_string()),
        (PromptKind::EchoOff, "Password:".to_string()),
        (PromptKind::ErrorMsg, "bad day".to_string()),
        (PromptKind::TextInfo, "welcome".to_string()),
    ];
    let answers = c.converse(&prompts).unwrap();
    assert_eq!(
        answers,
        vec![
            Response::Text("alice".to_string()),
            Response::Secret("hunter2".to_string()),
            Response::Ack,
            Response::Ack,
        ]
    );
}

#[test]
fn error_mapping_collapses_codes() {
    assert_eq!(pam::codes::error_of(ResultCode::ConvErr), Error::Conversation);
    assert_eq!(pam::codes::error_of(ResultCode::BufErr), Error::Encoding);
    assert_eq!(
        pam::codes::error_of(ResultCode::AuthErr),
        Error::Service(ResultCode::AuthErr)
    );
}

#[test]
fn construction_surfaces_start_failure_with_the_host() {
    let svc = scripted(&[ResultCode::ServiceErr]);
    let r = Authenticator::with_handler(svc, "login", conv("alice", "pw"));
    match r {
        Ok(_) => panic!("construction must fail when start fails"),
        Err((e, host)) => {
            assert_eq!(e, Error::Service(ResultCode::ServiceErr));
            // the one failed start was issued and nothing else
            assert_eq!(host.ops(), &vec![Op::Start(ResultCode::ServiceErr)]);
        },
    }
}

#[test]
fn authenticate_succeeds_when_both_operations_succeed() {
    let svc = scripted(&[ResultCode::Success, ResultCode::Success, ResultCode::Success]);
    let mut a = Authenticator::with_handler(svc, "login", conv("alice", "pw")).ok().unwrap();
    assert!(!a.is_authenticated());
    assert!(a.authenticate().is_ok());
    assert!(a.is_authenticated());
    let host = a.end();
    assert_eq!(
        host.ops(),
        &vec![
            Op::Start(ResultCode::Success),
            Op::Authenticate(ResultCode::Success),
            Op::AcctMgmt(ResultCode::Success),
            Op::SetCred(CredFlag::Delete, ResultCode::Abort),
            Op::End(ResultCode::Abort),
        ]
    );
}

#[test]
fn authenticate_records_conversation_answers() {
    let svc = scripted(&[ResultCode::Success, ResultCode::Success, ResultCode::Success]);
    let mut a = Authenticator::with_handler(svc, "login", conv("alice", "hunter2")).ok().unwrap();
    assert!(a.authenticate().is_ok());
    let host = a.end();
    assert_eq!(
        host.responses(),
        &vec![
            Response::Text("alice".to_string()),
            Response::Secret("hunter2".to_string()),
        ]
    );
}

#[test]
fn failed_conversation_yields_conversation_error() {
    struct Mute;
    impl Conversation for Mute {
        fn username(&self) -> String {
            "nobody".to_string()
        }
        fn converse(
            &mut self,
            _prompts: &Vec<(PromptKind, String)>,
        ) -> Result<Vec<Response>, ()> {
            Err(())
        }
    }
    let svc = scripted(&[ResultCode::Success]);
    let mut a = Authenticator::with_handler(svc, "login", Mute).ok().unwrap();
    assert_eq!(a.authenticate().err().unwrap(), Error::Conversation);
    assert!(!a.is_authenticated());
    let host = a.end();
    assert_eq!(host.ops()[1], Op::Authenticate(ResultCode::ConvErr));
}

#[test]
fn scenario_wrong_secret_is_a_service_error() {
    let svc = scripted(&[ResultCode::Success, ResultCode::AuthErr]);
    let mut a = Authenticator::with_handler(svc, "login", conv("alice", "wrong")).ok().unwrap();
    assert_eq!(
        a.authenticate().err().unwrap(),
        Error::Service(ResultCode::AuthErr)
    );
    assert!(!a.is_authenticated());
}

#[test]
fn scenario_expired_account_rolls_credentials_back() {
    let svc = scripted(&[
        ResultCode::Success,
        ResultCode::Success,
        ResultCode::AcctExpired,
        ResultCode::Success,
    ]);
    let mut a = Authenticator::with_handler(svc, "login", conv("alice", "pw")).ok().unwrap();
    assert_eq!(
        a.authenticate().err().unwrap(),
        Error::Service(ResultCode::AcctExpired)
    );
    assert!(!a.is_authenticated());
    let host = a.end();
    // the delete-credentials rollback follows the failed account check
    assert_eq!(
        host.ops()[0..4],
        [
            Op::Start(ResultCode::Success),
            Op::Authenticate(ResultCode::Success),
            Op::AcctMgmt(ResultCode::AcctExpired),
            Op::SetCred(CredFlag::Delete, ResultCode::Success),
        ]
    );
}

#[test]
fn authenticate_twice_keeps_the_flag_set() {
    let svc = scripted(&[
        ResultCode::Success,
        ResultCode::Success,
        ResultCode::Success,
        ResultCode::Success,
        ResultCode::Success,
    ]);
    let mut a = Authenticator::with_handler(svc, "login", conv("alice", "pw")).ok().unwrap();
    assert!(a.authenticate().is_ok());
    assert!(a.is_authenticated());
    assert!(a.authenticate().is_ok());
    assert!(a.is_authenticated());
}

#[test]
fn open_session_before_authenticate_issues_nothing() {
    let svc = scripted(&[ResultCode::Success]);
    let mut a = Authenticator::with_handler(svc, "login", conv("alice", "pw")).ok().unwrap();
    assert_eq!(a.open_session().err().unwrap(), Error::NotAuthenticated);
    assert!(!a.has_open_session());
    let host = a.end();
    assert_eq!(
        host.ops(),
        &vec![
            Op::Start(ResultCode::Success),
            Op::SetCred(CredFlag::Delete, ResultCode::Abort),
            Op::End(ResultCode::Abort),
        ]
    );
}

#[test]
fn failed_establish_short_circuits_the_session_sequence() {
    let svc = scripted(&[
        ResultCode::Success,
        ResultCode::Success,
        ResultCode::Success,
        ResultCode::CredErr,
    ]);
    let mut a = Authenticator::with_handler(svc, "login", conv("alice", "pw")).ok().unwrap();
    assert!(a.authenticate().is_ok());
    assert_eq!(
        a.open_session().err().unwrap(),
        Error::Service(ResultCode::CredErr)
    );
    assert!(!a.has_open_session());
    assert!(!a.is_authenticated());
    let host = a.end();
    for op in host.ops() {
        assert!(!matches!(op, Op::OpenSession(_)));
        assert!(!matches!(op, Op::SetCred(CredFlag::Reinitialize, _)));
    }
}

fn session_host(extra: &[ResultCode]) -> ScriptedService {
    let mut codes = vec![
        ResultCode::Success, // start
        ResultCode::Success, // authenticate
        ResultCode::Success, // account check
        ResultCode::Success, // establish credentials
        ResultCode::Success, // open session
        ResultCode::Success, // reinitialize credentials
    ];
    codes.extend_from_slice(extra);
    let mut s = scripted(&codes);
    s.add_user(UserRecord::new("alice", "/home/alice", "/bin/zsh"));
    s
}

#[test]
fn open_session_mirrors_only_defined_service_variables() {
    let mut svc = session_host(&[ResultCode::Success]);
    svc.define_env("HOME", "/");
    let mut a = Authenticator::with_handler(svc, "login", conv("alice", "pw")).ok().unwrap();
    assert!(a.authenticate().is_ok());
    assert!(a.open_session().is_ok());
    assert!(a.has_open_session());
    let host = a.end();
    // the service-side HOME was already defined, so it now carries the
    // resolved home directory
    assert_eq!(host.service_value("HOME").unwrap(), "/home/alice");
    // the service never defined SHELL, so none was introduced there,
    // while the process-wide SHELL was still set
    assert!(host.service_value("SHELL").is_none());
    assert_eq!(host.process_value("SHELL").unwrap(), "/bin/zsh");
    assert_eq!(host.process_value("USER").unwrap(), "alice");
    assert_eq!(host.process_value("LOGNAME").unwrap(), "alice");
    assert_eq!(host.process_value("HOME").unwrap(), "/home/alice");
    assert_eq!(host.process_value("PWD").unwrap(), "/home/alice");
}

#[test]
fn unresolvable_user_is_fatal_but_session_stays_open() {
    let mut svc = scripted(&[
        ResultCode::Success,
        ResultCode::Success,
        ResultCode::Success,
        ResultCode::Success,
        ResultCode::Success,
        ResultCode::Success,
    ]);
    svc.add_user(UserRecord::new("bob", "/home/bob", "/bin/sh"));
    let mut a = Authenticator::with_handler(svc, "login", conv("alice", "pw")).ok().unwrap();
    assert!(a.authenticate().is_ok());
    assert_eq!(
        a.open_session().err().unwrap(),
        Error::EnvironmentResolution
    );
    assert!(a.has_open_session());
}

#[test]
fn refused_environment_write_is_surfaced_but_session_stays_open() {
    let mut svc = session_host(&[ResultCode::BufErr]);
    svc.define_env("USER", "root");
    let mut a = Authenticator::with_handler(svc, "login", conv("alice", "pw")).ok().unwrap();
    assert!(a.authenticate().is_ok());
    assert_eq!(a.open_session().err().unwrap(), Error::Encoding);
    assert!(a.has_open_session());
    let host = a.end();
    // the refused write left the service-side variable untouched
    assert_eq!(host.service_value("USER").unwrap(), "root");
    // the process-wide variable for the failing step was already set,
    // and the later steps never ran
    assert_eq!(host.process_value("USER").unwrap(), "alice");
    assert!(host.process_value("LOGNAME").is_none());
}

fn count(ops: &[Op], f: impl Fn(&Op) -> bool) -> usize {
    ops.iter().filter(|op| f(op)).count()
}

#[test]
fn teardown_closes_deletes_and_ends_exactly_once() {
    let mut svc = session_host(&[]);
    svc.define_env("HOME", "/");
    let mut a = Authenticator::with_handler(svc, "login", conv("alice", "pw")).ok().unwrap();
    assert!(a.authenticate().is_ok());
    // putenv for the mirrored HOME answers Abort (script exhausted); that is
    // still an error surfaced by open_session, but the session is open
    assert!(a.open_session().is_err());
    assert!(a.has_open_session());
    let host = a.end();
    let ops = host.ops();
    assert_eq!(count(ops, |op| matches!(op, Op::End(_))), 1);
    assert_eq!(
        count(ops, |op| matches!(op, Op::CloseSession(_))),
        1
    );
    assert_eq!(
        count(ops, |op| matches!(op, Op::SetCred(CredFlag::Delete, _))),
        1
    );
    // close-session precedes delete-credentials, which precedes end
    let n = ops.len();
    assert!(matches!(ops[n - 3], Op::CloseSession(_)));
    assert!(matches!(ops[n - 2], Op::SetCred(CredFlag::Delete, _)));
    assert!(matches!(ops[n - 1], Op::End(_)));
}

#[test]
fn failed_repeat_open_session_keeps_the_session_authenticated() {
    let svc = session_host(&[ResultCode::CredErr]);
    let mut a = Authenticator::with_handler(svc, "login", conv("alice", "pw")).ok().unwrap();
    assert!(a.authenticate().is_ok());
    assert!(a.open_session().is_ok());
    assert!(a.has_open_session() && a.is_authenticated());
    // a repeat attempt whose establish step fails rolls credentials back,
    // but the open session never loses its authentication
    assert_eq!(
        a.open_session().err().unwrap(),
        Error::Service(ResultCode::CredErr)
    );
    assert!(a.has_open_session());
    assert!(a.is_authenticated());
}

#[test]
fn teardown_without_close_policy_skips_close_session() {
    let svc = scripted(&[ResultCode::Success]);
    let mut a = Authenticator::with_handler(svc, "login", conv("alice", "pw")).ok().unwrap();
    a.close_on_drop = false;
    let host = a.end();
    let ops = host.ops();
    assert_eq!(count(ops, |op| matches!(op, Op::CloseSession(_))), 0);
    assert_eq!(count(ops, |op| matches!(op, Op::End(_))), 1);
    assert_eq!(
        count(ops, |op| matches!(op, Op::SetCred(CredFlag::Delete, _))),
        1
    );
}

#[test]
fn with_password_presets_empty_credentials() {
    let svc = scripted(&[ResultCode::Success, ResultCode::Success, ResultCode::Success]);
    let mut a = Authenticator::with_password(svc, "login").ok().unwrap();
    assert_eq!(a.handler().username(), "".to_string());
    a.handler_mut().set_credentials("alice", "pw");
    assert_eq!(a.handler().username(), "alice".to_string());
    assert!(a.authenticate().is_ok());
}
