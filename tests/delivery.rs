use release_notify::config::{normalize, ConfigError, PingOverride, RawInputs, ReleaseAnnouncementConfig};
use release_notify::decimal::push_decimal;
use release_notify::outcome::render_outcome;
use release_notify::pipeline::{
    plan, should_ping, Action, Event, Pipeline, PipelineError, Stage, SECONDARY_DELAY_SECS,
};
use release_notify::classify::ReleaseKind;

fn config(version: &str, ping: &str, role: &str) -> ReleaseAnnouncementConfig {
    let r = RawInputs {
        curseforge_project_id: String::new(),
        modrinth_project_id: "m1".to_string(),
        project_name: "Foo".to_string(),
        project_version: version.to_string(),
        project_repository: "org/Foo".to_string(),
        webhook_url: "https://discord.com/api/webhooks/42/token".to_string(),
        thumbnail_url: String::new(),
        notification_role_id: role.to_string(),
        ping_notification_role: ping.to_string(),
    };
    match normalize(&r) {
        Ok(c) => c,
        Err(e) => panic!("{:?}", e),
    }
}

fn mention_of(version: &str, ping: &str, role: &str) -> Option<String> {
    match plan(&config(version, ping, role)) {
        Ok(p) => p.mention,
        Err(e) => panic!("{:?}", e),
    }
}

#[test]
fn outcome_without_body_has_no_block() {
    assert_eq!(render_outcome(204, &[]), b"response_status=204\n".to_vec());
}

#[test]
fn outcome_with_body_is_delimited() {
    assert_eq!(
        render_outcome(200, b"{\"a\":\n1}"),
        b"response_status=200\nmessage<<EOF\n{\"a\":\n1}\nEOF\n".to_vec()
    );
    assert_eq!(render_outcome(0, &[]), b"response_status=0\n".to_vec());
}

#[test]
fn decimal_digits() {
    let mut v = b"x".to_vec();
    push_decimal(18446744073709551615, &mut v);
    assert_eq!(v, b"x18446744073709551615".to_vec());
}

#[test]
fn ping_rules() {
    assert!(should_ping(PingOverride::ForceTrue, ReleaseKind::PreRelease));
    assert!(!should_ping(PingOverride::ForceFalse, ReleaseKind::Stable));
    assert!(should_ping(PingOverride::Unset, ReleaseKind::Stable));
    assert!(!should_ping(PingOverride::Unset, ReleaseKind::PreRelease));
}

#[test]
fn pre_release_is_not_pinged_when_unset() {
    assert_eq!(mention_of("1.0.0-beta.1", "", ""), None);
}

#[test]
fn forced_ping_on_pre_release() {
    assert_eq!(mention_of("1.0.0-beta.1", "true", "").as_deref(), Some("<@&918884941461352469>"));
}

#[test]
fn stable_is_pinged_with_unwrapped_role() {
    assert_eq!(mention_of("1.0.0", "", "<@&77>").as_deref(), Some("<@&77>"));
    assert_eq!(mention_of("1.0.0", "", "+0123").as_deref(), Some("<@&123>"));
    assert_eq!(mention_of("1.0.0", "FALSE", ""), None);
}

#[test]
fn invalid_role_fails_only_when_pinging() {
    assert!(matches!(plan(&config("1.0.0", "", "abc")), Err(ConfigError::RoleIdInvalid)));
    assert!(matches!(plan(&config("1.0.0", "", "0")), Err(ConfigError::RoleIdInvalid)));
    assert!(plan(&config("1.0.0", "false", "abc")).is_ok());
}

#[test]
fn plan_composes_the_message() {
    let p = match plan(&config("1.0.0", "false", "")) {
        Ok(p) => p,
        Err(e) => panic!("{:?}", e),
    };
    assert!(p.message.description.starts_with("# Foo 1.0.0\n\n## Downloads:\n"));
}

#[test]
fn pipeline_with_mention_runs_in_order() {
    let mut p = Pipeline::new(Some("<@&77>".to_string()));
    let a = p.step(Event::PrimarySent { status: 204, body: Vec::new() });
    assert!(matches!(a, Action::WriteOutcome(ref v) if v == b"response_status=204\n"));
    assert_eq!(p.stage, Stage::WritingOutcome);
    assert!(matches!(p.step(Event::DelayElapsed), Action::Ignore));
    assert!(matches!(p.step(Event::OutcomeWritten), Action::Wait(s) if s == SECONDARY_DELAY_SECS));
    assert_eq!(SECONDARY_DELAY_SECS, 5);
    assert!(matches!(p.step(Event::DelayElapsed), Action::SendSecondary(ref m) if m == "<@&77>"));
    assert!(matches!(p.step(Event::SecondarySent), Action::Finish));
    assert_eq!(p.stage, Stage::Done);
}

#[test]
fn pipeline_without_mention_finishes_after_outcome() {
    let mut p = Pipeline::new(None);
    p.step(Event::PrimarySent { status: 200, body: b"{}".to_vec() });
    assert!(matches!(p.step(Event::OutcomeWritten), Action::Finish));
    assert_eq!(p.stage, Stage::Done);
}

#[test]
fn pipeline_failures_abort() {
    let mut p = Pipeline::new(None);
    assert!(matches!(p.step(Event::PrimaryFailed), Action::Abort(PipelineError::Delivery)));
    assert_eq!(p.stage, Stage::Failed);
    let mut p = Pipeline::new(None);
    p.step(Event::PrimarySent { status: 200, body: Vec::new() });
    assert!(matches!(p.step(Event::OutcomeWriteFailed), Action::Abort(PipelineError::OutcomeWrite)));
    let mut p = Pipeline::new(Some("<@&1>".to_string()));
    p.step(Event::PrimarySent { status: 200, body: Vec::new() });
    p.step(Event::OutcomeWritten);
    p.step(Event::DelayElapsed);
    assert!(matches!(p.step(Event::SecondaryFailed), Action::Abort(PipelineError::Delivery)));
}
