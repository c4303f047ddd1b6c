use std::path::PathBuf;
use xdsign::xddcc::{ExtraArg, NoSessionNotice, SessionSource, XddccParser, XddccTask};

fn parser() -> XddccParser {
    XddccParser {
        uid: None,
        device_code: None,
        id: None,
        just_id: false,
        output: None,
        list: false,
        previous: false,
    }
}

#[test]
fn list_warns_about_every_other_query_argument() {
    let p = XddccParser {
        uid: Some("a,b".to_string()),
        device_code: Some("dc".to_string()),
        id: Some(3),
        just_id: true,
        output: Some(PathBuf::from("out.json")),
        list: true,
        previous: true,
    };
    let plan = p.plan();
    assert_eq!(
        plan.warnings,
        vec![ExtraArg::DeviceCode, ExtraArg::Previous, ExtraArg::Id, ExtraArg::JustId]
    );
    assert_eq!(plan.sessions, SessionSource::UidList("a,b".to_string()));
    assert_eq!(plan.no_session, NoSessionNotice::LoginAtLeastOne);
    assert_eq!(plan.task, XddccTask::ListRooms);
    assert!(plan.warnings_with_session.is_empty());
    assert_eq!(plan.output, Some(PathBuf::from("out.json")));
    assert!(!plan.task.needs_one_session());
}

#[test]
fn device_code_uses_all_accounts_and_warns_about_uid() {
    let p = XddccParser {
        uid: Some("a".to_string()),
        device_code: Some("dc".to_string()),
        ..parser()
    };
    let plan = p.plan();
    assert_eq!(plan.warnings, vec![ExtraArg::Uid]);
    assert_eq!(plan.sessions, SessionSource::All);
    assert_eq!(plan.no_session, NoSessionNotice::NoAccount);
    assert_eq!(plan.task, XddccTask::LiveVideoPath { device_code: "dc".to_string() });
    assert!(plan.task.needs_one_session());
}

#[test]
fn live_id_chooses_recording_query() {
    let p = XddccParser { id: Some(9), previous: true, just_id: true, ..parser() };
    let plan = p.plan();
    assert!(plan.warnings.is_empty());
    assert_eq!(plan.task, XddccTask::RecordingUrl { live_id: 9 });
    assert_eq!(plan.warnings_with_session, vec![ExtraArg::JustId]);

    let plan = XddccParser { id: Some(9), just_id: true, ..parser() }.plan();
    assert_eq!(plan.task, XddccTask::Lessons { live_id: 9 });
    assert!(plan.warnings_with_session.is_empty());

    let plan = XddccParser { id: Some(9), ..parser() }.plan();
    assert_eq!(plan.task, XddccTask::RecordingLives { live_id: 9 });
}

#[test]
fn no_query_argument_lists_lives_now() {
    let plan = XddccParser { just_id: true, previous: true, ..parser() }.plan();
    assert_eq!(plan.warnings, vec![ExtraArg::JustId]);
    assert_eq!(plan.task, XddccTask::LivesNow { previous: true });
    assert_eq!(plan.sessions, SessionSource::All);
    assert!(!plan.task.needs_one_session());
}

#[test]
fn warning_texts() {
    assert_eq!(ExtraArg::DeviceCode.warning(), "多余的参数: `-d, --device-code`.");
    assert_eq!(ExtraArg::Previous.warning(), "多余的参数: `-p, --previous`.");
    assert_eq!(ExtraArg::Id.warning(), "多余的参数: `-i, --id`.");
    assert_eq!(ExtraArg::JustId.warning(), "多余的参数: `-j, --just-id`.");
    assert_eq!(ExtraArg::Uid.warning(), "多余的参数: `-u, --uid`.");
    assert_eq!(NoSessionNotice::LoginAtLeastOne.warning(), "请至少登录一个账号！");
    assert_eq!(NoSessionNotice::NoAccount.warning(), "未有登录的账号！");
}

#[test]
fn warned_arguments_are_given_and_unused() {
    // With a device code, a given `--id` is redundant but `--uid` is too.
    let plan = XddccParser {
        uid: Some("u".to_string()),
        device_code: Some("d".to_string()),
        id: Some(1),
        ..parser()
    }
    .plan();
    assert_eq!(plan.warnings, vec![ExtraArg::Uid, ExtraArg::Id]);
    // With a live id and `--uid`, nothing is redundant.
    let plan = XddccParser { uid: Some("u".to_string()), id: Some(1), ..parser() }.plan();
    assert!(plan.warnings.is_empty() && plan.warnings_with_session.is_empty());
}
