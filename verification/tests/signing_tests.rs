use std::path::PathBuf;
use xdsign::signing::{
    invalid_type_message, locate_activity, missing_activity_message, missing_code_message,
    photo_source, photo_unreadable_message, photo_without_path_message, position_source,
    positions_are_fallback, qr_input, qr_source, QrInput, qrcode_missing_message, select_accounts, sign_report,
    sign_step, sign_targets, split_accounts, success_line, failure_line, ActivityInfo, ActivityMatch, ActivityRef, CodeKind,
    PathKind, PhotoSource, PositionSource, QrSource, SignStep, SignType,
};

fn strings(v: &[&str]) -> Vec<String> {
    v.iter().map(|s| s.to_string()).collect()
}

#[test]
fn accounts_are_split_and_trimmed() {
    assert_eq!(split_accounts("alice, bob ,carol"), strings(&["alice", "bob", "carol"]));
    assert_eq!(split_accounts("solo"), strings(&["solo"]));
    assert_eq!(split_accounts(""), strings(&[""]));
}

#[test]
fn activity_found_by_decimal_id() {
    let active = strings(&["10", "20"]);
    let other = strings(&["30", "20"]);
    assert_eq!(locate_activity(&active, &other, 20), ActivityMatch::Active(1));
    assert_eq!(locate_activity(&active, &other, 30), ActivityMatch::Other(0));
    assert_eq!(locate_activity(&active, &other, 40), ActivityMatch::NotFound);
    assert_eq!(locate_activity(&strings(&["-5"]), &other, -5), ActivityMatch::Active(0));
}

#[test]
fn missing_activity_texts() {
    assert_eq!(
        missing_activity_message(true),
        "没有该签到活动！请检查签到活动 ID 是否正确或所指定的账号是否存在该签到活动！"
    );
    assert_eq!(missing_activity_message(false), "没有该签到活动！请检查签到活动 ID 是否正确！");
}

#[test]
fn accounts_selected_in_session_order() {
    let sessions = strings(&["bob", "alice", "dave", "alice"]);
    let names = strings(&["alice", "carol", "bob"]);
    assert_eq!(select_accounts(&sessions, &names), vec![0, 1, 3]);
    assert!(select_accounts(&sessions, &vec![]).is_empty());
}

fn activities() -> (Vec<ActivityInfo>, Vec<ActivityInfo>) {
    let active = vec![
        ActivityInfo { id: "1".to_string(), session_names: strings(&["a", "b"]) },
        ActivityInfo { id: "2".to_string(), session_names: strings(&["b"]) },
    ];
    let other = vec![ActivityInfo { id: "3".to_string(), session_names: strings(&["a"]) }];
    (active, other)
}

#[test]
fn targets_without_id_are_all_active_activities() {
    let (active, other) = activities();
    let t = sign_targets(&active, &other, None, &strings(&["b"])).unwrap();
    assert_eq!(t.len(), 2);
    assert_eq!(t[0].activity, ActivityRef::Active(0));
    assert_eq!(t[0].accounts, vec![1]);
    assert_eq!(t[1].activity, ActivityRef::Active(1));
    assert_eq!(t[1].accounts, vec![0]);
}

#[test]
fn targets_with_id() {
    let (active, other) = activities();
    let t = sign_targets(&active, &other, Some(3), &strings(&["a", "b"])).unwrap();
    assert_eq!(t.len(), 1);
    assert_eq!(t[0].activity, ActivityRef::Other(0));
    assert_eq!(t[0].accounts, vec![0]);
    assert!(sign_targets(&active, &other, Some(4), &strings(&["a"])).is_none());
}

#[test]
fn steps_by_sign_type() {
    assert_eq!(sign_step(SignType::Photo, false), SignStep::Photo);
    assert_eq!(sign_step(SignType::Common, true), SignStep::Common);
    assert_eq!(sign_step(SignType::QrCode, false), SignStep::QrCode);
    assert_eq!(sign_step(SignType::Location, false), SignStep::Location);
    assert_eq!(sign_step(SignType::Unknown, true), SignStep::Invalid);
    assert_eq!(sign_step(SignType::Gesture, true), SignStep::Code);
    assert_eq!(sign_step(SignType::Gesture, false), SignStep::MissingCode(CodeKind::Gesture));
    assert_eq!(sign_step(SignType::SignCode, false), SignStep::MissingCode(CodeKind::SignCode));
}

#[test]
fn picture_sources() {
    assert_eq!(photo_source(None), PhotoSource::NoPath);
    assert_eq!(photo_source(Some(PathKind::Unreadable)), PhotoSource::Unreadable);
    assert_eq!(photo_source(Some(PathKind::Directory)), PhotoSource::NewestInDirectory);
    assert_eq!(photo_source(Some(PathKind::File)), PhotoSource::GivenFile);
    assert_eq!(qr_source(None), QrSource::NoPicture);
    assert_eq!(qr_source(Some(PathKind::Directory)), QrSource::NewestInDirectory);
    assert_eq!(qr_source(Some(PathKind::File)), QrSource::GivenFile);
}

#[test]
fn position_sources() {
    let p = position_source(Some(3), &Some("x".to_string()));
    assert_eq!(p, PositionSource::Given("x".to_string()));
    assert!(!positions_are_fallback(&p));
    assert_eq!(position_source(Some(3), &None), PositionSource::Stored(3));
    let p = position_source(None, &None);
    assert_eq!(p, PositionSource::CourseAndGlobal);
    assert!(positions_are_fallback(&p));
}

#[test]
fn failure_messages() {
    assert_eq!(photo_without_path_message("A"), "所有用户在拍照签到[A]中签到失败！未提供照片路径！");
    assert_eq!(
        photo_unreadable_message("A", &format!("{:?}", PathBuf::from("/p"))),
        "所有用户在拍照签到[A]中签到失败！未能获取\"/p\"的元信息！"
    );
    assert_eq!(qrcode_missing_message("A"), "所有用户在二维码签到[A]中签到失败！二维码签到需要提供签到二维码！");
    assert_eq!(invalid_type_message("A"), "签到活动[A]为无效签到类型！");
    assert_eq!(missing_code_message(CodeKind::Gesture, "A"), "所有用户在手势签到[A]中签到失败！需要提供签到码！");
    assert_eq!(missing_code_message(CodeKind::SignCode, "A"), "所有用户在签到码签到[A]中签到失败！需要提供签到码！");
}

#[test]
fn report_lines() {
    assert!(sign_report("A", &vec![]).is_empty());
    let outcomes = vec![
        ("u1".to_string(), None),
        ("u2".to_string(), Some("say \"no\"".to_string())),
    ];
    let lines = sign_report("A", &outcomes);
    assert_eq!(lines.len(), 3);
    assert!(!lines[0].to_stderr);
    assert_eq!(lines[0].text, "签到活动[A]签到结果：");
    assert!(!lines[1].to_stderr);
    assert_eq!(lines[1].text, "\t用户[u1]签到成功！");
    assert!(lines[2].to_stderr);
    assert_eq!(lines[2].text, "\t用户[u2]签到失败！失败信息：[\"say \\\"no\\\"\"]");
}

#[test]
fn outcome_lines() {
    assert_eq!(success_line("u"), "\t用户[u]签到成功！");
    assert_eq!(failure_line("u", "\"x\""), "\t用户[u]签到失败！失败信息：[\"x\"]");
}

#[test]
fn qr_input_prefers_screen_only_when_capturing() {
    assert_eq!(qr_input(true, Some(7)), QrInput::Screen(7));
    assert_eq!(qr_input(true, None::<u8>), QrInput::PictureArgument);
    assert_eq!(qr_input(false, Some(7)), QrInput::PictureArgument);
}
