use xdsign::progress::{prog_init_error_handler, progress_style, ProgressKind};

const KINDS: [ProgressKind; 5] = [
    ProgressKind::GetRecordingLives,
    ProgressKind::GetLiveIds,
    ProgressKind::GetLiveUrls,
    ProgressKind::GetDeviceCodes,
    ProgressKind::Other,
];

#[test]
fn every_template_parses() {
    for k in KINDS {
        assert!(progress_style(k).is_ok());
    }
}

#[test]
fn template_texts() {
    assert_eq!(
        ProgressKind::GetLiveIds.template(),
        "获取直播号：[{elapsed_precise}] {bar:40.cyan/blue} {pos:>7}/{len:7} {msg}"
    );
    assert_eq!(
        ProgressKind::Other.template(),
        "获取 Bug 中：[{elapsed_precise}] {bar:40.cyan/blue} {pos:>7}/{len:7} {msg}"
    );
}

#[test]
fn finish_messages() {
    assert_eq!(ProgressKind::GetRecordingLives.finish_message(), "获取回放地址完成。");
    assert_eq!(ProgressKind::GetLiveIds.finish_message(), "获取直播号完成。");
    assert_eq!(ProgressKind::GetLiveUrls.finish_message(), "已获取直播地址。");
    assert_eq!(ProgressKind::GetDeviceCodes.finish_message(), "获取设备码完成。");
    assert_eq!(ProgressKind::Other.finish_message(), "获取 Bug 完成。");
}

#[test]
fn error_handler_line() {
    assert_eq!(prog_init_error_handler("bad"), "json 解析出错！错误信息：bad.");
}

#[derive(Clone, Copy, PartialEq)]
enum St {
    Literal,
    MaybeOpen,
    Key,
    Align,
    Width,
    FirstStyle,
    AltStyle,
    DoubleClose,
}

/// The transitions that the library's acceptance rule states, written out
/// again to hold them against `indicatif` itself.
fn accepted(t: &str) -> bool {
    let space = |c: char| c == ' ' || c == '\t' || c == '\n' || c == '\x0C' || c == '\r';
    let mut s = St::Literal;
    for c in t.chars() {
        let next = match s {
            St::Literal => Some(if c == '{' { St::MaybeOpen } else if c == '}' { St::DoubleClose } else { St::Literal }),
            St::DoubleClose => if c == '}' { Some(St::Literal) } else { None },
            St::MaybeOpen => if c == '{' || space(c) { Some(St::Literal) } else if c != '}' && c != ':' { Some(St::Key) } else { None },
            St::Key => Some(if space(c) || c == '}' { St::Literal } else if c == ':' { St::Align } else { St::Key }),
            St::Align => if c == '<' || c == '^' || c == '>' || c.is_ascii_digit() || c == '!' { Some(St::Width) } else if c == '.' { Some(St::FirstStyle) } else if c == '}' { Some(St::Literal) } else { None },
            St::Width => if c == '!' || c.is_ascii_digit() { Some(St::Width) } else if c == '.' { Some(St::FirstStyle) } else if c == '}' { Some(St::Literal) } else { None },
            St::FirstStyle => Some(if c == '/' { St::AltStyle } else if c == '}' { St::Literal } else { St::FirstStyle }),
            St::AltStyle => Some(if c == '}' { St::Literal } else { St::AltStyle }),
        };
        match next {
            Some(n) => s = n,
            None => return false,
        }
    }
    true
}

#[test]
fn acceptance_rule_matches_indicatif() {
    let alphabet = ['{', '}', ':', 'a', ' ', '.', '/', '!', '<', '5', '\n'];
    let mut words: Vec<String> = vec![String::new()];
    for _ in 0..4 {
        let mut longer = Vec::new();
        for w in &words {
            for c in alphabet {
                let mut v = w.clone();
                v.push(c);
                longer.push(v);
            }
        }
        for w in &longer {
            assert_eq!(
                indicatif::ProgressStyle::with_template(w).is_ok(),
                accepted(w),
                "template {:?}",
                w
            );
        }
        words = longer;
    }
}
