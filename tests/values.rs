use weechat::completion::CompletionPosition;
use weechat::hooks::{FdHookMode, SignalData, SignalHookValue};
use weechat::status::{OptionChanged, ReturnCode};
use weechat::weechat::{ArgsWeechat, Weechat};

#[test]
fn return_code_values() {
    assert_eq!(ReturnCode::Success.value(), 0);
    assert_eq!(ReturnCode::SuccessEat.value(), 1);
    assert_eq!(ReturnCode::Error.value(), -1);
}

#[test]
fn option_changed_from_host_codes() {
    assert_eq!(OptionChanged::from_int(2), OptionChanged::Changed);
    assert_eq!(OptionChanged::from_int(1), OptionChanged::Unchanged);
    assert_eq!(OptionChanged::from_int(0), OptionChanged::Error);
    assert_eq!(OptionChanged::from_int(-1), OptionChanged::NotFound);
}

#[test]
fn fd_mode_flags() {
    assert_eq!(FdHookMode::Read.as_tuple(), (1, 0));
    assert_eq!(FdHookMode::Write.as_tuple(), (0, 1));
    assert_eq!(FdHookMode::ReadWrite.as_tuple(), (1, 1));
}

#[test]
fn completion_position_names() {
    assert_eq!(CompletionPosition::Sorted.value(), "sort");
    assert_eq!(CompletionPosition::Beginning.value(), "beginning");
    assert_eq!(CompletionPosition::End.value(), "end");
}

#[test]
fn signal_values_follow_type_name() {
    match SignalHookValue::from_raw_with_type("string", SignalData::Text(b"hi\0rest".to_vec())) {
        Some(SignalHookValue::String(s)) => assert_eq!(s, "hi"),
        other => panic!("unexpected {:?}", other),
    }
    assert!(matches!(
        SignalHookValue::from_raw_with_type("integer", SignalData::Integer(Some(42))),
        Some(SignalHookValue::Integer(42))
    ));
    assert!(SignalHookValue::from_raw_with_type("integer", SignalData::Integer(None)).is_none());
    assert!(matches!(
        SignalHookValue::from_raw_with_type("pointer", SignalData::Pointer(0xbeef)),
        Some(SignalHookValue::Pointer(0xbeef))
    ));
    assert!(SignalHookValue::from_raw_with_type("pointer", SignalData::Integer(Some(1))).is_none());
    assert!(SignalHookValue::from_raw_with_type("hashtable", SignalData::Pointer(1)).is_none());
}

#[test]
fn command_arguments_read_as_text() {
    let argv = vec![b"/cmd".to_vec(), b"a\xffb".to_vec(), b"last".to_vec()];
    let mut args = ArgsWeechat::new(&argv);
    assert_eq!(args.len(), 3);
    assert_eq!(args.size_hint(), (3, Some(3)));
    assert_eq!(args.next(), Some("/cmd".to_string()));
    assert_eq!(args.next_back(), Some("last".to_string()));
    assert_eq!(args.next(), Some("a\u{FFFD}b".to_string()));
    assert_eq!(args.next(), None);
    assert_eq!(args.next_back(), None);
    assert_eq!(args.len(), 0);
}

#[test]
fn context_handle_keeps_its_address() {
    assert_eq!(Weechat::from_ptr(0x1234).as_ptr(), 0x1234);
}
