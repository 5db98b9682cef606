use window_control::protocol::{follow, Answer, Call, Step};

fn all_calls() -> Vec<Call> {
    vec![
        Call::SetAlwaysOnTop { enabled: true },
        Call::NativeHandle,
        Call::ReadExStyle,
        Call::WriteExStyle { ex_style: 1 },
        Call::WriteAlpha { alpha: 2 },
        Call::SetLogicalSize { width: 3, height: 4 },
        Call::Center,
        Call::InnerSize,
        Call::OuterPosition,
        Call::IsAlwaysOnTop,
    ]
}

fn no(description: &str) -> Answer {
    Answer::Failed { description: description.to_string() }
}

#[test]
fn each_call_is_answered_by_its_own_reading() {
    let size = Answer::Size { width: 1, height: 2 };
    let position = Answer::Position { x: 1, y: 2 };
    let flag = Answer::AlwaysOnTop { enabled: false };
    let style = Answer::ExStyle { ex_style: 7 };
    assert!(Call::InnerSize.is_answered_by(&size));
    assert!(!Call::InnerSize.is_answered_by(&position));
    assert!(!Call::InnerSize.is_answered_by(&Answer::Done));
    assert!(Call::OuterPosition.is_answered_by(&position));
    assert!(!Call::OuterPosition.is_answered_by(&size));
    assert!(Call::IsAlwaysOnTop.is_answered_by(&flag));
    assert!(!Call::IsAlwaysOnTop.is_answered_by(&style));
    assert!(Call::ReadExStyle.is_answered_by(&style));
    assert!(!Call::ReadExStyle.is_answered_by(&Answer::Done));
    assert!(Call::ReadExStyle.is_answered_by(&no("no")));
    for call in [
        Call::SetAlwaysOnTop { enabled: false },
        Call::NativeHandle,
        Call::WriteExStyle { ex_style: 0 },
        Call::WriteAlpha { alpha: 0 },
        Call::SetLogicalSize { width: 1, height: 1 },
        Call::Center,
    ] {
        assert!(call.is_answered_by(&Answer::Done));
        assert!(call.is_answered_by(&no("no")));
        assert!(!call.is_answered_by(&size));
        assert!(!call.is_answered_by(&style));
    }
}

#[test]
fn every_call_can_fail() {
    for call in all_calls() {
        assert!(call.is_answered_by(&no("no")));
    }
}

#[test]
fn the_failure_of_every_call_ends_the_command() {
    for call in all_calls() {
        assert_eq!(
            follow(&vec![call, Call::Center], &vec![no("it broke")]),
            Some(Step::Finish(Err("it broke".to_string())))
        );
        assert_eq!(follow(&vec![call, Call::Center], &vec![no("it broke"), Answer::Done]), None);
    }
}

#[test]
fn only_a_failed_answer_holds_a_failure() {
    assert_eq!(no("it broke").failure(), Some("it broke".to_string()));
    assert_eq!(Answer::Done.failure(), None);
    assert_eq!(Answer::ExStyle { ex_style: 1 }.failure(), None);
    assert_eq!(Answer::Size { width: 1, height: 1 }.failure(), None);
    assert_eq!(Answer::Position { x: 1, y: 1 }.failure(), None);
    assert_eq!(Answer::AlwaysOnTop { enabled: true }.failure(), None);
}

#[test]
fn failure_keeps_the_description_as_it_is() {
    for text in ["", "x", "The operation completed successfully. (0x00000000)", "dépassé ✓"] {
        assert_eq!(no(text).failure(), Some(text.to_string()));
        assert_eq!(
            follow(&vec![Call::Center], &vec![no(text)]),
            Some(Step::Finish(Err(text.to_string())))
        );
    }
}

#[test]
fn follow_goes_through_the_calls_in_order() {
    let calls = vec![Call::NativeHandle, Call::ReadExStyle, Call::WriteAlpha { alpha: 9 }];
    let style = || Answer::ExStyle { ex_style: 5 };
    assert_eq!(follow(&calls, &vec![]), Some(Step::Perform(Call::NativeHandle)));
    assert_eq!(follow(&calls, &vec![Answer::Done]), Some(Step::Perform(Call::ReadExStyle)));
    assert_eq!(
        follow(&calls, &vec![Answer::Done, style()]),
        Some(Step::Perform(Call::WriteAlpha { alpha: 9 }))
    );
    assert_eq!(follow(&calls, &vec![Answer::Done, style(), Answer::Done]), Some(Step::Finish(Ok(()))));
    assert_eq!(
        follow(&calls, &vec![Answer::Done, style(), no("no")]),
        Some(Step::Finish(Err("no".to_string())))
    );
    assert_eq!(
        follow(&calls, &vec![Answer::Done, no("no style")]),
        Some(Step::Finish(Err("no style".to_string())))
    );
}

#[test]
fn follow_of_no_calls_succeeds_at_once() {
    assert_eq!(follow(&vec![], &vec![]), Some(Step::Finish(Ok(()))));
    assert_eq!(follow(&vec![], &vec![Answer::Done]), None);
}

#[test]
fn follow_ends_at_a_failure() {
    let calls = vec![Call::NativeHandle, Call::Center];
    assert_eq!(follow(&calls, &vec![no("first")]), Some(Step::Finish(Err("first".to_string()))));
    assert_eq!(
        follow(&calls, &vec![Answer::Done, no("second")]),
        Some(Step::Finish(Err("second".to_string())))
    );
}

#[test]
fn follow_refuses_what_is_no_transcript() {
    let calls = vec![Call::NativeHandle, Call::Center];
    assert_eq!(follow(&calls, &vec![no("first"), Answer::Done]), None);
    assert_eq!(follow(&calls, &vec![no("first"), no("second")]), None);
    assert_eq!(follow(&calls, &vec![Answer::Done, Answer::Done, Answer::Done]), None);
    assert_eq!(follow(&calls, &vec![Answer::ExStyle { ex_style: 0 }]), None);
    assert_eq!(follow(&calls, &vec![Answer::Done, Answer::Size { width: 1, height: 1 }]), None);
    assert_eq!(follow(&calls, &vec![Answer::Size { width: 1, height: 1 }, no("second")]), None);
}
