//! What holds of the commands, whatever the window manager answers.

use crate::commands::{
    ex_style_read, get_window_info_calls, get_window_info_step, reset_window_size_calls,
    reset_window_size_step, set_always_on_top_calls, set_always_on_top_step,
    set_click_through_calls, set_click_through_step, set_window_opacity_calls,
    set_window_opacity_step, Platform, DEFAULT_HEIGHT, DEFAULT_WIDTH,
};
use crate::info::WindowInfo;
use crate::opacity::{alpha_of, lemma_alpha_range, FULL_ALPHA, MIN_ALPHA};
use crate::protocol::{next_step, Answer, Call, Step};
use crate::style::{
    is_layered, is_transparent, lemma_click_through_on_then_off, lemma_with_layered,
    with_click_through, with_layered,
};
use vstd::prelude::*;

verus! {

/// Where `before` asks for a call, `after` is the end of the command with
/// the failure that `description` describes.
pub open spec fn failure_is_reported<T>(
    before: Option<Step<T>>,
    after: Option<Step<T>>,
    description: String,
) -> bool {
    before matches Some(Step::Perform(_)) ==> after == Some(Step::<T>::Finish(Err(description)))
}

/// Where a list of calls has come to a call, whichever it is, and that call
/// fails, what follows is the end of the command with the description of
/// that failure, as the window manager gave it.
pub proof fn lemma_failure_ends(calls: Seq<Call>, answers: Seq<Answer>, description: String)
    ensures
        failure_is_reported(
            next_step(calls, answers),
            next_step(calls, answers.push(Answer::Failed { description })),
            description,
        ),
{
    if next_step(calls, answers) matches Some(Step::Perform(_)) {
        let failed = answers.push(Answer::Failed { description });
        assert forall|i: int| 0 <= i < failed.len() implies (#[trigger] calls[i]).accepts(
            failed[i],
        ) by {
            if i < answers.len() {
                assert(failed[i] == answers[i]);
            }
        }
        assert forall|i: int| 0 <= i < failed.len() - 1 implies !(#[trigger] failed[i] is Failed) by {
            assert(failed[i] == answers[i]);
            if i == answers.len() - 1 {
                assert(answers[i] == answers.last());
            }
        }
    }
}

/// A list of calls ends in success only when every call has been answered
/// and none has failed.
pub proof fn lemma_success_has_no_failure(calls: Seq<Call>, answers: Seq<Answer>)
    requires
        next_step(calls, answers) == Some(Step::<()>::Finish(Ok(()))),
    ensures
        answers.len() == calls.len(),
        forall|i: int| 0 <= i < answers.len() ==> !(#[trigger] answers[i] is Failed),
{
    assert forall|i: int| 0 <= i < answers.len() implies !(#[trigger] answers[i] is Failed) by {
        if i == answers.len() - 1 {
            assert(answers[i] == answers.last());
        }
    }
}

/// No command passes over a failure: where any of the five has asked for a
/// call, and the window manager answers with a failure, the command ends
/// with that failure and its description, unchanged. So the description
/// that ends the command is empty only where the window manager's is.
pub proof fn lemma_commands_report_failure(
    enabled: bool,
    opacity_bits: u64,
    platform: Platform,
    answers: Seq<Answer>,
    description: String,
)
    ensures
        failure_is_reported(
            set_always_on_top_step(enabled, answers),
            set_always_on_top_step(enabled, answers.push(Answer::Failed { description })),
            description,
        ),
        failure_is_reported(
            set_window_opacity_step(opacity_bits, platform, answers),
            set_window_opacity_step(
                opacity_bits,
                platform,
                answers.push(Answer::Failed { description }),
            ),
            description,
        ),
        failure_is_reported(
            set_click_through_step(enabled, platform, answers),
            set_click_through_step(enabled, platform, answers.push(Answer::Failed { description })),
            description,
        ),
        failure_is_reported(
            reset_window_size_step(answers),
            reset_window_size_step(answers.push(Answer::Failed { description })),
            description,
        ),
        failure_is_reported(
            get_window_info_step(answers),
            get_window_info_step(answers.push(Answer::Failed { description })),
            description,
        ),
{
    let failed = answers.push(Answer::Failed { description });
    assert(ex_style_read(failed) == ex_style_read(answers)) by {
        if answers.len() > 1 {
            assert(failed[1] == answers[1]);
        }
    }
    lemma_failure_ends(set_always_on_top_calls(enabled), answers, description);
    lemma_failure_ends(
        set_window_opacity_calls(opacity_bits, platform, ex_style_read(answers)),
        answers,
        description,
    );
    lemma_failure_ends(
        set_click_through_calls(enabled, platform, ex_style_read(answers)),
        answers,
        description,
    );
    lemma_failure_ends(reset_window_size_calls(), answers, description);
    lemma_failure_ends(get_window_info_calls(), answers, description);
}

/// On Windows, opacity and click-through end with the failure of whichever
/// native call fails: obtaining the handle, reading the extended style,
/// writing it, or setting the alpha. Neither ends in success unless its
/// last call was done.
pub proof fn lemma_layered_commands_report_failure(
    enabled: bool,
    opacity_bits: u64,
    ex_style: i32,
    description: String,
)
    ensures
        set_click_through_step(enabled, Platform::Windows, seq![Answer::Failed { description }])
            == Some(Step::<()>::Finish(Err(description))),
        set_click_through_step(
            enabled,
            Platform::Windows,
            seq![Answer::Done, Answer::Failed { description }],
        ) == Some(Step::<()>::Finish(Err(description))),
        set_click_through_step(
            enabled,
            Platform::Windows,
            seq![Answer::Done, Answer::ExStyle { ex_style }, Answer::Failed { description }],
        ) == Some(Step::<()>::Finish(Err(description))),
        set_window_opacity_step(
            opacity_bits,
            Platform::Windows,
            seq![Answer::Failed { description }],
        ) == Some(Step::<()>::Finish(Err(description))),
        set_window_opacity_step(
            opacity_bits,
            Platform::Windows,
            seq![Answer::Done, Answer::Failed { description }],
        ) == Some(Step::<()>::Finish(Err(description))),
        set_window_opacity_step(
            opacity_bits,
            Platform::Windows,
            seq![Answer::Done, Answer::ExStyle { ex_style }, Answer::Failed { description }],
        ) == Some(Step::<()>::Finish(Err(description))),
        set_window_opacity_step(
            opacity_bits,
            Platform::Windows,
            seq![
                Answer::Done,
                Answer::ExStyle { ex_style },
                Answer::Done,
                Answer::Failed { description },
            ],
        ) == Some(Step::<()>::Finish(Err(description))),
{
}

/// On Windows, a request for an opacity has the window marked as layered
/// and then given an alpha channel between that of the least and that of
/// the full opacity: 255 times the clamped opacity, rounded. Once that last
/// call is done, the command ends in success.
pub proof fn lemma_opacity_is_applied(opacity_bits: u64, ex_style: i32)
    ensures
        set_window_opacity_step(
            opacity_bits,
            Platform::Windows,
            seq![Answer::Done, Answer::ExStyle { ex_style }],
        ) == Some(Step::<()>::Perform(Call::WriteExStyle { ex_style: with_layered(ex_style) })),
        is_layered(with_layered(ex_style)),
        set_window_opacity_step(
            opacity_bits,
            Platform::Windows,
            seq![Answer::Done, Answer::ExStyle { ex_style }, Answer::Done],
        ) == Some(Step::<()>::Perform(Call::WriteAlpha { alpha: alpha_of(opacity_bits) as u8 })),
        MIN_ALPHA <= alpha_of(opacity_bits) <= FULL_ALPHA,
        set_window_opacity_step(
            opacity_bits,
            Platform::Windows,
            seq![Answer::Done, Answer::ExStyle { ex_style }, Answer::Done, Answer::Done],
        ) == Some(Step::<()>::Finish(Ok(()))),
{
    lemma_alpha_range(opacity_bits);
    lemma_with_layered(ex_style);
}

/// Where the platform has no layered windows, opacity and click-through ask
/// for no call and end in success at once.
pub proof fn lemma_nothing_to_do_elsewhere(opacity_bits: u64, enabled: bool)
    ensures
        set_window_opacity_step(opacity_bits, Platform::Other, Seq::empty()) == Some(
            Step::<()>::Finish(Ok(())),
        ),
        set_click_through_step(enabled, Platform::Other, Seq::empty()) == Some(
            Step::<()>::Finish(Ok(())),
        ),
{
}

/// Click-through enabled and then disabled: the first command writes a
/// style with the transparent and the layered bit set; the second, reading
/// that style back, writes one that is not transparent to input and is
/// still layered.
pub proof fn lemma_click_through_commands_on_then_off(ex_style: i32)
    ensures
        set_click_through_step(
            true,
            Platform::Windows,
            seq![Answer::Done, Answer::ExStyle { ex_style }],
        ) == Some(
            Step::<()>::Perform(Call::WriteExStyle { ex_style: with_click_through(ex_style, true) }),
        ),
        set_click_through_step(
            false,
            Platform::Windows,
            seq![Answer::Done, Answer::ExStyle { ex_style: with_click_through(ex_style, true) }],
        ) == Some(
            Step::<()>::Perform(
                Call::WriteExStyle {
                    ex_style: with_click_through(with_click_through(ex_style, true), false),
                },
            ),
        ),
        !is_transparent(with_click_through(with_click_through(ex_style, true), false)),
        is_layered(with_click_through(with_click_through(ex_style, true), false)),
{
    lemma_click_through_on_then_off(ex_style);
}

/// A reset asks for the default size, then for the centering, and ends in
/// success exactly when the window manager has done both. Where the resize
/// is done and the centering fails, the command ends with that failure and
/// asks for nothing that would undo the resize.
pub proof fn lemma_reset_window_size(answers: Seq<Answer>, description: String)
    ensures
        reset_window_size_step(Seq::empty()) == Some(
            Step::<()>::Perform(
                Call::SetLogicalSize { width: DEFAULT_WIDTH, height: DEFAULT_HEIGHT },
            ),
        ),
        DEFAULT_WIDTH == 400 && DEFAULT_HEIGHT == 600,
        reset_window_size_step(seq![Answer::Done]) == Some(Step::<()>::Perform(Call::Center)),
        reset_window_size_step(seq![Answer::Done, Answer::Failed { description }]) == Some(
            Step::<()>::Finish(Err(description)),
        ),
        reset_window_size_step(answers) == Some(Step::<()>::Finish(Ok(()))) <==> answers
            =~= seq![Answer::Done, Answer::Done],
{
    if reset_window_size_step(answers) == Some(Step::<()>::Finish(Ok(()))) {
        lemma_success_has_no_failure(reset_window_size_calls(), answers);
        assert(reset_window_size_calls()[0].accepts(answers[0]));
        assert(reset_window_size_calls()[1].accepts(answers[1]));
    }
}

/// `get_window_info` reads and changes nothing: it asks for no call that
/// changes anything about the window.
pub proof fn lemma_get_window_info_only_reads(answers: Seq<Answer>)
    ensures
        get_window_info_step(answers) matches Some(Step::Perform(call)) ==> !call.changes_window(),
{
}

/// `set_always_on_top` asks the window manager for exactly the attribute it
/// was given, and `get_window_info` reports size, position and attribute
/// exactly as the window manager answered them. So where the window manager
/// answers with the attribute that was set, that attribute is reported.
pub proof fn lemma_always_on_top_is_reported(
    enabled: bool,
    width: u32,
    height: u32,
    x: i32,
    y: i32,
)
    ensures
        set_always_on_top_step(enabled, Seq::empty()) == Some(
            Step::<()>::Perform(Call::SetAlwaysOnTop { enabled }),
        ),
        set_always_on_top_step(enabled, seq![Answer::Done]) == Some(Step::<()>::Finish(Ok(()))),
        get_window_info_step(
            seq![
                Answer::Size { width, height },
                Answer::Position { x, y },
                Answer::AlwaysOnTop { enabled },
            ],
        ) == Some(
            Step::Finish(Ok(WindowInfo { width, height, x, y, always_on_top: enabled })),
        ),
{
}

} // verus!
