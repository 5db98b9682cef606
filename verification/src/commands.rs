//! The five window commands.
//!
//! Each command is a short list of native calls, made in order until one of
//! them fails: a failure of any call ends the command with the description
//! of that failure. A command takes its arguments and
//! the answers given so far, and says what follows: the next call for the
//! host to make, or the end of the command with its result. It says `None`
//! where the answers are not answers to its calls, which a host that
//! answers each call as it is asked never brings about.

use crate::info::WindowInfo;
use crate::opacity::{alpha_by_pattern, alpha_channel, alpha_of, lemma_alpha_by_pattern};
use crate::protocol::{follow, next_step, Answer, Call, Step};
use crate::style::{click_through_style, layered_style, with_click_through, with_layered};
use vstd::prelude::*;

verus! {

/// Width of the window after a reset, in logical units.
pub const DEFAULT_WIDTH: u32 = 400;

/// Height of the window after a reset, in logical units.
pub const DEFAULT_HEIGHT: u32 = 600;

/// The kind of window manager the host runs on.
#[derive(Clone, Copy, Debug, PartialEq, Eq)]
pub enum Platform {
    /// Windows, which has layered windows and extended style bits.
    Windows,
    /// Any other platform. Opacity and click-through do nothing there, and
    /// succeed.
    Other,
}

/// The extended style that the second call of a command has read, or 0 while
/// no such answer is there.
pub open spec fn ex_style_read(answers: Seq<Answer>) -> i32 {
    if answers.len() > 1 && answers[1] is ExStyle {
        answers[1]->ex_style
    } else {
        0
    }
}

/// The window that the three reads of `get_window_info` have reported.
pub open spec fn window_info_read(answers: Seq<Answer>) -> WindowInfo
    recommends
        answers.len() == 3,
        answers[0] is Size,
        answers[1] is Position,
        answers[2] is AlwaysOnTop,
{
    WindowInfo {
        width: answers[0]->width,
        height: answers[0]->height,
        x: answers[1]->x,
        y: answers[1]->y,
        always_on_top: answers[2]->enabled,
    }
}

/// `step`, with `reply` as what a successful end hands back.
pub open spec fn with_reply<T>(step: Option<Step<()>>, reply: T) -> Option<Step<T>> {
    match step {
        None => None,
        Some(Step::Perform(call)) => Some(Step::Perform(call)),
        Some(Step::Finish(Err(description))) => Some(Step::Finish(Err(description))),
        Some(Step::Finish(Ok(_))) => Some(Step::Finish(Ok(reply))),
    }
}

/// The calls of `set_always_on_top`.
pub open spec fn set_always_on_top_calls(enabled: bool) -> Seq<Call> {
    seq![Call::SetAlwaysOnTop { enabled }]
}

/// The calls of `set_window_opacity`, where `ex_style` is the extended style
/// that the second of them reads.
pub open spec fn set_window_opacity_calls(
    opacity_bits: u64,
    platform: Platform,
    ex_style: i32,
) -> Seq<Call> {
    match platform {
        Platform::Windows => seq![
            Call::NativeHandle,
            Call::ReadExStyle,
            Call::WriteExStyle { ex_style: with_layered(ex_style) },
            Call::WriteAlpha { alpha: alpha_of(opacity_bits) as u8 },
        ],
        Platform::Other => Seq::empty(),
    }
}

/// The calls of `set_click_through`, where `ex_style` is the extended style
/// that the second of them reads.
pub open spec fn set_click_through_calls(
    enabled: bool,
    platform: Platform,
    ex_style: i32,
) -> Seq<Call> {
    match platform {
        Platform::Windows => seq![
            Call::NativeHandle,
            Call::ReadExStyle,
            Call::WriteExStyle { ex_style: with_click_through(ex_style, enabled) },
        ],
        Platform::Other => Seq::empty(),
    }
}

/// The calls of `reset_window_size`.
pub open spec fn reset_window_size_calls() -> Seq<Call> {
    seq![Call::SetLogicalSize { width: DEFAULT_WIDTH, height: DEFAULT_HEIGHT }, Call::Center]
}

/// The calls of `get_window_info`.
pub open spec fn get_window_info_calls() -> Seq<Call> {
    seq![Call::InnerSize, Call::OuterPosition, Call::IsAlwaysOnTop]
}

/// What `set_always_on_top` says after `answers`.
pub open spec fn set_always_on_top_step(enabled: bool, answers: Seq<Answer>) -> Option<Step<()>> {
    next_step(set_always_on_top_calls(enabled), answers)
}

/// What `set_window_opacity` says after `answers`.
pub open spec fn set_window_opacity_step(
    opacity_bits: u64,
    platform: Platform,
    answers: Seq<Answer>,
) -> Option<Step<()>> {
    next_step(set_window_opacity_calls(opacity_bits, platform, ex_style_read(answers)), answers)
}

/// What `set_click_through` says after `answers`.
pub open spec fn set_click_through_step(
    enabled: bool,
    platform: Platform,
    answers: Seq<Answer>,
) -> Option<Step<()>> {
    next_step(set_click_through_calls(enabled, platform, ex_style_read(answers)), answers)
}

/// What `reset_window_size` says after `answers`.
pub open spec fn reset_window_size_step(answers: Seq<Answer>) -> Option<Step<()>> {
    next_step(reset_window_size_calls(), answers)
}

/// What `get_window_info` says after `answers`.
pub open spec fn get_window_info_step(answers: Seq<Answer>) -> Option<Step<WindowInfo>> {
    with_reply(next_step(get_window_info_calls(), answers), window_info_read(answers))
}

/// The extended style that the second call has read, or 0.
fn ex_style_of(answers: &Vec<Answer>) -> (ex_style: i32)
    ensures
        ex_style == ex_style_read(answers@),
{
    if answers.len() > 1 {
        match &answers[1] {
            Answer::ExStyle { ex_style } => *ex_style,
            _ => 0,
        }
    } else {
        0
    }
}

/// Sets or clears the stay-on-top attribute of the window. A failure of the
/// window manager ends the command with its description.
pub fn set_always_on_top(enabled: bool, answers: &Vec<Answer>) -> (step: Option<Step<()>>)
    ensures
        step == set_always_on_top_step(enabled, answers@),
{
    let mut calls: Vec<Call> = Vec::new();
    calls.push(Call::SetAlwaysOnTop { enabled });
    assert(calls@ =~= set_always_on_top_calls(enabled));
    follow(&calls, answers)
}

/// Makes the window as opaque as requested, within the range that leaves it
/// usable. `opacity_bits` is the bit pattern of the requested opacity, a
/// binary64 number.
///
/// On Windows the window is marked as layered, whatever else its extended
/// style holds, and given the alpha channel of the clamped opacity. No
/// opacity is refused, but a failure of any of the four native calls ends
/// the command with its description: of obtaining the native handle, of
/// reading or writing the extended style, of setting the alpha. Elsewhere
/// nothing is done, with success.
///
/// The second clause is there for callers: it lets them read the alpha
/// channel off the bit pattern.
pub fn set_window_opacity(
    opacity_bits: u64,
    platform: Platform,
    answers: &Vec<Answer>,
) -> (step: Option<Step<()>>)
    ensures
        step == set_window_opacity_step(opacity_bits, platform, answers@),
        alpha_of(opacity_bits) == alpha_by_pattern(opacity_bits),
{
    proof {
        lemma_alpha_by_pattern(opacity_bits);
    }
    let mut calls: Vec<Call> = Vec::new();
    match platform {
        Platform::Windows => {
            calls.push(Call::NativeHandle);
            calls.push(Call::ReadExStyle);
            calls.push(Call::WriteExStyle { ex_style: layered_style(ex_style_of(answers)) });
            calls.push(Call::WriteAlpha { alpha: alpha_channel(opacity_bits) });
        },
        Platform::Other => {},
    }
    assert(calls@ =~= set_window_opacity_calls(
        opacity_bits,
        platform,
        ex_style_read(answers@),
    ));
    follow(&calls, answers)
}

/// Lets pointer input pass through the window, or stops doing so.
///
/// On Windows, enabling marks the window as transparent to input and as
/// layered; disabling clears the transparent bit and leaves the layered bit
/// as it is. A failure of any of the three native calls ends the command
/// with its description: of obtaining the native handle, of reading or of
/// writing the extended style. Elsewhere nothing is done, with success.
pub fn set_click_through(
    enabled: bool,
    platform: Platform,
    answers: &Vec<Answer>,
) -> (step: Option<Step<()>>)
    ensures
        step == set_click_through_step(enabled, platform, answers@),
{
    let mut calls: Vec<Call> = Vec::new();
    match platform {
        Platform::Windows => {
            calls.push(Call::NativeHandle);
            calls.push(Call::ReadExStyle);
            calls.push(
                Call::WriteExStyle {
                    ex_style: click_through_style(ex_style_of(answers), enabled),
                },
            );
        },
        Platform::Other => {},
    }
    assert(calls@ =~= set_click_through_calls(enabled, platform, ex_style_read(answers@)));
    follow(&calls, answers)
}

/// Gives the window its default size and centers it. Where the resize
/// succeeds and the centering fails, the new size stays and the failure to
/// center is what the command ends with.
pub fn reset_window_size(answers: &Vec<Answer>) -> (step: Option<Step<()>>)
    ensures
        step == reset_window_size_step(answers@),
{
    let mut calls: Vec<Call> = Vec::new();
    calls.push(Call::SetLogicalSize { width: DEFAULT_WIDTH, height: DEFAULT_HEIGHT });
    calls.push(Call::Center);
    assert(calls@ =~= reset_window_size_calls());
    follow(&calls, answers)
}

/// Where the three reads of `get_window_info` have all succeeded, the
/// answers are a size, a position and an attribute.
pub proof fn lemma_window_info_was_read(answers: Seq<Answer>)
    requires
        next_step(get_window_info_calls(), answers) == Some(Step::<()>::Finish(Ok(()))),
    ensures
        answers.len() == 3,
        answers[0] is Size,
        answers[1] is Position,
        answers[2] is AlwaysOnTop,
{
    let calls = get_window_info_calls();
    assert(calls[0].accepts(answers[0]) && !(answers[0] is Failed));
    assert(calls[1].accepts(answers[1]) && !(answers[1] is Failed));
    assert(calls[2].accepts(answers[2]) && !(answers.last() is Failed));
}

/// Reads size, position and stay-on-top attribute of the window, in that
/// order, and reports them. The first read that fails ends the command with
/// its description.
pub fn get_window_info(answers: &Vec<Answer>) -> (step: Option<Step<WindowInfo>>)
    ensures
        step == get_window_info_step(answers@),
{
    let mut calls: Vec<Call> = Vec::new();
    calls.push(Call::InnerSize);
    calls.push(Call::OuterPosition);
    calls.push(Call::IsAlwaysOnTop);
    assert(calls@ =~= get_window_info_calls());
    match follow(&calls, answers) {
        None => None,
        Some(Step::Perform(call)) => Some(Step::Perform(call)),
        Some(Step::Finish(Err(description))) => Some(Step::Finish(Err(description))),
        Some(Step::Finish(Ok(_))) => {
            proof {
                lemma_window_info_was_read(answers@);
            }
            match (&answers[0], &answers[1], &answers[2]) {
                (
                    Answer::Size { width, height },
                    Answer::Position { x, y },
                    Answer::AlwaysOnTop { enabled },
                ) => {
                    let info = WindowInfo {
                        width: *width,
                        height: *height,
                        x: *x,
                        y: *y,
                        always_on_top: *enabled,
                    };
                    Some(Step::Finish(Ok(info)))
                },
                _ => None,
            }
        },
    }
}

} // verus!
