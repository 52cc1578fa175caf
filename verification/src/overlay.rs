//! What the overlay shows, and for how long.

use vstd::prelude::*;

verus! {

/// One step of showing a message: display `text` (nothing when empty), then
/// wait `sleep_secs` seconds.
pub struct OverlayStep {
    pub text: String,
    pub sleep_secs: u64,
}

/// The text of the step for one entry of the show pattern: the message for a
/// positive entry, nothing otherwise.
pub open spec fn step_text(delay: i32, message: Seq<char>) -> Seq<char> {
    if delay > 0 { message } else { Seq::empty() }
}

/// How long the step for one entry of the show pattern lasts: its absolute
/// value, in seconds.
pub open spec fn step_secs(delay: i32) -> int {
    if delay < 0 { -delay } else { delay as int }
}

/// The steps of showing `message` by the show pattern: each entry shows the
/// message (positive) or hides it (zero or negative) for as many seconds as
/// its absolute value, and a last step hides the overlay.
pub fn show_schedule(pattern: &Vec<i32>, message: &String) -> (steps: Vec<OverlayStep>)
    requires
        forall|i: int| 0 <= i < pattern@.len() ==> pattern@[i] != i32::MIN,
    ensures
        steps@.len() == pattern@.len() + 1,
        forall|i: int| 0 <= i < pattern@.len() ==> {
            &&& (#[trigger] steps@[i]).text@ == step_text(pattern@[i], message@)
            &&& steps@[i].sleep_secs == step_secs(pattern@[i])
        },
        forall|i: int| 0 <= i < pattern@.len() && pattern@[i] > 0 ==> (#[trigger] steps@[i]).text@ == message@,
        forall|i: int| 0 <= i < pattern@.len() && pattern@[i] <= 0 ==> (#[trigger] steps@[i]).text@ == Seq::<char>::empty(),
        forall|i: int| 0 <= i < pattern@.len() ==> (#[trigger] steps@[i]).sleep_secs
            == (if pattern@[i] < 0 { -pattern@[i] } else { pattern@[i] as int }),
        steps@[pattern@.len() as int].text@ == Seq::<char>::empty(),
        steps@[pattern@.len() as int].sleep_secs == 0,
{
    let mut steps: Vec<OverlayStep> = Vec::new();
    let mut i: usize = 0;
    while i < pattern.len()
        invariant
            i <= pattern@.len(),
            steps@.len() == i,
            forall|j: int| 0 <= j < pattern@.len() ==> pattern@[j] != i32::MIN,
            forall|j: int| 0 <= j < i ==> {
                &&& (#[trigger] steps@[j]).text@ == step_text(pattern@[j], message@)
                &&& steps@[j].sleep_secs == step_secs(pattern@[j])
            },
        decreases pattern@.len() - i,
    {
        let delay = pattern[i];
        let text = if delay > 0 { message.clone() } else { String::new() };
        let secs: u64 = if delay < 0 { (-delay) as u64 } else { delay as u64 };
        steps.push(OverlayStep { text, sleep_secs: secs });
        i = i + 1;
    }
    steps.push(OverlayStep { text: String::new(), sleep_secs: 0 });
    steps
}

/// Whether the overlay is visible with this text: it is hidden exactly when
/// the text is empty.
pub fn overlay_visible(text: &String) -> (b: bool)
    ensures
        b == (text@.len() > 0),
{
    let empty = String::new();
    let same = *text == empty;
    proof {
        if text@.len() == 0 {
            assert(text@ =~= empty@);
        }
    }
    !same
}

/// Each entry of the show pattern shows the message itself, whatever it is,
/// when positive, and nothing otherwise, for its absolute value in seconds.
pub proof fn step_rule(delay: i32, message: Seq<char>)
    ensures
        delay > 0 ==> step_text(delay, message) == message,
        delay <= 0 ==> step_text(delay, message) == Seq::<char>::empty(),
        step_secs(delay) >= 0,
        delay >= 0 ==> step_secs(delay) == delay,
        delay < 0 ==> step_secs(delay) == -delay,
{
}

} // verus!
