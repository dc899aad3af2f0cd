//! What a launch asks to be shown.
use vstd::prelude::*;

use crate::text;

verus! {

/// The window a launch brings up, in this process or in the one that is already running.
#[derive(Clone, Copy, Debug, PartialEq, Eq, Structural)]
pub enum ActivationTarget {
    Main,
    QuickAdd,
}

/// Some argument is the switch for the quick-add popup.
pub open spec fn asks_for_quick_add(args: Seq<Option<String>>) -> bool {
    exists|i: int|
        0 <= i < args.len() && (#[trigger] args[i] matches Some(a) && a@ == "--quick-add"@)
}

/// What the arguments of a launch ask for. `None` stands for an argument that is no text.
pub fn activation_of(args: &Vec<Option<String>>) -> (r: ActivationTarget)
    ensures
        r == (if asks_for_quick_add(args@) {
            ActivationTarget::QuickAdd
        } else {
            ActivationTarget::Main
        }),
{
    for i in 0..args.len()
        invariant
            forall|k: int|
                0 <= k < i ==> !(#[trigger] args@[k] matches Some(a) && a@ == "--quick-add"@),
    {
        if let Some(a) = &args[i] {
            if text::same_text(a.as_str(), "--quick-add") {
                assert(args@[i as int] matches Some(a) && a@ == "--quick-add"@);
                return ActivationTarget::QuickAdd;
            }
        }
    }
    ActivationTarget::Main
}

/// The switch for the popup is honoured wherever it stands among the arguments, and nothing else
/// asks for the popup.
pub proof fn law_switch_is_honoured_anywhere(
    before: Seq<Option<String>>,
    switch: String,
    after: Seq<Option<String>>,
)
    ensures
        switch@ == "--quick-add"@ ==> asks_for_quick_add(before + seq![Some(switch)] + after),
        !asks_for_quick_add(before) && !asks_for_quick_add(after) && switch@ != "--quick-add"@
            ==> !asks_for_quick_add(before + seq![Some(switch)] + after),
        !asks_for_quick_add(Seq::empty()),
{
    let all = before + seq![Some(switch)] + after;
    assert(all[before.len() as int] == Some(switch));
    if !asks_for_quick_add(before) && !asks_for_quick_add(after) && switch@ != "--quick-add"@ {
        assert forall|i: int| 0 <= i < all.len() implies !(#[trigger] all[i] matches Some(a) && a@
            == "--quick-add"@) by {
            if i < before.len() {
                assert(all[i] == before[i]);
            } else if i > before.len() {
                assert(all[i] == after[i - before.len() - 1]);
            }
        }
    }
}

} // verus!
