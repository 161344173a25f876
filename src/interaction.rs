use iced_native::mouse::Interaction;
use vstd::prelude::*;

verus! {

/// The toolkit's cursor hint, a plain enum ordered by its variants.
#[verifier::external_type_specification]
pub struct ExInteraction(iced_native::mouse::Interaction);

/// The place of a cursor hint in the order that `Interaction` derives: the
/// order in which its variants are declared.
pub open spec fn rank(i: Interaction) -> int {
    match i {
        Interaction::Idle => 0,
        Interaction::Pointer => 1,
        Interaction::Grab => 2,
        Interaction::Text => 3,
        Interaction::Crosshair => 4,
        Interaction::Working => 5,
        Interaction::Grabbing => 6,
        Interaction::ResizingHorizontally => 7,
        Interaction::ResizingVertically => 8,
    }
}

/// The higher ranked of two cursor hints.
pub open spec fn higher(a: Interaction, b: Interaction) -> Interaction {
    if rank(b) >= rank(a) {
        b
    } else {
        a
    }
}

/// Relies on the `Default` impl of `mouse::Interaction`, which returns `Idle`.
pub assume_specification[ <iced_native::mouse::Interaction as core::default::Default>::default ]() -> (r: Interaction)
    ensures
        r == Interaction::Idle,
;

/// Relies on `Ord::max` over the derived order of `mouse::Interaction`:
/// variants compare by declaration order, and `max` returns its second
/// argument when the two are equal.
#[verifier::external_body]
fn max_interaction(a: Interaction, b: Interaction) -> (r: Interaction)
    ensures
        r == higher(a, b),
{
    a.max(b)
}

/// The cursor hint the card gives on its own: a pointer over the close icon,
/// the toolkit's default elsewhere.
pub open spec fn own_hint(over_close: bool) -> Interaction {
    if over_close {
        Interaction::Pointer
    } else {
        Interaction::Idle
    }
}

/// The hint of the foot, the default one when the card has no foot.
pub open spec fn foot_hint(foot: Option<Interaction>) -> Interaction {
    match foot {
        Some(i) => i,
        None => Interaction::Idle,
    }
}

/// Chooses the card's cursor hint: the highest ranked of its own hint
/// (`Pointer` when `over_close`), the head's, the body's and the foot's.
pub fn card_interaction(
    over_close: bool,
    head: Interaction,
    body: Interaction,
    foot: Option<Interaction>,
) -> (r: Interaction)
    ensures
        r == higher(higher(higher(own_hint(over_close), head), body), foot_hint(foot)),
        rank(r) >= rank(own_hint(over_close)),
        rank(r) >= rank(head),
        rank(r) >= rank(body),
        rank(r) >= rank(foot_hint(foot)),
        r == own_hint(over_close) || r == head || r == body || r == foot_hint(foot),
{
    let own = if over_close {
        Interaction::Pointer
    } else {
        Interaction::default()
    };
    let foot_interaction = match foot {
        Some(i) => i,
        None => Interaction::default(),
    };
    max_interaction(max_interaction(max_interaction(own, head), body), foot_interaction)
}

} // verus!
