use iced_native::event::Status;
use vstd::prelude::*;

verus! {

/// The toolkit's capture status: `Ignored` or `Captured`.
#[verifier::external_type_specification]
pub struct ExStatus(iced_native::event::Status);

/// Whether a status says that the event was consumed.
pub open spec fn captured(s: Status) -> bool {
    s is Captured
}

/// Relies on `Status::merge`: `Captured` takes precedence over `Ignored`.
pub assume_specification[ iced_native::event::Status::merge ](self_: Status, b: Status) -> (r:
    Status)
    ensures
        r == (if self_ is Captured {
            Status::Captured
        } else {
            b
        }),
;

/// Whether the foot, if there is one, captured the event.
pub open spec fn foot_captured(foot: Option<Status>) -> bool {
    match foot {
        Some(s) => captured(s),
        None => false,
    }
}

/// Merges the statuses reported by the head, the close icon, the body and the
/// foot (`None` when the card has no foot), in that order: the event is
/// captured if any of them captured it.
pub fn combine_statuses(head: Status, close: Status, body: Status, foot: Option<Status>) -> (r:
    Status)
    ensures
        captured(r) == (captured(head) || captured(close) || captured(body) || foot_captured(
            foot,
        )),
{
    let foot_status = match foot {
        Some(s) => s,
        None => Status::Ignored,
    };
    head.merge(close).merge(body).merge(foot_status)
}

} // verus!
