//! Decision logic of a card widget: a head, a body and an optional foot,
//! with an optional close icon in the head.
//!
//! The widget itself lives with the host toolkit; this library holds what it
//! decides while dispatching events, hinting the cursor and walking its layout.
pub mod close;
pub mod interaction;
pub mod shape;
pub mod status;

pub use close::{close_status, pointer_over_close, CloseOutcome, PointerInput};
pub use interaction::card_interaction;
pub use shape::{check_layout, layout_shape, MissingLayout};
pub use status::combine_statuses;
