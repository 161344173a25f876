use card_widget::{
    card_interaction, check_layout, close_status, combine_statuses, layout_shape,
    pointer_over_close, MissingLayout, PointerInput,
};
use iced_native::event::Status;
use iced_native::mouse::Interaction;

#[test]
fn statuses_all_ignored_stay_ignored() {
    let r = combine_statuses(Status::Ignored, Status::Ignored, Status::Ignored, None);
    assert_eq!(r, Status::Ignored);
    let r = combine_statuses(
        Status::Ignored,
        Status::Ignored,
        Status::Ignored,
        Some(Status::Ignored),
    );
    assert_eq!(r, Status::Ignored);
}

#[test]
fn any_captured_status_captures() {
    assert_eq!(
        combine_statuses(Status::Captured, Status::Ignored, Status::Ignored, None),
        Status::Captured
    );
    assert_eq!(
        combine_statuses(Status::Ignored, Status::Captured, Status::Ignored, None),
        Status::Captured
    );
    assert_eq!(
        combine_statuses(Status::Ignored, Status::Ignored, Status::Captured, None),
        Status::Captured
    );
    assert_eq!(
        combine_statuses(
            Status::Ignored,
            Status::Ignored,
            Status::Ignored,
            Some(Status::Captured)
        ),
        Status::Captured
    );
}

#[test]
fn left_press_on_close_icon_publishes() {
    let r = close_status(true, true, PointerInput::LeftPress, true);
    assert!(r.publish);
    assert_eq!(r.status, Status::Captured);
}

#[test]
fn finger_press_on_close_icon_publishes() {
    let r = close_status(true, true, PointerInput::FingerPress, true);
    assert!(r.publish);
    assert_eq!(r.status, Status::Captured);
}

#[test]
fn close_icon_ignores_other_input() {
    let r = close_status(true, true, PointerInput::Other, true);
    assert!(!r.publish);
    assert_eq!(r.status, Status::Ignored);
}

#[test]
fn close_icon_ignores_press_outside() {
    let r = close_status(true, true, PointerInput::LeftPress, false);
    assert!(!r.publish);
    assert_eq!(r.status, Status::Ignored);
}

#[test]
fn close_icon_needs_a_message() {
    let r = close_status(true, false, PointerInput::LeftPress, true);
    assert!(!r.publish);
    assert_eq!(r.status, Status::Ignored);
}

#[test]
fn close_icon_needs_its_layout() {
    let r = close_status(false, true, PointerInput::FingerPress, true);
    assert!(!r.publish);
    assert_eq!(r.status, Status::Ignored);
}

#[test]
fn hover_over_close_icon() {
    assert!(pointer_over_close(true, true));
    assert!(!pointer_over_close(true, false));
    assert!(!pointer_over_close(false, true));
}

#[test]
fn pointer_hint_over_close_icon() {
    let r = card_interaction(true, Interaction::Idle, Interaction::Idle, None);
    assert_eq!(r, Interaction::Pointer);
}

#[test]
fn idle_hint_away_from_close_icon() {
    let r = card_interaction(false, Interaction::Idle, Interaction::Idle, None);
    assert_eq!(r, Interaction::Idle);
}

#[test]
fn higher_child_hint_wins() {
    let r = card_interaction(true, Interaction::Text, Interaction::Idle, None);
    assert_eq!(r, Interaction::Text);
    let r = card_interaction(false, Interaction::Idle, Interaction::Grab, None);
    assert_eq!(r, Interaction::Grab);
    let r = card_interaction(
        true,
        Interaction::Text,
        Interaction::Grab,
        Some(Interaction::ResizingVertically),
    );
    assert_eq!(r, Interaction::ResizingVertically);
}

#[test]
fn foot_hint_counts() {
    let r = card_interaction(false, Interaction::Idle, Interaction::Idle, Some(Interaction::Working));
    assert_eq!(r, Interaction::Working);
}

#[test]
fn computed_layout_shapes() {
    assert_eq!(layout_shape(false, false), vec![1, 1, 0]);
    assert_eq!(layout_shape(true, false), vec![2, 1, 0]);
    assert_eq!(layout_shape(false, true), vec![1, 1, 1]);
    assert_eq!(layout_shape(true, true), vec![2, 1, 1]);
}

#[test]
fn computed_layouts_pass_the_check() {
    for close in [false, true] {
        for foot in [false, true] {
            assert_eq!(check_layout(&layout_shape(close, foot), foot), Ok(close));
        }
    }
}

#[test]
fn missing_layouts_are_named() {
    assert_eq!(check_layout(&vec![], false), Err(MissingLayout::Head));
    assert_eq!(check_layout(&vec![0, 1, 1], false), Err(MissingLayout::HeadContent));
    assert_eq!(check_layout(&vec![1], false), Err(MissingLayout::Body));
    assert_eq!(check_layout(&vec![1, 0, 1], false), Err(MissingLayout::BodyContent));
    assert_eq!(check_layout(&vec![2, 1], false), Err(MissingLayout::Foot));
    assert_eq!(check_layout(&vec![1, 1, 0], true), Err(MissingLayout::FootContent));
}

#[test]
fn empty_foot_region_is_fine_without_foot() {
    assert_eq!(check_layout(&vec![1, 1, 0], false), Ok(false));
    assert_eq!(check_layout(&vec![2, 1, 0], false), Ok(true));
}
