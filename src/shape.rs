use vstd::prelude::*;

verus! {

/// A layout entry that the card expected and did not find.
#[derive(Clone, Copy, Debug, PartialEq, Eq, Structural)]
pub enum MissingLayout {
    /// The card's layout has no head region.
    Head,
    /// The head region holds no layout for the head's content.
    HeadContent,
    /// The card's layout has no body region.
    Body,
    /// The body region holds no layout for the body's content.
    BodyContent,
    /// The card's layout has no foot region.
    Foot,
    /// The card has a foot, and the foot region holds no layout for it.
    FootContent,
}

/// The shape of a card's layout: for each region (head, body, foot, in that
/// order), how many child layouts it holds.
pub open spec fn expected_shape(close: bool, foot: bool) -> Seq<usize> {
    seq![if close { 2usize } else { 1usize }, 1usize, if foot { 1usize } else { 0usize }]
}

/// The first entry, in the order in which the card walks its layout, that a
/// layout of the given shape lacks; `None` when it lacks none.
pub open spec fn first_missing(shape: Seq<usize>, foot: bool) -> Option<MissingLayout> {
    if shape.len() < 1 {
        Some(MissingLayout::Head)
    } else if shape[0] < 1 {
        Some(MissingLayout::HeadContent)
    } else if shape.len() < 2 {
        Some(MissingLayout::Body)
    } else if shape[1] < 1 {
        Some(MissingLayout::BodyContent)
    } else if shape.len() < 3 {
        Some(MissingLayout::Foot)
    } else if foot && shape[2] < 1 {
        Some(MissingLayout::FootContent)
    } else {
        None
    }
}

/// The shape of the layout that the card computes: the head holds its
/// content and, when a close message is configured, the close icon; the body
/// holds its content; the foot holds its content when there is one and is
/// empty otherwise.
pub fn layout_shape(close: bool, foot: bool) -> (r: Vec<usize>)
    ensures
        r@ == expected_shape(close, foot),
{
    let head: usize = if close {
        2
    } else {
        1
    };
    let foot_children: usize = if foot {
        1
    } else {
        0
    };
    let r = vec![head, 1, foot_children];
    assert(r@ =~= expected_shape(close, foot));
    r
}

/// Checks a layout before the card walks it to dispatch an event or to draw.
/// Fails with the first entry that is missing; otherwise tells whether the
/// head holds a layout for the close icon.
pub fn check_layout(shape: &Vec<usize>, foot: bool) -> (r: Result<bool, MissingLayout>)
    ensures
        first_missing(shape@, foot) is None ==> r == Ok::<bool, MissingLayout>(shape@[0] >= 2),
        first_missing(shape@, foot) matches Some(m) ==> r == Err::<bool, MissingLayout>(m),
{
    if shape.len() < 1 {
        return Err(MissingLayout::Head);
    }
    if shape[0] < 1 {
        return Err(MissingLayout::HeadContent);
    }
    if shape.len() < 2 {
        return Err(MissingLayout::Body);
    }
    if shape[1] < 1 {
        return Err(MissingLayout::BodyContent);
    }
    if shape.len() < 3 {
        return Err(MissingLayout::Foot);
    }
    if foot && shape[2] < 1 {
        return Err(MissingLayout::FootContent);
    }
    Ok(shape[0] >= 2)
}

/// The layout that the card computes is always one that it can walk: nothing
/// is missing from it, and its head holds a close icon exactly when a close
/// message is configured.
pub proof fn lemma_layout_walkable(close: bool, foot: bool)
    ensures
        first_missing(expected_shape(close, foot), foot) is None,
        expected_shape(close, foot)[0] >= 2 <==> close,
{
}

} // verus!
