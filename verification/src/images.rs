//! What an image node, or a list row's avatar, resolves to: Core's picture
//! bytes, the initials it prepared for when there are none, or nothing;
//! and how Core's shape decides the crop.

use vstd::prelude::*;

verus! {

/// What an image resolves to, decided before any widget exists.
#[derive(Debug, PartialEq, Eq)]
pub enum ImageContent<'a> {
    Picture(&'a [u8]),
    Initials(&'a str),
    Nothing,
}

/// Picture bytes win when there are any; empty bytes are not a picture, so
/// the initials stand in when they are not empty; otherwise nothing.
pub open spec fn image_content_spec<'a>(
    data: Option<&'a [u8]>,
    fallback_text: Option<&'a str>,
) -> ImageContent<'a> {
    if data matches Some(bytes) && bytes@.len() > 0 {
        ImageContent::Picture(data->0)
    } else if fallback_text matches Some(initials) && initials@.len() > 0 {
        ImageContent::Initials(fallback_text->0)
    } else {
        ImageContent::Nothing
    }
}

pub fn image_content<'a>(data: Option<&'a [u8]>, fallback_text: Option<&'a str>) -> (content:
    ImageContent<'a>)
    ensures
        content == image_content_spec(data, fallback_text),
{
    match data {
        Some(bytes) => {
            if bytes.len() > 0 {
                return ImageContent::Picture(bytes);
            }
        },
        None => {},
    }
    match fallback_text {
        Some(initials) => {
            if initials.unicode_len() > 0 {
                return ImageContent::Initials(initials);
            }
        },
        None => {},
    }
    ImageContent::Nothing
}

/// The shape Core asks an image to take.
#[derive(Clone, Copy, Debug, PartialEq, Eq, Structural)]
pub enum PresentationImageShape {
    Circle,
    Natural,
}

/// Only `Circle` is cropped round; any other shape keeps its corners.
pub fn shape_is_circle(shape: PresentationImageShape) -> (circle: bool)
    ensures
        circle == (shape == PresentationImageShape::Circle),
{
    match shape {
        PresentationImageShape::Circle => true,
        _ => false,
    }
}

/// The style classes of an image: `avatar`, and `natural` too when it keeps
/// its corners.
pub fn shape_classes(shape: PresentationImageShape) -> (classes: Vec<&'static str>)
    ensures
        shape == PresentationImageShape::Circle ==> classes@.map_values(|c: &str| c@) == seq![
            "avatar"@,
        ],
        shape != PresentationImageShape::Circle ==> classes@.map_values(|c: &str| c@) == seq![
            "avatar"@,
            "natural"@,
        ],
{
    let classes = if shape_is_circle(shape) {
        vec!["avatar"]
    } else {
        vec!["avatar", "natural"]
    };
    assert(shape == PresentationImageShape::Circle ==> classes@.map_values(|c: &str| c@) =~= seq!["avatar"@]);
    assert(shape != PresentationImageShape::Circle ==> classes@.map_values(|c: &str| c@) =~= seq!["avatar"@, "natural"@]);
    classes
}

/// The widget an image node becomes.
#[derive(Clone, Copy, Debug, PartialEq, Eq, Structural)]
pub enum ImageWidget {
    /// An empty box: nothing to show shows nothing, whatever the shape.
    Empty,
    /// A round avatar drawing the picture or the initials.
    Avatar,
    /// The decoded picture, keeping its corners.
    Picture,
    /// The initials on a ground, keeping its corners.
    InitialsLabel,
}

/// Which widget draws an image's content in a shape.
pub fn image_widget_kind(content: &ImageContent, shape: PresentationImageShape) -> (kind: ImageWidget)
    ensures
        kind == (match *content {
            ImageContent::Nothing => ImageWidget::Empty,
            ImageContent::Picture(_) => if shape == PresentationImageShape::Circle {
                ImageWidget::Avatar
            } else {
                ImageWidget::Picture
            },
            ImageContent::Initials(_) => if shape == PresentationImageShape::Circle {
                ImageWidget::Avatar
            } else {
                ImageWidget::InitialsLabel
            },
        }),
{
    match content {
        ImageContent::Nothing => ImageWidget::Empty,
        _ => if shape_is_circle(shape) {
            ImageWidget::Avatar
        } else {
            match content {
                ImageContent::Picture(_) => ImageWidget::Picture,
                _ => ImageWidget::InitialsLabel,
            }
        },
    }
}

} // verus!
