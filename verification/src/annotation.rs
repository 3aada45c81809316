//! Annotations that can be placed on an image: outlined rectangles and
//! lines of text.

use crate::fixed::Fixed;
use crate::geometry::{Pos2, Rect, Vec2};
use uuid::Uuid;
use vstd::prelude::*;
use vstd::string::StringSliceAdditionalSpecFns;

verus! {

/// `uuid::Uuid`: the identifier of an annotation. Opaque.
#[verifier::external_type_specification]
#[verifier::external_body]
pub struct ExUuid(Uuid);

/// `Clone` for `Uuid`, which is `Copy`. Trusted: the clone is the
/// identifier itself.
pub assume_specification[ <Uuid as Clone>::clone ](id: &Uuid) -> (r: Uuid)
    ensures
        r == *id,
;

/// A color as red, green, blue and alpha.
#[derive(Clone, Copy, Debug, PartialEq, Eq, Structural)]
pub struct Color32 {
    pub r: u8,
    pub g: u8,
    pub b: u8,
    pub a: u8,
}

impl Color32 {
    /// An opaque color.
    pub open spec fn spec_from_rgb(r: u8, g: u8, b: u8) -> Color32 {
        Color32 { r, g, b, a: 255 }
    }

    /// Pure red.
    pub open spec fn spec_red() -> Color32 {
        Color32::from_rgb(255, 0, 0)
    }

    /// Black.
    pub open spec fn spec_black() -> Color32 {
        Color32::from_rgb(0, 0, 0)
    }

    /// An opaque color.
    #[verifier::when_used_as_spec(spec_from_rgb)]
    pub fn from_rgb(r: u8, g: u8, b: u8) -> (c: Color32)
        ensures
            c == Self::spec_from_rgb(r, g, b),
    {
        Color32 { r, g, b, a: 255 }
    }

    /// Pure red.
    #[verifier::when_used_as_spec(spec_red)]
    pub fn red() -> (c: Color32)
        ensures
            c == Self::spec_red(),
    {
        Color32::from_rgb(255, 0, 0)
    }

    /// Black.
    #[verifier::when_used_as_spec(spec_black)]
    pub fn black() -> (c: Color32)
        ensures
            c == Self::spec_black(),
    {
        Color32::from_rgb(0, 0, 0)
    }
}

/// What an annotation draws.
#[derive(Clone, Debug, PartialEq)]
pub enum AnnotationType {
    Rectangle { size: Vec2, stroke_color: Color32, stroke_width: Fixed },
    Text { content: String, font_size: Fixed, color: Color32 },
}

/// An annotation on an image.
#[derive(Clone, Debug, PartialEq)]
pub struct AnnotationItem {
    pub id: Uuid,
    pub position: Pos2,
    pub is_selected: bool,
    pub annotation_type: AnnotationType,
}

/// A new random identifier, from `Uuid::new_v4`. Trusted; nothing is
/// claimed of the identifier. The call panics where the system has no
/// random bytes to give.
#[verifier::external_body]
fn fresh_id() -> (id: Uuid) {
    Uuid::new_v4()
}

/// The space that a text of `length` bytes (in UTF-8) takes at `font_size`: three
/// fifths of the font size for each byte, and six fifths of it in height.
pub open spec fn text_extent(length: usize, font_size: Fixed) -> Vec2 {
    Vec2::new(
        Fixed::from_count(length).times(font_size).times(Fixed::from_ratio(3, 5)),
        font_size.times(Fixed::from_ratio(6, 5)),
    )
}

/// The side of a selection handle, in units.
pub open spec fn handle_size() -> Fixed {
    Fixed::from_int(6)
}

/// The selection handle at `corner`: a square centered on it.
pub open spec fn handle_at(corner: Pos2) -> Rect {
    Rect::from_min_size(
        Pos2::new(
            corner.x.minus(handle_size().times(Fixed::from_ratio(1, 2))),
            corner.y.minus(handle_size().times(Fixed::from_ratio(1, 2))),
        ),
        Vec2::new(handle_size(), handle_size()),
    )
}

/// The selection handles of a rectangle: one at each corner, clockwise
/// from `min`.
pub open spec fn handles_of(rect: Rect) -> Seq<Rect> {
    seq![
        handle_at(rect.min),
        handle_at(Pos2::new(rect.max.x, rect.min.y)),
        handle_at(rect.max),
        handle_at(Pos2::new(rect.min.x, rect.max.y)),
    ]
}

/// The selection handle at `corner`.
fn handle(corner: Pos2) -> (r: Rect)
    ensures
        r == handle_at(corner),
{
    let half = Fixed::from_int(6).times(Fixed::from_ratio(1, 2));
    Rect::from_min_size(
        Pos2::new(corner.x.minus(half), corner.y.minus(half)),
        Vec2::new(Fixed::from_int(6), Fixed::from_int(6)),
    )
}

/// The selection handles of a rectangle that is drawn at `rect`.
pub fn selection_handles(rect: Rect) -> (r: Vec<Rect>)
    ensures
        r@ == handles_of(rect),
{
    let mut handles: Vec<Rect> = Vec::new();
    handles.push(handle(rect.min));
    handles.push(handle(Pos2::new(rect.max.x, rect.min.y)));
    handles.push(handle(rect.max));
    handles.push(handle(Pos2::new(rect.min.x, rect.max.y)));
    assert(handles@ =~= handles_of(rect));
    handles
}

impl AnnotationItem {
    /// Where the annotation is drawn when its image is drawn at
    /// `image_rect`, zoomed by `zoom`.
    pub open spec fn spec_drawn_position(&self, image_rect: Rect, zoom: Fixed) -> Pos2 {
        image_rect.min.plus(Vec2::new(self.position.x, self.position.y).scaled(zoom))
    }

    /// The rectangle that is drawn for a rectangle annotation.
    pub open spec fn spec_drawn_rect(&self, image_rect: Rect, zoom: Fixed) -> Option<Rect> {
        match self.annotation_type {
            AnnotationType::Rectangle { size, .. } => Some(
                Rect::from_min_size(self.spec_drawn_position(image_rect, zoom), size.scaled(zoom)),
            ),
            AnnotationType::Text { .. } => None,
        }
    }

    /// The font size at which a text annotation is drawn.
    pub open spec fn spec_drawn_font_size(&self, zoom: Fixed) -> Option<Fixed> {
        match self.annotation_type {
            AnnotationType::Rectangle { .. } => None,
            AnnotationType::Text { font_size, .. } => Some(font_size.times(zoom)),
        }
    }

    /// Where the annotation is drawn when its image is drawn at
    /// `image_rect`, zoomed by `zoom`.
    #[verifier::when_used_as_spec(spec_drawn_position)]
    pub fn drawn_position(&self, image_rect: Rect, zoom: Fixed) -> (r: Pos2)
        ensures
            r == self.spec_drawn_position(image_rect, zoom),
    {
        image_rect.min.plus(Vec2::new(self.position.x, self.position.y).scaled(zoom))
    }

    /// The rectangle that is drawn for a rectangle annotation.
    #[verifier::when_used_as_spec(spec_drawn_rect)]
    pub fn drawn_rect(&self, image_rect: Rect, zoom: Fixed) -> (r: Option<Rect>)
        ensures
            r == self.spec_drawn_rect(image_rect, zoom),
    {
        match &self.annotation_type {
            AnnotationType::Rectangle { size, .. } => Some(
                Rect::from_min_size(self.drawn_position(image_rect, zoom), size.scaled(zoom)),
            ),
            AnnotationType::Text { .. } => None,
        }
    }

    /// The font size at which a text annotation is drawn.
    #[verifier::when_used_as_spec(spec_drawn_font_size)]
    pub fn drawn_font_size(&self, zoom: Fixed) -> (r: Option<Fixed>)
        ensures
            r == self.spec_drawn_font_size(zoom),
    {
        match &self.annotation_type {
            AnnotationType::Rectangle { .. } => None,
            AnnotationType::Text { font_size, .. } => Some(font_size.times(zoom)),
        }
    }

    /// The rectangle that the annotation takes on the image.
    pub open spec fn spec_bounds(&self) -> Rect {
        match self.annotation_type {
            AnnotationType::Rectangle { size, .. } => Rect::from_min_size(self.position, size),
            AnnotationType::Text { font_size, content, .. } => Rect::from_min_size(
                self.position,
                text_extent(vstd::utf8::encode_utf8(content@).len() as usize, font_size),
            ),
        }
    }

    /// A red rectangle of the given size, outlined two units wide.
    pub fn new_rectangle(position: Pos2, size: Vec2) -> (r: AnnotationItem)
        ensures
            r.position == position,
            !r.is_selected,
            r.annotation_type == (AnnotationType::Rectangle {
                size,
                stroke_color: Color32::red(),
                stroke_width: Fixed::from_int(2),
            }),
    {
        AnnotationItem {
            id: fresh_id(),
            position,
            is_selected: false,
            annotation_type: AnnotationType::Rectangle {
                size,
                stroke_color: Color32::red(),
                stroke_width: Fixed::from_int(2),
            },
        }
    }

    /// A black text, fourteen units high.
    pub fn new_text(position: Pos2, content: String) -> (r: AnnotationItem)
        ensures
            r.position == position,
            !r.is_selected,
            r.annotation_type == (AnnotationType::Text {
                content,
                font_size: Fixed::from_int(14),
                color: Color32::black(),
            }),
    {
        AnnotationItem {
            id: fresh_id(),
            position,
            is_selected: false,
            annotation_type: AnnotationType::Text {
                content,
                font_size: Fixed::from_int(14),
                color: Color32::black(),
            },
        }
    }

    /// The rectangle that the annotation takes on the image.
    #[verifier::when_used_as_spec(spec_bounds)]
    pub fn bounds(&self) -> (r: Rect)
        ensures
            r == self.spec_bounds(),
    {
        match &self.annotation_type {
            AnnotationType::Rectangle { size, .. } => Rect::from_min_size(self.position, *size),
            AnnotationType::Text { font_size, content, .. } => {
                let length = content.as_str().len();
                let width = Fixed::from_count(length).times(*font_size).times(
                    Fixed::from_ratio(3, 5),
                );
                let height = font_size.times(Fixed::from_ratio(6, 5));
                Rect::from_min_size(self.position, Vec2::new(width, height))
            },
        }
    }

    /// Whether `point` lies in the rectangle of the annotation.
    pub fn contains_point(&self, point: Pos2) -> (r: bool)
        ensures
            r == self.bounds().contains(point),
    {
        self.bounds().contains(point)
    }
}

} // verus!
