//! The state of the editor: the image being edited, the selected tool, and
//! the zoom and pan of the view, with the rules by which they change.

use crate::annotation::AnnotationItem;
use crate::error::AppError;
use crate::fixed::Fixed;
use crate::geometry::{Pos2, Rect, Vec2};
use crate::imaging::{image_rows, image_width, rgb_image, sample_index};
use crate::types::Tool;
use image::DynamicImage;
use vstd::prelude::*;

verus! {

/// The width of the test image.
pub const TEST_IMAGE_WIDTH: u32 = 400;

/// The height of the test image.
pub const TEST_IMAGE_HEIGHT: u32 = 300;

/// The state of the editor.
pub struct EditorApp {
    source_image: Option<DynamicImage>,
    annotations: Vec<AnnotationItem>,
    current_tool: Tool,
    zoom_level: Fixed,
    pan_offset: Vec2,
    should_close: bool,
    is_panning: bool,
    last_mouse_pos: Option<Pos2>,
}

/// The smallest zoom that the controls allow: one tenth.
pub open spec fn min_zoom() -> Fixed {
    Fixed::from_ratio(1, 10)
}

/// The largest zoom that the controls allow: ten.
pub open spec fn max_zoom() -> Fixed {
    Fixed::from_int(10)
}

/// The factor of one zoom step: six fifths.
pub open spec fn zoom_step() -> Fixed {
    Fixed::from_ratio(6, 5)
}

/// The zoom after one step in: a step more, but no more than the largest.
pub open spec fn zoomed_in(zoom: Fixed) -> Fixed {
    zoom.times(zoom_step()).min(max_zoom())
}

/// The zoom after one step out: a step less, but no less than the smallest.
pub open spec fn zoomed_out(zoom: Fixed) -> Fixed {
    zoom.divided_by(zoom_step()).max(min_zoom())
}

/// How often `part` goes into `whole`; the largest number where `part` is
/// zero.
pub open spec fn ratio_or_most(whole: Fixed, part: Fixed) -> Fixed {
    if part.raw == 0 {
        Fixed { raw: i64::MAX }
    } else {
        whole.divided_by(part)
    }
}

/// The zoom at which an image of the given size fits a canvas of 800 by
/// 600 units, but no more than one.
pub open spec fn fitting_zoom(image_size: Vec2) -> Fixed {
    ratio_or_most(Fixed::from_int(800), image_size.x).min(
        ratio_or_most(Fixed::from_int(600), image_size.y),
    ).min(Fixed::one())
}

/// The zoom after the wheel was turned by `scroll_delta`: a thousandth
/// more for each unit, within the limits of the controls.
pub open spec fn scrolled_zoom(zoom: Fixed, scroll_delta: Fixed) -> Fixed {
    zoom.times(Fixed::one().plus(scroll_delta.times(Fixed::from_ratio(1, 1000)))).clamped(
        min_zoom(),
        max_zoom(),
    )
}

/// The pan that keeps the point under the pointer in place while the zoom
/// changes from `old_zoom` to `new_zoom`; `pointer` is the pointer's
/// position relative to the center of the canvas.
pub open spec fn pan_towards(pan: Vec2, pointer: Vec2, old_zoom: Fixed, new_zoom: Fixed) -> Vec2 {
    if old_zoom.raw == 0 {
        pan
    } else {
        pan.minus(pointer.scaled(new_zoom.divided_by(old_zoom).minus(Fixed::one())))
    }
}

/// The part of an image that always stays on the canvas, in units.
pub open spec fn min_visible_size() -> Fixed {
    Fixed::from_int(50)
}

/// The pan nearest to `pan` that keeps at least fifty units of an image of
/// size `display_size` on a canvas of size `canvas_size`.
pub open spec fn constrained_pan(pan: Vec2, canvas_size: Vec2, display_size: Vec2) -> Vec2 {
    Vec2 {
        x: pan.x.clamped(
            display_size.x.minus(min_visible_size()).max(Fixed::zero()).negated(),
            canvas_size.x.minus(min_visible_size()).max(Fixed::zero()),
        ),
        y: pan.y.clamped(
            display_size.y.minus(min_visible_size()).max(Fixed::zero()).negated(),
            canvas_size.y.minus(min_visible_size()).max(Fixed::zero()),
        ),
    }
}

/// Where an image of size `image_size` is drawn on the canvas `available`
/// at the given zoom and pan: centered, then moved by the pan.
pub open spec fn placed_image(available: Rect, image_size: Vec2, zoom: Fixed, pan: Vec2) -> Rect {
    Rect::from_min_size(
        available.min.plus(
            available.size().minus(image_size.scaled(zoom)).scaled(Fixed::from_ratio(1, 2)),
        ).plus(pan),
        image_size.scaled(zoom),
    )
}

/// The part of the picture, as fractions of its width and height, that
/// shows in `visible`, the part of `image_rect` that is on the canvas.
pub open spec fn shown_fraction(image_rect: Rect, visible: Rect) -> Rect {
    if image_rect.width().raw > 0 && image_rect.height().raw > 0 {
        Rect::from_min_max(
            Pos2::new(
                visible.min.x.minus(image_rect.min.x).divided_by(image_rect.width()).max(
                    Fixed::zero(),
                ),
                visible.min.y.minus(image_rect.min.y).divided_by(image_rect.height()).max(
                    Fixed::zero(),
                ),
            ),
            Pos2::new(
                visible.max.x.minus(image_rect.min.x).divided_by(image_rect.width()).min(
                    Fixed::one(),
                ),
                visible.max.y.minus(image_rect.min.y).divided_by(image_rect.height()).min(
                    Fixed::one(),
                ),
            ),
        )
    } else {
        Rect::from_min_max(Pos2::zero(), Pos2::new(Fixed::one(), Fixed::one()))
    }
}

/// What of an image drawn at `image_rect` shows on the canvas `available`:
/// the rectangle on the canvas and the fraction of the picture in it, or
/// nothing where the image is off the canvas.
pub open spec fn visible_part(image_rect: Rect, available: Rect) -> Option<(Rect, Rect)> {
    let visible = image_rect.intersect(available);
    if visible.width().raw > 0 && visible.height().raw > 0 {
        Some((visible, shown_fraction(image_rect, visible)))
    } else {
        None
    }
}

/// The numbers that the overlay shows: the zoom in percent and, while
/// the view is panned, the pan, each rounded to a whole number. There is
/// no overlay while the view is neither zoomed nor panned.
pub open spec fn overlay_numbers(zoom: Fixed, pan: Vec2) -> Option<(i64, Option<(i64, i64)>)> {
    if zoom != Fixed::one() || pan != Vec2::zero() {
        Some(
            (
                zoom.times(Fixed::from_int(100)).rounded(),
                if pan != Vec2::zero() {
                    Some((pan.x.rounded(), pan.y.rounded()))
                } else {
                    None
                },
            ),
        )
    } else {
        None
    }
}

/// The color of the test image at column `x` of row `y`: red grows to the
/// right, green downwards and blue along the diagonal.
pub open spec fn gradient_pixel(x: int, y: int) -> (u8, u8, u8, u8) {
    (
        ((x * 255) / 400) as u8,
        ((y * 255) / 300) as u8,
        (((x + y) * 255) / 700) as u8,
        255u8,
    )
}

/// `image` is the test image: 400 by 300 pixels of the gradient.
pub open spec fn is_test_image(image: DynamicImage) -> bool {
    &&& image_width(image) == 400
    &&& image_rows(image).len() == 300
    &&& forall|x: int, y: int|
        0 <= x < 400 && 0 <= y < 300 ==> #[trigger] image_rows(image)[y][x] == gradient_pixel(x, y)
}

/// The samples of the test image, row after row.
fn gradient_samples() -> (samples: Vec<u8>)
    ensures
        samples@.len() == 360000,
        forall|x: int, y: int|
            0 <= x < 400 && 0 <= y < 300 ==> {
                &&& samples@[#[trigger] sample_index(400, x, y)] == gradient_pixel(x, y).0
                &&& samples@[sample_index(400, x, y) + 1] == gradient_pixel(x, y).1
                &&& samples@[sample_index(400, x, y) + 2] == gradient_pixel(x, y).2
            },
{
    let mut samples: Vec<u8> = Vec::new();
    let mut y: u32 = 0;
    while y < TEST_IMAGE_HEIGHT
        invariant
            y <= 300,
            samples@.len() == 1200 * y,
            forall|i: int, j: int|
                0 <= i < 400 && 0 <= j < y ==> {
                    &&& samples@[#[trigger] sample_index(400, i, j)] == gradient_pixel(i, j).0
                    &&& samples@[sample_index(400, i, j) + 1] == gradient_pixel(i, j).1
                    &&& samples@[sample_index(400, i, j) + 2] == gradient_pixel(i, j).2
                },
        decreases 300 - y,
    {
        let mut x: u32 = 0;
        while x < TEST_IMAGE_WIDTH
            invariant
                x <= 400,
                y < 300,
                samples@.len() == 1200 * y + 3 * x,
                forall|i: int, j: int|
                    0 <= i < 400 && 0 <= j < 300 && (j < y || (j == y && i < x)) ==> {
                        &&& samples@[#[trigger] sample_index(400, i, j)] == gradient_pixel(i, j).0
                        &&& samples@[sample_index(400, i, j) + 1] == gradient_pixel(i, j).1
                        &&& samples@[sample_index(400, i, j) + 2] == gradient_pixel(i, j).2
                    },
            decreases 400 - x,
        {
            let red: u32 = x * 255 / TEST_IMAGE_WIDTH;
            let green: u32 = y * 255 / TEST_IMAGE_HEIGHT;
            let blue: u32 = (x + y) * 255 / (TEST_IMAGE_WIDTH + TEST_IMAGE_HEIGHT);
            samples.push(red as u8);
            samples.push(green as u8);
            samples.push(blue as u8);
            x = x + 1;
        }
        y = y + 1;
    }
    samples
}

impl Default for EditorApp {
    /// An editor without an image, with the selection tool, unzoomed.
    fn default() -> (r: EditorApp)
        ensures
            r.loaded_image() is None,
            r.annotations()@.len() == 0,
            r.current_tool() == Tool::Select,
            r.zoom_level() == Fixed::one(),
            r.pan_offset() == Vec2::zero(),
            !r.should_close(),
            !r.is_panning(),
            r.last_mouse_pos() is None,
    {
        EditorApp {
            source_image: None,
            annotations: Vec::new(),
            current_tool: Tool::Select,
            zoom_level: Fixed::one(),
            pan_offset: Vec2::zero(),
            should_close: false,
            is_panning: false,
            last_mouse_pos: None,
        }
    }
}

impl EditorApp {
    /// The image that is being edited.
    pub closed spec fn loaded_image(&self) -> Option<DynamicImage> {
        self.source_image
    }

    /// The annotations on the image.
    pub closed spec fn spec_annotations(&self) -> &Vec<AnnotationItem> {
        &self.annotations
    }

    /// The selected tool.
    pub closed spec fn spec_current_tool(&self) -> &Tool {
        &self.current_tool
    }

    /// The zoom of the view; one shows the image at its actual size.
    pub closed spec fn spec_zoom_level(&self) -> Fixed {
        self.zoom_level
    }

    /// How far the image is moved from the center of the canvas.
    pub closed spec fn spec_pan_offset(&self) -> Vec2 {
        self.pan_offset
    }

    /// Whether the editor was asked to close.
    pub closed spec fn spec_should_close(&self) -> bool {
        self.should_close
    }

    /// Whether the view is being dragged.
    pub closed spec fn spec_is_panning(&self) -> bool {
        self.is_panning
    }

    /// Where the pointer was when the drag was last followed.
    pub closed spec fn spec_last_mouse_pos(&self) -> Option<Pos2> {
        self.last_mouse_pos
    }

    /// Everything but the zoom and the pan is the same in both states.
    pub open spec fn same_but_view(&self, other: &EditorApp) -> bool {
        &&& self.loaded_image() == other.loaded_image()
        &&& self.annotations() == other.annotations()
        &&& self.current_tool() == other.current_tool()
        &&& self.should_close() == other.should_close()
        &&& self.is_panning() == other.is_panning()
        &&& self.last_mouse_pos() == other.last_mouse_pos()
    }

    /// An editor without an image, with the selection tool, unzoomed.
    pub fn new() -> (r: EditorApp)
        ensures
            r.loaded_image() is None,
            r.annotations()@.len() == 0,
            r.current_tool() == Tool::Select,
            r.zoom_level() == Fixed::one(),
            r.pan_offset() == Vec2::zero(),
            !r.should_close(),
            !r.is_panning(),
            r.last_mouse_pos() is None,
    {
        EditorApp {
            source_image: None,
            annotations: Vec::new(),
            current_tool: Tool::Select,
            zoom_level: Fixed::one(),
            pan_offset: Vec2::zero(),
            should_close: false,
            is_panning: false,
            last_mouse_pos: None,
        }
    }

    /// The image that is being edited.
    pub fn source_image(&self) -> (r: Option<&DynamicImage>)
        ensures
            match r {
                Some(image) => self.loaded_image() == Some(*image),
                None => self.loaded_image() is None,
            },
    {
        self.source_image.as_ref()
    }

    /// The annotations on the image.
    #[verifier::when_used_as_spec(spec_annotations)]
    pub fn annotations(&self) -> (r: &Vec<AnnotationItem>)
        ensures
            r == self.spec_annotations(),
    {
        &self.annotations
    }

    /// The selected tool.
    #[verifier::when_used_as_spec(spec_current_tool)]
    pub fn current_tool(&self) -> (r: &Tool)
        ensures
            r == self.spec_current_tool(),
    {
        &self.current_tool
    }

    /// The zoom of the view; one shows the image at its actual size.
    #[verifier::when_used_as_spec(spec_zoom_level)]
    pub fn zoom_level(&self) -> (r: Fixed)
        ensures
            r == self.spec_zoom_level(),
    {
        self.zoom_level
    }

    /// How far the image is moved from the center of the canvas.
    #[verifier::when_used_as_spec(spec_pan_offset)]
    pub fn pan_offset(&self) -> (r: Vec2)
        ensures
            r == self.spec_pan_offset(),
    {
        self.pan_offset
    }

    /// Whether the editor was asked to close.
    #[verifier::when_used_as_spec(spec_should_close)]
    pub fn should_close(&self) -> (r: bool)
        ensures
            r == self.spec_should_close(),
    {
        self.should_close
    }

    /// Whether the view is being dragged.
    #[verifier::when_used_as_spec(spec_is_panning)]
    pub fn is_panning(&self) -> (r: bool)
        ensures
            r == self.spec_is_panning(),
    {
        self.is_panning
    }

    /// Where the pointer was when the drag was last followed.
    #[verifier::when_used_as_spec(spec_last_mouse_pos)]
    pub fn last_mouse_pos(&self) -> (r: Option<Pos2>)
        ensures
            r == self.spec_last_mouse_pos(),
    {
        self.last_mouse_pos
    }

    /// Takes `image` as the image to edit and resets the view.
    pub fn load_image(&mut self, image: DynamicImage) -> (r: Result<(), AppError>)
        ensures
            r is Ok,
            final(self).loaded_image() == Some(image),
            final(self).zoom_level() == Fixed::one(),
            final(self).pan_offset() == Vec2::zero(),
            final(self).annotations() == old(self).annotations(),
            final(self).current_tool() == old(self).current_tool(),
            final(self).should_close() == old(self).should_close(),
            final(self).is_panning() == old(self).is_panning(),
            final(self).last_mouse_pos() == old(self).last_mouse_pos(),
    {
        self.source_image = Some(image);
        self.zoom_level = Fixed::one();
        self.pan_offset = Vec2::zero();
        Ok(())
    }

    /// Loads the test image, a gradient of 400 by 300 pixels.
    pub fn load_test_image(&mut self) -> (r: Result<(), AppError>)
        ensures
            r is Ok,
            final(self).loaded_image() is Some,
            is_test_image(final(self).loaded_image()->0),
            final(self).zoom_level() == Fixed::one(),
            final(self).pan_offset() == Vec2::zero(),
            final(self).annotations() == old(self).annotations(),
            final(self).current_tool() == old(self).current_tool(),
            final(self).should_close() == old(self).should_close(),
    {
        let samples = gradient_samples();
        match rgb_image(TEST_IMAGE_WIDTH, TEST_IMAGE_HEIGHT, samples) {
            Some(test_image) => self.load_image(test_image),
            None => {
                assert(false);
                Err(AppError::ImageProcessing(String::new()))
            },
        }
    }

    /// Zooms one step in.
    pub fn zoom_in(&mut self)
        ensures
            final(self).zoom_level() == zoomed_in(old(self).zoom_level()),
            final(self).pan_offset() == old(self).pan_offset(),
            final(self).same_but_view(old(self)),
    {
        self.zoom_level = self.zoom_level.times(Fixed::from_ratio(6, 5)).min(Fixed::from_int(10));
    }

    /// Zooms one step out.
    pub fn zoom_out(&mut self)
        ensures
            final(self).zoom_level() == zoomed_out(old(self).zoom_level()),
            final(self).pan_offset() == old(self).pan_offset(),
            final(self).same_but_view(old(self)),
    {
        self.zoom_level = self.zoom_level.divided_by(Fixed::from_ratio(6, 5)).max(
            Fixed::from_ratio(1, 10),
        );
    }

    /// Sets the zoom to `zoom`, within the limits of the controls.
    pub fn set_zoom(&mut self, zoom: Fixed)
        ensures
            final(self).zoom_level() == zoom.clamped(min_zoom(), max_zoom()),
            final(self).pan_offset() == old(self).pan_offset(),
            final(self).same_but_view(old(self)),
    {
        self.zoom_level = zoom.clamped(Fixed::from_ratio(1, 10), Fixed::from_int(10));
    }

    /// Sets the pan to `pan_offset`.
    pub fn set_pan_offset(&mut self, pan_offset: Vec2)
        ensures
            final(self).pan_offset() == pan_offset,
            final(self).zoom_level() == old(self).zoom_level(),
            final(self).same_but_view(old(self)),
    {
        self.pan_offset = pan_offset;
    }

    /// Shows the image at its actual size; the pan stays.
    pub fn actual_size(&mut self)
        ensures
            final(self).zoom_level() == Fixed::one(),
            final(self).pan_offset() == old(self).pan_offset(),
            final(self).same_but_view(old(self)),
    {
        self.zoom_level = Fixed::one();
    }

    /// Shows the image at its actual size, centered.
    pub fn reset_view(&mut self)
        ensures
            final(self).zoom_level() == Fixed::one(),
            final(self).pan_offset() == Vec2::zero(),
            final(self).same_but_view(old(self)),
    {
        self.zoom_level = Fixed::one();
        self.pan_offset = Vec2::zero();
    }

    /// Zooms out until an image of size `image_size` fits the canvas, and
    /// centers it. An image that fits is shown at its actual size.
    pub fn fit_to_screen(&mut self, image_size: Vec2)
        ensures
            final(self).zoom_level() == fitting_zoom(image_size),
            final(self).pan_offset() == Vec2::zero(),
            final(self).same_but_view(old(self)),
    {
        let zoom_x = if image_size.x.raw == 0 {
            Fixed::from_raw(i64::MAX)
        } else {
            Fixed::from_int(800).divided_by(image_size.x)
        };
        let zoom_y = if image_size.y.raw == 0 {
            Fixed::from_raw(i64::MAX)
        } else {
            Fixed::from_int(600).divided_by(image_size.y)
        };
        self.zoom_level = zoom_x.min(zoom_y).min(Fixed::one());
        self.pan_offset = Vec2::zero();
    }

    /// Zooms by a turn of the wheel. Where the pointer hovers over the
    /// canvas, `pointer` is its position relative to the center of the
    /// canvas, and the view zooms towards it. A turn of zero changes nothing.
    pub fn scroll_zoom(&mut self, scroll_delta: Fixed, pointer: Option<Vec2>)
        ensures
            scroll_delta.raw == 0 ==> final(self).zoom_level() == old(self).zoom_level()
                && final(self).pan_offset() == old(self).pan_offset(),
            scroll_delta.raw != 0 ==> final(self).zoom_level() == scrolled_zoom(
                old(self).zoom_level(),
                scroll_delta,
            ),
            scroll_delta.raw != 0 ==> final(self).pan_offset() == match pointer {
                Some(relative) => pan_towards(
                    old(self).pan_offset(),
                    relative,
                    old(self).zoom_level(),
                    scrolled_zoom(old(self).zoom_level(), scroll_delta),
                ),
                None => old(self).pan_offset(),
            },
            final(self).same_but_view(old(self)),
    {
        if scroll_delta.raw != 0 {
            let zoom_factor = Fixed::one().plus(scroll_delta.times(Fixed::from_ratio(1, 1000)));
            let old_zoom = self.zoom_level;
            self.zoom_level = self.zoom_level.times(zoom_factor).clamped(
                Fixed::from_ratio(1, 10),
                Fixed::from_int(10),
            );
            match pointer {
                Some(relative_pos) => {
                    if old_zoom.raw != 0 {
                        let zoom_change = self.zoom_level.divided_by(old_zoom).minus(Fixed::one());
                        self.pan_offset = self.pan_offset.minus(relative_pos.scaled(zoom_change));
                    }
                },
                None => {},
            }
        }
    }

    /// Moves the view by `delta`, as far as the image stays on the canvas
    /// `available`. `image_size` is the size of the image shown, if one is.
    pub fn drag_pan(&mut self, delta: Vec2, available: Rect, image_size: Option<Vec2>)
        ensures
            final(self).pan_offset() == match image_size {
                Some(natural_size) => constrained_pan(
                    old(self).pan_offset().plus(delta),
                    available.size(),
                    natural_size.scaled(old(self).zoom_level()),
                ),
                None => old(self).pan_offset().plus(delta),
            },
            final(self).zoom_level() == old(self).zoom_level(),
            final(self).same_but_view(old(self)),
    {
        let new_pan_offset = self.pan_offset.plus(delta);
        self.pan_offset = self.constrain_pan_offset(new_pan_offset, available, image_size);
    }

    /// The pan nearest to `pan_offset` that keeps part of the image on the
    /// canvas `available`; `pan_offset` itself while no image is shown.
    pub fn constrain_pan_offset(
        &self,
        pan_offset: Vec2,
        available: Rect,
        image_size: Option<Vec2>,
    ) -> (r: Vec2)
        ensures
            r == match image_size {
                Some(natural_size) => constrained_pan(
                    pan_offset,
                    available.size(),
                    natural_size.scaled(self.zoom_level()),
                ),
                None => pan_offset,
            },
    {
        match image_size {
            Some(natural_size) => {
                let display_size = natural_size.scaled(self.zoom_level);

                let min_visible_size = Fixed::from_int(50);

                let max_pan_x = available.width().minus(min_visible_size).max(Fixed::zero());
                let min_pan_x = display_size.x.minus(min_visible_size).max(Fixed::zero()).negated();

                let max_pan_y = available.height().minus(min_visible_size).max(Fixed::zero());
                let min_pan_y = display_size.y.minus(min_visible_size).max(Fixed::zero()).negated();

                Vec2::new(
                    pan_offset.x.clamped(min_pan_x, max_pan_x),
                    pan_offset.y.clamped(min_pan_y, max_pan_y),
                )
            },
            None => pan_offset,
        }
    }

    /// Where an image of size `image_size` is drawn on the canvas
    /// `available`.
    pub fn image_rect(&self, available: Rect, image_size: Vec2) -> (r: Rect)
        ensures
            r == placed_image(available, image_size, self.zoom_level(), self.pan_offset()),
    {
        let display_size = image_size.scaled(self.zoom_level);
        let center_offset = available.size().minus(display_size).scaled(Fixed::from_ratio(1, 2));
        let image_pos = available.min.plus(center_offset).plus(self.pan_offset);
        Rect::from_min_size(image_pos, display_size)
    }

    /// What of an image of size `image_size` shows on the canvas
    /// `available`: where on the canvas, and which fraction of the picture.
    pub fn visible_image(&self, available: Rect, image_size: Vec2) -> (r: Option<(Rect, Rect)>)
        ensures
            r == visible_part(
                placed_image(available, image_size, self.zoom_level(), self.pan_offset()),
                available,
            ),
    {
        let image_rect = self.image_rect(available, image_size);
        let visible_image_rect = image_rect.intersect(available);
        if visible_image_rect.width().raw > 0 && visible_image_rect.height().raw > 0 {
            let uv_rect = if image_rect.width().raw > 0 && image_rect.height().raw > 0 {
                let left = visible_image_rect.min.x.minus(image_rect.min.x).divided_by(
                    image_rect.width(),
                ).max(Fixed::zero());
                let top = visible_image_rect.min.y.minus(image_rect.min.y).divided_by(
                    image_rect.height(),
                ).max(Fixed::zero());
                let right = visible_image_rect.max.x.minus(image_rect.min.x).divided_by(
                    image_rect.width(),
                ).min(Fixed::one());
                let bottom = visible_image_rect.max.y.minus(image_rect.min.y).divided_by(
                    image_rect.height(),
                ).min(Fixed::one());
                Rect::from_min_max(Pos2::new(left, top), Pos2::new(right, bottom))
            } else {
                Rect::from_min_max(Pos2::zero(), Pos2::new(Fixed::one(), Fixed::one()))
            };
            Some((visible_image_rect, uv_rect))
        } else {
            None
        }
    }

    /// The numbers for the overlay of the view, if there is one to show.
    pub fn info_overlay(&self) -> (r: Option<(i64, Option<(i64, i64)>)>)
        ensures
            r == overlay_numbers(self.zoom_level(), self.pan_offset()),
    {
        let panned = self.pan_offset.x.raw != 0 || self.pan_offset.y.raw != 0;
        if self.zoom_level.raw != 65536 || panned {
            let percent = self.zoom_level.times(Fixed::from_int(100)).rounded();
            if panned {
                Some((percent, Some((self.pan_offset.x.rounded(), self.pan_offset.y.rounded()))))
            } else {
                Some((percent, None))
            }
        } else {
            None
        }
    }

    /// Selects `tool`.
    pub fn set_tool(&mut self, tool: Tool)
        ensures
            final(self).current_tool() == tool,
            final(self).loaded_image() == old(self).loaded_image(),
            final(self).annotations() == old(self).annotations(),
            final(self).zoom_level() == old(self).zoom_level(),
            final(self).pan_offset() == old(self).pan_offset(),
            final(self).should_close() == old(self).should_close(),
            final(self).is_panning() == old(self).is_panning(),
            final(self).last_mouse_pos() == old(self).last_mouse_pos(),
    {
        self.current_tool = tool;
    }

    /// Asks the editor to close.
    pub fn request_close(&mut self)
        ensures
            final(self).should_close(),
            final(self).current_tool() == old(self).current_tool(),
            final(self).loaded_image() == old(self).loaded_image(),
            final(self).annotations() == old(self).annotations(),
            final(self).zoom_level() == old(self).zoom_level(),
            final(self).pan_offset() == old(self).pan_offset(),
            final(self).is_panning() == old(self).is_panning(),
            final(self).last_mouse_pos() == old(self).last_mouse_pos(),
    {
        self.should_close = true;
    }
}

} // verus!
