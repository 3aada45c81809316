//! The data types around the capture service: screens, capture requests,
//! settings, hotkeys and editing tools.

use crate::fixed::Fixed;
use crate::geometry::{Pos2, Rect, Vec2};
use vstd::prelude::*;
use vstd::string::StringExecFns;

verus! {

/// One display as the platform enumerates it: its identity, the position
/// of its top-left corner in desktop space, and its size.
#[derive(Clone, Copy, Debug, PartialEq, Eq, Structural)]
pub struct ScreenDescriptor {
    pub id: u32,
    pub x: i32,
    pub y: i32,
    pub width: u32,
    pub height: u32,
}

/// One display of the desktop, as the registry describes it.
#[derive(Clone, Copy, Debug, PartialEq, Eq, Structural)]
pub struct ScreenInfo {
    /// Position of the display in enumeration order.
    pub index: usize,
    /// Logical rectangle of the display in desktop space.
    pub bounds: Rect,
    /// Physical pixels per logical unit, horizontally.
    pub dpi_scale_x: Fixed,
    /// Physical pixels per logical unit, vertically.
    pub dpi_scale_y: Fixed,
    pub is_primary: bool,
}

impl ScreenInfo {
    /// The registry entry for the display enumerated at position `index`:
    /// unscaled, and primary exactly when it comes first.
    pub open spec fn spec_from_descriptor(index: usize, screen: ScreenDescriptor) -> ScreenInfo {
        ScreenInfo {
            index,
            bounds: Rect::from_min_size(
                Pos2::new(Fixed::from_int(screen.x as i64), Fixed::from_int(screen.y as i64)),
                Vec2::new(Fixed::from_int(screen.width as i64), Fixed::from_int(screen.height as i64)),
            ),
            dpi_scale_x: Fixed::one(),
            dpi_scale_y: Fixed::one(),
            is_primary: index == 0,
        }
    }

    /// The registry entry for the display enumerated at position `index`:
    /// unscaled, and primary exactly when it comes first.
    #[verifier::when_used_as_spec(spec_from_descriptor)]
    pub fn from_descriptor(index: usize, screen: ScreenDescriptor) -> (r: ScreenInfo)
        ensures
            r == Self::spec_from_descriptor(index, screen),
    {
        ScreenInfo {
            index,
            bounds: Rect::from_min_size(
                Pos2::new(Fixed::from_int(screen.x as i64), Fixed::from_int(screen.y as i64)),
                Vec2::new(Fixed::from_int(screen.width as i64), Fixed::from_int(screen.height as i64)),
            ),
            dpi_scale_x: Fixed::one(),
            dpi_scale_y: Fixed::one(),
            is_primary: index == 0,
        }
    }

    /// A display has a positive extent and no negative DPI factor.
    pub open spec fn well_formed(self) -> bool {
        &&& self.bounds.is_positive()
        &&& self.dpi_scale_x.raw >= 0
        &&& self.dpi_scale_y.raw >= 0
    }
}

/// A rectangle to capture, relative to one screen.
#[derive(Clone, Copy, Debug, PartialEq, Eq, Structural)]
pub struct CaptureArea {
    /// Logical rectangle, relative to the screen's top-left corner.
    pub bounds: Rect,
    pub screen_index: usize,
    pub dpi_scale_x: Fixed,
    pub dpi_scale_y: Fixed,
}

impl CaptureArea {
    /// An area on `screen_index` without DPI scaling.
    pub open spec fn spec_new(bounds: Rect, screen_index: usize) -> CaptureArea {
        CaptureArea { bounds, screen_index, dpi_scale_x: Fixed::one(), dpi_scale_y: Fixed::one() }
    }

    /// An area on `screen_index` with the given DPI factors.
    pub open spec fn spec_with_dpi_scaling(
        bounds: Rect,
        screen_index: usize,
        dpi_scale_x: Fixed,
        dpi_scale_y: Fixed,
    ) -> CaptureArea {
        CaptureArea { bounds, screen_index, dpi_scale_x, dpi_scale_y }
    }

    /// The rectangle in physical pixels: the corner `min` and the size of
    /// `bounds`, each multiplied by the DPI factor of its axis.
    pub open spec fn spec_physical_bounds(&self) -> Rect {
        Rect::from_min_size(
            Pos2::new(
                self.bounds.min.x.times(self.dpi_scale_x),
                self.bounds.min.y.times(self.dpi_scale_y),
            ),
            Vec2::new(
                self.bounds.width().times(self.dpi_scale_x),
                self.bounds.height().times(self.dpi_scale_y),
            ),
        )
    }

    /// An area on `screen_index` without DPI scaling.
    #[verifier::when_used_as_spec(spec_new)]
    pub fn new(bounds: Rect, screen_index: usize) -> (r: CaptureArea)
        ensures
            r == Self::spec_new(bounds, screen_index),
    {
        CaptureArea { bounds, screen_index, dpi_scale_x: Fixed::one(), dpi_scale_y: Fixed::one() }
    }

    /// An area on `screen_index` with the given DPI factors.
    #[verifier::when_used_as_spec(spec_with_dpi_scaling)]
    pub fn with_dpi_scaling(
        bounds: Rect,
        screen_index: usize,
        dpi_scale_x: Fixed,
        dpi_scale_y: Fixed,
    ) -> (r: CaptureArea)
        ensures
            r == Self::spec_with_dpi_scaling(bounds, screen_index, dpi_scale_x, dpi_scale_y),
    {
        CaptureArea { bounds, screen_index, dpi_scale_x, dpi_scale_y }
    }

    /// The rectangle in physical pixels: the corner `min` and the size of
    /// `bounds`, each multiplied by the DPI factor of its axis.
    #[verifier::when_used_as_spec(spec_physical_bounds)]
    pub fn physical_bounds(&self) -> (r: Rect)
        ensures
            r == self.spec_physical_bounds(),
    {
        let min = Pos2::new(
            self.bounds.min.x.times(self.dpi_scale_x),
            self.bounds.min.y.times(self.dpi_scale_y),
        );
        let size = Vec2::new(
            self.bounds.width().times(self.dpi_scale_x),
            self.bounds.height().times(self.dpi_scale_y),
        );
        Rect::from_min_size(min, size)
    }
}

impl Default for CaptureArea {
    /// A square of one hundred units at the origin of screen zero, unscaled.
    fn default() -> (r: CaptureArea)
        ensures
            r == CaptureArea::new(
                Rect::from_min_size(
                    Pos2::zero(),
                    Vec2::new(Fixed::from_int(100), Fixed::from_int(100)),
                ),
                0,
            ),
    {
        CaptureArea::new(
            Rect::from_min_size(Pos2::zero(), Vec2::new(Fixed::from_int(100), Fixed::from_int(100))),
            0,
        )
    }
}

/// The modifier bit of the control key.
pub const MOD_CONTROL: u32 = 0x0002;

/// The modifier bit of the shift key.
pub const MOD_SHIFT: u32 = 0x0004;

/// The virtual key code of the letter S.
pub const VK_S: u32 = 0x53;

/// The formats in which an image can be saved.
#[derive(Clone, Copy, Debug, PartialEq, Eq, Structural)]
pub enum ImageFormat {
    Png,
    Jpg,
    Bmp,
}

impl ImageFormat {
    /// The file extension of the format.
    pub open spec fn extension_text(&self) -> Seq<char> {
        match self {
            ImageFormat::Png => "png"@,
            ImageFormat::Jpg => "jpg"@,
            ImageFormat::Bmp => "bmp"@,
        }
    }

    /// The name of the format as it is shown to the user.
    pub open spec fn display_name(&self) -> Seq<char> {
        match self {
            ImageFormat::Png => "PNG"@,
            ImageFormat::Jpg => "JPEG"@,
            ImageFormat::Bmp => "BMP"@,
        }
    }

    /// The file extension of the format.
    pub fn extension(&self) -> (r: &'static str)
        ensures
            r@ == self.extension_text(),
    {
        match self {
            ImageFormat::Png => "png",
            ImageFormat::Jpg => "jpg",
            ImageFormat::Bmp => "bmp",
        }
    }

    /// Every format, in the order in which they are offered.
    pub fn all() -> (r: Vec<ImageFormat>)
        ensures
            r@ == seq![ImageFormat::Png, ImageFormat::Jpg, ImageFormat::Bmp],
    {
        let mut formats: Vec<ImageFormat> = Vec::new();
        formats.push(ImageFormat::Png);
        formats.push(ImageFormat::Jpg);
        formats.push(ImageFormat::Bmp);
        assert(formats@ =~= seq![ImageFormat::Png, ImageFormat::Jpg, ImageFormat::Bmp]);
        formats
    }

    /// The name of the format as it is shown to the user.
    pub fn display_text(&self) -> (r: String)
        ensures
            r@ == self.display_name(),
    {
        match self {
            ImageFormat::Png => String::from_str("PNG"),
            ImageFormat::Jpg => String::from_str("JPEG"),
            ImageFormat::Bmp => String::from_str("BMP"),
        }
    }
}

/// The settings of the application.
#[derive(Clone, Debug, PartialEq)]
pub struct AppSettings {
    pub hotkey_modifiers: u32,
    pub hotkey_vk_code: u32,
    pub default_save_directory: Option<String>,
    pub default_image_format: ImageFormat,
}

impl Default for AppSettings {
    /// Control, shift and S as the hotkey, no save directory, PNG.
    fn default() -> (r: AppSettings)
        ensures
            r.hotkey_modifiers == 6,
            r.hotkey_modifiers == MOD_CONTROL | MOD_SHIFT,
            r.hotkey_vk_code == VK_S,
            r.default_save_directory is None,
            r.default_image_format == ImageFormat::Png,
    {
        assert(0x0002u32 | 0x0004u32 == 6) by (bit_vector);
        AppSettings {
            hotkey_modifiers: MOD_CONTROL | MOD_SHIFT,
            hotkey_vk_code: VK_S,
            default_save_directory: None,
            default_image_format: ImageFormat::Png,
        }
    }
}

/// A hotkey that was pressed.
#[derive(Clone, Copy, Debug, PartialEq, Eq, Structural)]
pub struct HotkeyEvent {
    pub id: i32,
    pub modifiers: u32,
    pub vk_code: u32,
}

/// The editing tools.
#[derive(Clone, Copy, Debug, PartialEq, Eq, Structural)]
pub enum Tool {
    Select,
    Rectangle,
    Text,
}

impl Default for Tool {
    /// The selection tool.
    fn default() -> (r: Tool)
        ensures
            r == Tool::Select,
    {
        Tool::Select
    }
}

} // verus!
