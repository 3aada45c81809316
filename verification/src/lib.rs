//! Screen capture geometry: a registry of displays, desktop-space queries,
//! DPI-aware coordinate conversion and validated sub-region cropping.

pub mod annotation;
pub mod capture;
pub mod editor_app;
pub mod error;
pub mod fixed;
pub mod geometry;
pub mod imaging;
pub mod text;
pub mod theorems;
pub mod types;

pub use annotation::{AnnotationItem, AnnotationType, Color32};
pub use capture::CaptureService;
pub use editor_app::EditorApp;
pub use error::{AppError, AppResult, CaptureError};
pub use fixed::Fixed;
pub use geometry::{Pos2, Rect, Vec2};
pub use imaging::PixelRect;
pub use types::{
    AppSettings, CaptureArea, HotkeyEvent, ImageFormat, ScreenDescriptor, ScreenInfo, Tool,
};
