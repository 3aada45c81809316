//! The error types: why a capture failed, and what can go wrong in the
//! application as a whole.

use crate::text::{decimal_digits, decimal_string};
use vstd::prelude::*;
use vstd::string::StringExecFns;

verus! {

/// `std::io::Error`. Opaque.
#[verifier::external_type_specification]
#[verifier::external_body]
pub struct ExIoError(std::io::Error);

/// Why an operation of the capture service failed.
#[derive(Debug, PartialEq, Eq)]
pub enum CaptureError {
    /// The platform enumerated no display.
    NoDisplays,
    /// No screen is known under this index.
    ScreenNotFound(usize),
    /// The platform returned no image for the screen of this index.
    CaptureFailed(usize),
    /// The platform returned bytes that do not decode to an image; the
    /// text says what the decoder objected to.
    DecodeFailed(String),
    /// The requested rectangle leaves the physical extent of its screen.
    AreaOutOfBounds,
    /// The center of a selection lies on no screen.
    SelectionNotOnScreen,
    /// No registered screen is marked as primary.
    NoPrimaryScreen,
}

/// What can go wrong in the application.
#[derive(Debug)]
pub enum AppError {
    /// The hotkey could not be registered.
    HotkeyRegistration(String),
    /// A screen could not be captured.
    ScreenCapture(String),
    /// A file could not be read or written.
    FileAccess(std::io::Error),
    /// The clipboard could not be used.
    Clipboard(String),
    /// An image could not be processed.
    ImageProcessing(String),
    /// The settings could not be loaded or stored.
    Settings(String),
}

/// The result of an operation of the application.
pub type AppResult<T> = Result<T, AppError>;

/// The text that an I/O error shows for itself through `Display`, by
/// `ToString::to_string`. Trusted; nothing is claimed of the text.
#[verifier::external_body]
fn io_error_text(error: &std::io::Error) -> (r: String) {
    error.to_string()
}

impl From<std::io::Error> for AppError {
    /// A failed file access.
    fn from(error: std::io::Error) -> (r: AppError) {
        AppError::FileAccess(error)
    }
}

impl vstd::std_specs::convert::FromSpecImpl<std::io::Error> for AppError {
    open spec fn obeys_from_spec() -> bool {
        true
    }

    open spec fn from_spec(error: std::io::Error) -> AppError {
        AppError::FileAccess(error)
    }
}

impl AppError {
    /// What the text of an error starts with: the kind of failure, a colon
    /// and a space.
    pub open spec fn heading(&self) -> Seq<char> {
        match self {
            AppError::HotkeyRegistration(_) => "ホットキー登録に失敗しました: "@,
            AppError::ScreenCapture(_) => "スクリーンキャプチャに失敗しました: "@,
            AppError::FileAccess(_) => "ファイルアクセスエラー: "@,
            AppError::Clipboard(_) => "クリップボードエラー: "@,
            AppError::ImageProcessing(_) => "画像処理エラー: "@,
            AppError::Settings(_) => "設定エラー: "@,
        }
    }

    /// `text` is the text of the error: its heading, followed by the detail
    /// that the error carries. For a file access error the detail is what
    /// the I/O error says of itself.
    pub open spec fn is_display_text(&self, text: Seq<char>) -> bool {
        match self {
            AppError::HotkeyRegistration(detail) => text == self.heading() + detail@,
            AppError::ScreenCapture(detail) => text == self.heading() + detail@,
            AppError::FileAccess(_) => self.heading().is_prefix_of(text),
            AppError::Clipboard(detail) => text == self.heading() + detail@,
            AppError::ImageProcessing(detail) => text == self.heading() + detail@,
            AppError::Settings(detail) => text == self.heading() + detail@,
        }
    }

    /// The text of the error, as it is shown to the user.
    pub fn display_text(&self) -> (r: String)
        ensures
            self.is_display_text(r@),
    {
        match self {
            AppError::HotkeyRegistration(detail) => {
                let mut text = String::from_str("ホットキー登録に失敗しました: ");
                text.append(detail.as_str());
                text
            },
            AppError::ScreenCapture(detail) => {
                let mut text = String::from_str("スクリーンキャプチャに失敗しました: ");
                text.append(detail.as_str());
                text
            },
            AppError::FileAccess(error) => {
                let mut text = String::from_str("ファイルアクセスエラー: ");
                let ghost heading = text@;
                text.append(io_error_text(error).as_str());
                assert(text@.subrange(0, heading.len() as int) =~= heading);
                text
            },
            AppError::Clipboard(detail) => {
                let mut text = String::from_str("クリップボードエラー: ");
                text.append(detail.as_str());
                text
            },
            AppError::ImageProcessing(detail) => {
                let mut text = String::from_str("画像処理エラー: ");
                text.append(detail.as_str());
                text
            },
            AppError::Settings(detail) => {
                let mut text = String::from_str("設定エラー: ");
                text.append(detail.as_str());
                text
            },
        }
    }
}

impl CaptureError {
    /// The message of the error.
    pub open spec fn message_text(&self) -> Seq<char> {
        match self {
            CaptureError::NoDisplays => "No screens found on the system"@,
            CaptureError::ScreenNotFound(index) => "Screen info for index "@ + decimal_digits(
                *index as nat,
            ) + " not found"@,
            CaptureError::CaptureFailed(index) => "Failed to capture screen "@ + decimal_digits(
                *index as nat,
            ),
            CaptureError::DecodeFailed(reason) => "Failed to decode PNG data: "@ + reason@,
            CaptureError::AreaOutOfBounds => "Capture area extends beyond screen boundaries"@,
            CaptureError::SelectionNotOnScreen => "Selection area is not within any screen"@,
            CaptureError::NoPrimaryScreen => "No primary screen found"@,
        }
    }

    /// The message of the error.
    pub fn message(&self) -> (r: String)
        ensures
            r@ == self.message_text(),
    {
        match self {
            CaptureError::NoDisplays => String::from_str("No screens found on the system"),
            CaptureError::ScreenNotFound(index) => {
                let mut text = String::from_str("Screen info for index ");
                text.append(decimal_string(*index).as_str());
                text.append(" not found");
                text
            },
            CaptureError::CaptureFailed(index) => {
                let mut text = String::from_str("Failed to capture screen ");
                text.append(decimal_string(*index).as_str());
                text
            },
            CaptureError::DecodeFailed(reason) => {
                let mut text = String::from_str("Failed to decode PNG data: ");
                text.append(reason.as_str());
                text
            },
            CaptureError::AreaOutOfBounds => String::from_str(
                "Capture area extends beyond screen boundaries",
            ),
            CaptureError::SelectionNotOnScreen => String::from_str(
                "Selection area is not within any screen",
            ),
            CaptureError::NoPrimaryScreen => String::from_str("No primary screen found"),
        }
    }

    /// The error as the application reports it: a failed screen capture
    /// with the message of the error.
    pub fn into_app_error(self) -> (r: AppError)
        ensures
            r is ScreenCapture,
            r->ScreenCapture_0@ == self.message_text(),
    {
        AppError::ScreenCapture(self.message())
    }
}

} // verus!
