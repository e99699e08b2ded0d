//! The status line of the interface.

use vstd::prelude::*;
use crate::text::{decimal, decimal_string};

verus! {

/// What the status line says.
pub enum GuiStatus {
    AddImagesPrompt,
    LoadingFromPattern { total: usize, matched: usize },
    NoMatchingFiles,
    InvalidPattern(String),
    ImagesLoading(usize),
    NotAnImageFile,
    FileNotFound,
    NoValidImagesSelected,
    LoadingProgress { loaded: usize, total: usize },
    Cleared,
    OpeningFileDialog,
    NoImages,
    ImagesNotLoaded,
    MergingHdr,
    HdrReady,
    Message(String),
    SavedSuccessfully,
    SaveFailed(String),
    TonemapFailed(String),
    ImagesReady(usize),
    NoFilesSelected,
    Tonemapping,
    PreviewReady,
    PreparingExport,
    AdjustmentsReset,
}

/// The text of a status.
pub open spec fn status_text(s: GuiStatus) -> Seq<char> {
    match s {
        GuiStatus::AddImagesPrompt => "Add images using 'Open Files' button"@,
        GuiStatus::LoadingFromPattern { total, matched } => decimal(total as nat)
            + " images (loading "@ + decimal(matched as nat) + " from pattern)"@,
        GuiStatus::NoMatchingFiles => "No matching image files found"@,
        GuiStatus::InvalidPattern(e) => "Invalid pattern: "@ + e@,
        GuiStatus::ImagesLoading(n) => decimal(n as nat) + " images (loading)"@,
        GuiStatus::NotAnImageFile => "Not an image file"@,
        GuiStatus::FileNotFound => "File not found"@,
        GuiStatus::NoValidImagesSelected => "No valid image files selected"@,
        GuiStatus::LoadingProgress { loaded, total } => "Loading "@ + decimal(loaded as nat) + "/"@
            + decimal(total as nat) + " images..."@,
        GuiStatus::Cleared => "Cleared"@,
        GuiStatus::OpeningFileDialog => "Opening file dialog..."@,
        GuiStatus::NoImages => "No images"@,
        GuiStatus::ImagesNotLoaded => "Images not loaded"@,
        GuiStatus::MergingHdr => "Merging HDR..."@,
        GuiStatus::HdrReady => "HDR ready"@,
        GuiStatus::Message(e) => e@,
        GuiStatus::SavedSuccessfully => "Saved successfully"@,
        GuiStatus::SaveFailed(e) => "Save failed: "@ + e@,
        GuiStatus::TonemapFailed(e) => "Tonemap failed: "@ + e@,
        GuiStatus::ImagesReady(n) => decimal(n as nat) + " images ready"@,
        GuiStatus::NoFilesSelected => "No files selected"@,
        GuiStatus::Tonemapping => "Tonemapping..."@,
        GuiStatus::PreviewReady => "Preview ready"@,
        GuiStatus::PreparingExport => "Preparing full resolution HDR..."@,
        GuiStatus::AdjustmentsReset => "Adjustments reset"@,
    }
}

/// The characters of `s` as an owned string.
pub(crate) fn text_of(s: &str) -> (r: String)
    ensures
        r@ == s@,
{
    String::from_str(s)
}

impl GuiStatus {
    /// The text shown on the status line.
    pub fn text(&self) -> (s: String)
        ensures
            s@ == status_text(*self),
    {
        match self {
            GuiStatus::AddImagesPrompt => text_of("Add images using 'Open Files' button"),
            GuiStatus::LoadingFromPattern { total, matched } => {
                let mut s = decimal_string(*total as u64);
                s.append(" images (loading ");
                s.append(decimal_string(*matched as u64).as_str());
                s.append(" from pattern)");
                s
            },
            GuiStatus::NoMatchingFiles => text_of("No matching image files found"),
            GuiStatus::InvalidPattern(e) => {
                let mut s = text_of("Invalid pattern: ");
                s.append(e.as_str());
                s
            },
            GuiStatus::ImagesLoading(n) => {
                let mut s = decimal_string(*n as u64);
                s.append(" images (loading)");
                s
            },
            GuiStatus::NotAnImageFile => text_of("Not an image file"),
            GuiStatus::FileNotFound => text_of("File not found"),
            GuiStatus::NoValidImagesSelected => text_of("No valid image files selected"),
            GuiStatus::LoadingProgress { loaded, total } => {
                let mut s = text_of("Loading ");
                s.append(decimal_string(*loaded as u64).as_str());
                s.append("/");
                s.append(decimal_string(*total as u64).as_str());
                s.append(" images...");
                s
            },
            GuiStatus::Cleared => text_of("Cleared"),
            GuiStatus::OpeningFileDialog => text_of("Opening file dialog..."),
            GuiStatus::NoImages => text_of("No images"),
            GuiStatus::ImagesNotLoaded => text_of("Images not loaded"),
            GuiStatus::MergingHdr => text_of("Merging HDR..."),
            GuiStatus::HdrReady => text_of("HDR ready"),
            GuiStatus::Message(e) => e.clone(),
            GuiStatus::SavedSuccessfully => text_of("Saved successfully"),
            GuiStatus::SaveFailed(e) => {
                let mut s = text_of("Save failed: ");
                s.append(e.as_str());
                s
            },
            GuiStatus::TonemapFailed(e) => {
                let mut s = text_of("Tonemap failed: ");
                s.append(e.as_str());
                s
            },
            GuiStatus::ImagesReady(n) => {
                let mut s = decimal_string(*n as u64);
                s.append(" images ready");
                s
            },
            GuiStatus::NoFilesSelected => text_of("No files selected"),
            GuiStatus::Tonemapping => text_of("Tonemapping..."),
            GuiStatus::PreviewReady => text_of("Preview ready"),
            GuiStatus::PreparingExport => text_of("Preparing full resolution HDR..."),
            GuiStatus::AdjustmentsReset => text_of("Adjustments reset"),
        }
    }
}


} // verus!
