//! The interface state, its mathematical model, and the transitions of the
//! model that each operation performs.

use vstd::prelude::*;
use crate::gui::paths::{PathCandidate, supported_image_path};
use crate::gui::status::GuiStatus;
use crate::pathname::same_path;

verus! {

/// What the interface asks its host to do after a step of the state machine.
#[derive(Debug, Clone, Copy, PartialEq, Eq, Structural)]
pub enum GuiAction {
    /// Nothing to start.
    Nothing,
    /// Open a fresh channel and load the images at `loading_paths` in the background.
    StartLoading,
    /// Open a fresh channel and show the file dialog in the background.
    OpenFileDialog,
    /// Open a fresh channel and merge the loaded working images in the background.
    StartMerge,
    /// Open a fresh channel and tone-map the HDR image for the preview in the background.
    StartTonemap,
    /// Open a fresh channel and prepare the loaded image at this index for comparison.
    LoadCompareImage(usize),
    /// Open a fresh channel and merge, tone-map and save at full resolution in the background.
    StartSave,
}

/// What a background worker reports back. The images, textures and HDR data
/// themselves stay with the host; the events carry what the state needs.
pub enum GuiEvent {
    MergeComplete(Result<(), String>),
    LoadError(String),
    SaveComplete(Result<(), String>),
    PreviewComplete(Result<(), String>),
    ImageLoaded(String),
    FilesSelected(Vec<PathCandidate>),
    Progress { stage: String, current: usize, total: usize },
    CompareImageReady,
}

/// The mathematical model of the interface state: paths as character sequences.
#[verifier::ext_equal]
pub struct GuiModel {
    pub input_paths: Seq<Seq<char>>,
    pub preloaded: Seq<Seq<char>>,
    pub loading_paths: Seq<Seq<char>>,
    pub pending_loads: Seq<Seq<char>>,
    pub is_loading: bool,
    pub total_loading: usize,
    pub loaded_count: usize,
    pub needs_hdr: bool,
    pub settings_changed: bool,
    pub has_hdr: bool,
    pub has_preview: bool,
    pub is_generating: bool,
    pub progress_stage: Seq<char>,
    pub progress_current: usize,
    pub progress_total: usize,
    pub channel_open: bool,
    pub status: GuiStatus,
    pub compare_mode: bool,
    pub compare_index: usize,
    pub has_compare_image: bool,
}

/// The interface state. `preloaded` lists, in order, the paths whose images
/// the host holds in memory; `channel_open` says whether the host listens to
/// a background worker.
pub struct GuiState {
    pub input_paths: Vec<String>,
    pub preloaded: Vec<String>,
    pub loading_paths: Vec<String>,
    pub pending_loads: Vec<String>,
    pub is_loading: bool,
    pub total_loading: usize,
    pub loaded_count: usize,
    pub needs_hdr: bool,
    pub settings_changed: bool,
    pub has_hdr: bool,
    pub has_preview: bool,
    pub is_generating: bool,
    pub progress_stage: String,
    pub progress_current: usize,
    pub progress_total: usize,
    pub channel_open: bool,
    pub status: GuiStatus,
    pub compare_mode: bool,
    pub compare_index: usize,
    pub has_compare_image: bool,
}

/// The characters of each string.
pub open spec fn strings_view(v: Seq<String>) -> Seq<Seq<char>> {
    v.map_values(|s: String| s@)
}

impl View for GuiState {
    type V = GuiModel;

    open spec fn view(&self) -> GuiModel {
        GuiModel {
            input_paths: strings_view(self.input_paths@),
            preloaded: strings_view(self.preloaded@),
            loading_paths: strings_view(self.loading_paths@),
            pending_loads: strings_view(self.pending_loads@),
            is_loading: self.is_loading,
            total_loading: self.total_loading,
            loaded_count: self.loaded_count,
            needs_hdr: self.needs_hdr,
            settings_changed: self.settings_changed,
            has_hdr: self.has_hdr,
            has_preview: self.has_preview,
            is_generating: self.is_generating,
            progress_stage: self.progress_stage@,
            progress_current: self.progress_current,
            progress_total: self.progress_total,
            channel_open: self.channel_open,
            status: self.status,
            compare_mode: self.compare_mode,
            compare_index: self.compare_index,
            has_compare_image: self.has_compare_image,
        }
    }
}

/// The state of a freshly opened window.
pub open spec fn initial_model() -> GuiModel {
    GuiModel {
        input_paths: seq![],
        preloaded: seq![],
        loading_paths: seq![],
        pending_loads: seq![],
        is_loading: false,
        total_loading: 0,
        loaded_count: 0,
        needs_hdr: false,
        settings_changed: false,
        has_hdr: false,
        has_preview: false,
        is_generating: false,
        progress_stage: seq![],
        progress_current: 0,
        progress_total: 0,
        channel_open: false,
        status: GuiStatus::AddImagesPrompt,
        compare_mode: false,
        compare_index: 0,
        has_compare_image: false,
    }
}

/// Whether some entry of `s` is the same path as `p`.
pub open spec fn lists_path(s: Seq<Seq<char>>, p: Seq<char>) -> bool {
    exists|i: int| 0 <= i < s.len() && #[trigger] same_path(s[i], p)
}

/// A candidate is taken when it is a file with a supported extension that is
/// neither listed nor loading.
pub open spec fn takes_candidate(m: GuiModel, c: PathCandidate) -> bool {
    &&& c.is_file
    &&& supported_image_path(c.path@)
    &&& !lists_path(m.input_paths, c.path@)
    &&& !lists_path(m.loading_paths, c.path@)
}

/// The paths of the candidates that are taken, in order.
pub open spec fn new_image_paths(m: GuiModel, cands: Seq<PathCandidate>) -> Seq<Seq<char>>
    decreases cands.len(),
{
    if cands.len() == 0 {
        seq![]
    } else {
        let rest = new_image_paths(m, cands.drop_last());
        if takes_candidate(m, cands.last()) {
            rest.push(cands.last().path@)
        } else {
            rest
        }
    }
}

/// `s` without the entries that are the same path as `p`.
pub open spec fn without(s: Seq<Seq<char>>, p: Seq<char>) -> Seq<Seq<char>>
    decreases s.len(),
{
    if s.len() == 0 {
        seq![]
    } else {
        let rest = without(s.drop_last(), p);
        if same_path(s.last(), p) {
            rest
        } else {
            rest.push(s.last())
        }
    }
}

/// Starts loading `paths`, or queues them behind a load in progress.
pub open spec fn start_loading(m: GuiModel, paths: Seq<Seq<char>>) -> (GuiModel, GuiAction) {
    if m.is_loading {
        (GuiModel { pending_loads: m.pending_loads + paths, ..m }, GuiAction::Nothing)
    } else {
        (
            GuiModel {
                is_loading: true,
                total_loading: paths.len() as usize,
                loaded_count: 0,
                loading_paths: paths,
                status: GuiStatus::LoadingProgress { loaded: 0, total: paths.len() as usize },
                channel_open: true,
                ..m
            },
            GuiAction::StartLoading,
        )
    }
}

/// Adds the files that a wildcard pattern matched.
pub open spec fn add_pattern_matches_model(m: GuiModel, cands: Seq<PathCandidate>) -> (GuiModel, GuiAction) {
    let to_load = new_image_paths(m, cands);
    if to_load.len() > 0 {
        let listed = m.input_paths + to_load;
        start_loading(
            GuiModel {
                input_paths: listed,
                needs_hdr: true,
                settings_changed: true,
                status: GuiStatus::LoadingFromPattern {
                    total: listed.len() as usize,
                    matched: to_load.len() as usize,
                },
                ..m
            },
            to_load,
        )
    } else {
        (GuiModel { status: GuiStatus::NoMatchingFiles, ..m }, GuiAction::Nothing)
    }
}

/// Adds one typed path.
pub open spec fn add_single_path_model(m: GuiModel, c: PathCandidate) -> (GuiModel, GuiAction) {
    if !c.is_file {
        (GuiModel { status: GuiStatus::FileNotFound, ..m }, GuiAction::Nothing)
    } else if !supported_image_path(c.path@) {
        (GuiModel { status: GuiStatus::NotAnImageFile, ..m }, GuiAction::Nothing)
    } else if lists_path(m.input_paths, c.path@) || lists_path(m.loading_paths, c.path@) {
        (m, GuiAction::Nothing)
    } else {
        let listed = m.input_paths.push(c.path@);
        start_loading(
            GuiModel {
                input_paths: listed,
                needs_hdr: true,
                settings_changed: true,
                status: GuiStatus::ImagesLoading(listed.len() as usize),
                ..m
            },
            seq![c.path@],
        )
    }
}

/// Adds the files chosen in the file dialog.
pub open spec fn add_multiple_paths_model(m: GuiModel, cands: Seq<PathCandidate>) -> (GuiModel, GuiAction) {
    let to_load = new_image_paths(m, cands);
    if to_load.len() > 0 {
        let listed = m.input_paths + to_load;
        start_loading(
            GuiModel {
                input_paths: listed,
                needs_hdr: true,
                status: GuiStatus::ImagesLoading(listed.len() as usize),
                ..m
            },
            to_load,
        )
    } else {
        (GuiModel { status: GuiStatus::NoValidImagesSelected, ..m }, GuiAction::Nothing)
    }
}

/// Starts the queued loads once no load is running.
pub open spec fn process_queued_loads_model(m: GuiModel) -> (GuiModel, GuiAction) {
    if m.pending_loads.len() > 0 && !m.is_loading {
        start_loading(GuiModel { pending_loads: seq![], ..m }, m.pending_loads)
    } else {
        (m, GuiAction::Nothing)
    }
}

/// Forgets every image and stops loading.
pub open spec fn clear_images_model(m: GuiModel) -> GuiModel {
    GuiModel {
        input_paths: seq![],
        preloaded: seq![],
        loading_paths: seq![],
        pending_loads: seq![],
        is_loading: false,
        is_generating: false,
        total_loading: 0,
        loaded_count: 0,
        has_hdr: false,
        has_preview: false,
        compare_mode: false,
        has_compare_image: false,
        status: GuiStatus::Cleared,
        ..m
    }
}

/// Opens the file dialog unless a worker is busy.
pub open spec fn open_file_dialog_model(m: GuiModel) -> (GuiModel, GuiAction) {
    if m.is_generating || m.is_loading {
        (m, GuiAction::Nothing)
    } else {
        (
            GuiModel { channel_open: true, is_loading: true, status: GuiStatus::OpeningFileDialog, ..m },
            GuiAction::OpenFileDialog,
        )
    }
}

/// Starts merging the loaded images.
pub open spec fn start_merge_model(m: GuiModel) -> (GuiModel, GuiAction) {
    if m.input_paths.len() == 0 {
        (GuiModel { status: GuiStatus::NoImages, ..m }, GuiAction::Nothing)
    } else if m.preloaded.len() == 0 {
        (GuiModel { status: GuiStatus::ImagesNotLoaded, ..m }, GuiAction::Nothing)
    } else {
        (
            GuiModel {
                is_generating: true,
                progress_stage: "Merging HDR"@,
                progress_current: 0,
                progress_total: 100,
                status: GuiStatus::MergingHdr,
                channel_open: true,
                ..m
            },
            GuiAction::StartMerge,
        )
    }
}

/// Starts tone-mapping the preview when an HDR image exists and no worker is busy.
pub open spec fn update_preview_model(m: GuiModel) -> (GuiModel, GuiAction) {
    if !m.has_hdr || m.is_generating {
        (m, GuiAction::Nothing)
    } else {
        (
            GuiModel {
                is_generating: true,
                progress_stage: "Tonemapping"@,
                progress_current: 0,
                progress_total: 100,
                status: GuiStatus::Tonemapping,
                channel_open: true,
                ..m
            },
            GuiAction::StartTonemap,
        )
    }
}

/// Starts preparing the source image to compare with, unless there is none
/// at the index or a worker is being listened to.
pub open spec fn start_compare_load_model(m: GuiModel) -> (GuiModel, GuiAction) {
    if m.compare_index >= m.preloaded.len() {
        (m, GuiAction::Nothing)
    } else if m.channel_open {
        (m, GuiAction::Nothing)
    } else {
        (GuiModel { channel_open: true, ..m }, GuiAction::LoadCompareImage(m.compare_index))
    }
}

/// Turns the side-by-side comparison on (starting at the first image) or off.
pub open spec fn toggle_compare_model(m: GuiModel) -> (GuiModel, GuiAction) {
    if !m.compare_mode {
        start_compare_load_model(
            GuiModel { compare_mode: true, compare_index: 0, has_compare_image: false, ..m },
        )
    } else {
        (GuiModel { compare_mode: false, has_compare_image: false, ..m }, GuiAction::Nothing)
    }
}

/// The index before `i` among `n` images, wrapping from the first to the last.
pub open spec fn previous_index(i: usize, n: usize) -> usize {
    if i == 0 {
        (n - 1) as usize
    } else {
        (i - 1) as usize
    }
}

/// The index after `i` among `n` images, wrapping from the last to the first.
pub open spec fn next_index(i: usize, n: usize) -> usize {
    ((i + 1) % (n as int)) as usize
}

/// Starts the full-resolution export unless there is nothing loaded or a worker is busy.
pub open spec fn save_output_model(m: GuiModel) -> (GuiModel, GuiAction) {
    if m.preloaded.len() == 0 || m.is_generating {
        (m, GuiAction::Nothing)
    } else {
        (
            GuiModel {
                is_generating: true,
                progress_stage: "Exporting"@,
                progress_current: 0,
                progress_total: 100,
                status: GuiStatus::PreparingExport,
                channel_open: true,
                ..m
            },
            GuiAction::StartSave,
        )
    }
}

/// Drops the listed image at `idx` and everything computed from the images.
pub open spec fn remove_path_model(m: GuiModel, idx: int) -> GuiModel {
    let path = m.input_paths[idx];
    GuiModel {
        input_paths: m.input_paths.remove(idx),
        preloaded: without(m.preloaded, path),
        loading_paths: without(m.loading_paths, path),
        has_hdr: false,
        has_preview: false,
        compare_mode: false,
        has_compare_image: false,
        needs_hdr: true,
        settings_changed: true,
        ..m
    }
}

/// A merge finished; on success the preview is tone-mapped next.
pub open spec fn merge_complete_model(m: GuiModel, r: Result<(), String>) -> (GuiModel, GuiAction) {
    match r {
        Ok(()) => update_preview_model(
            GuiModel {
                has_hdr: true,
                status: GuiStatus::HdrReady,
                is_generating: false,
                needs_hdr: false,
                channel_open: false,
                ..m
            },
        ),
        Err(msg) => (
            GuiModel {
                status: GuiStatus::Message(msg),
                is_generating: false,
                channel_open: false,
                ..m
            },
            GuiAction::Nothing,
        ),
    }
}

/// An image could not be loaded.
pub open spec fn load_error_model(m: GuiModel, msg: String) -> GuiModel {
    GuiModel {
        status: GuiStatus::Message(msg),
        is_generating: false,
        is_loading: false,
        channel_open: false,
        ..m
    }
}

/// An export finished.
pub open spec fn save_complete_model(m: GuiModel, r: Result<(), String>) -> GuiModel {
    GuiModel {
        status: match r {
            Ok(()) => GuiStatus::SavedSuccessfully,
            Err(msg) => GuiStatus::SaveFailed(msg),
        },
        is_generating: false,
        channel_open: false,
        ..m
    }
}

/// A preview finished; on success the current settings count as applied,
/// and an open comparison reloads its source image.
pub open spec fn preview_complete_model(m: GuiModel, r: Result<(), String>) -> (GuiModel, GuiAction) {
    match r {
        Ok(()) => {
            let shown = GuiModel {
                is_generating: false,
                channel_open: false,
                has_preview: true,
                status: GuiStatus::PreviewReady,
                settings_changed: false,
                ..m
            };
            if shown.compare_mode {
                start_compare_load_model(GuiModel { has_compare_image: false, ..shown })
            } else {
                (shown, GuiAction::Nothing)
            }
        },
        Err(msg) => (
            GuiModel {
                is_generating: false,
                channel_open: false,
                status: GuiStatus::TonemapFailed(msg),
                ..m
            },
            GuiAction::Nothing,
        ),
    }
}

/// The image at `path` finished loading; when it was the last one loading,
/// loading ends and queued loads start.
pub open spec fn image_loaded_model(m: GuiModel, path: Seq<char>) -> (GuiModel, GuiAction) {
    let loading = without(m.loading_paths, path);
    let count = (m.loaded_count + 1) as usize;
    if loading.len() == 0 {
        process_queued_loads_model(
            GuiModel {
                loading_paths: loading,
                preloaded: m.preloaded.push(path),
                loaded_count: count,
                status: GuiStatus::ImagesReady(m.input_paths.len() as usize),
                is_generating: false,
                is_loading: false,
                channel_open: false,
                ..m
            },
        )
    } else {
        (
            GuiModel {
                loading_paths: loading,
                preloaded: m.preloaded.push(path),
                loaded_count: count,
                status: GuiStatus::LoadingProgress { loaded: count, total: m.total_loading },
                ..m
            },
            GuiAction::Nothing,
        )
    }
}

/// The file dialog closed with these files chosen.
pub open spec fn files_selected_model(m: GuiModel, cands: Seq<PathCandidate>) -> (GuiModel, GuiAction) {
    if cands.len() == 0 {
        (
            GuiModel {
                is_loading: false,
                status: GuiStatus::NoFilesSelected,
                channel_open: false,
                ..m
            },
            GuiAction::Nothing,
        )
    } else {
        add_multiple_paths_model(GuiModel { is_loading: false, ..m }, cands)
    }
}

/// Reacts to what a background worker reported.
pub open spec fn handle_event_model(m: GuiModel, e: GuiEvent) -> (GuiModel, GuiAction) {
    match e {
        GuiEvent::MergeComplete(r) => merge_complete_model(m, r),
        GuiEvent::LoadError(msg) => (load_error_model(m, msg), GuiAction::Nothing),
        GuiEvent::SaveComplete(r) => (save_complete_model(m, r), GuiAction::Nothing),
        GuiEvent::PreviewComplete(r) => preview_complete_model(m, r),
        GuiEvent::ImageLoaded(path) => image_loaded_model(m, path@),
        GuiEvent::FilesSelected(cands) => files_selected_model(m, cands@),
        GuiEvent::Progress { stage, current, total } => (
            GuiModel { progress_stage: stage@, progress_current: current, progress_total: total, ..m },
            GuiAction::Nothing,
        ),
        GuiEvent::CompareImageReady => (
            GuiModel { has_compare_image: true, channel_open: false, ..m },
            GuiAction::Nothing,
        ),
    }
}


} // verus!
