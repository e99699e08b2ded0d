//! The operations of the interface state, each proved to perform the
//! transition of the model.

use vstd::prelude::*;
use crate::gui::model::{
    add_multiple_paths_model, add_pattern_matches_model, add_single_path_model,
    clear_images_model, files_selected_model, handle_event_model, image_loaded_model,
    initial_model, load_error_model, merge_complete_model, new_image_paths, next_index,
    open_file_dialog_model, preview_complete_model, previous_index, process_queued_loads_model,
    remove_path_model, save_complete_model, save_output_model, start_compare_load_model,
    start_loading, start_merge_model, strings_view, toggle_compare_model, update_preview_model,
    lists_path, without, GuiAction, GuiEvent, GuiModel, GuiState,
};
use crate::gui::paths::{PathCandidate, is_supported_image_path};
use crate::gui::status::{text_of, GuiStatus};
use crate::pathname::{paths_equal, same_path};

verus! {

proof fn lemma_strings_view_push(v: Seq<String>, x: String)
    ensures
        strings_view(v.push(x)) == strings_view(v).push(x@),
{
    assert(strings_view(v.push(x)) =~= strings_view(v).push(x@));
}

/// Whether some string of `v` is the same path as `p`.
fn contains_path(v: &Vec<String>, p: &str) -> (r: bool)
    ensures
        r == lists_path(strings_view(v@), p@),
{
    let mut i: usize = 0;
    while i < v.len()
        invariant
            i <= v@.len(),
            forall|j: int| 0 <= j < i ==> !same_path(#[trigger] v@[j]@, p@),
        decreases v@.len() - i,
    {
        if paths_equal(v[i].as_str(), p) {
            assert(same_path(strings_view(v@)[i as int], p@));
            return true;
        }
        i = i + 1;
    }
    assert(!lists_path(strings_view(v@), p@)) by {
        if lists_path(strings_view(v@), p@) {
            let j = choose|j: int| 0 <= j < strings_view(v@).len() && same_path(strings_view(v@)[j], p@);
            assert(!same_path(v@[j]@, p@));
        }
    }
    false
}

/// A copy of the strings of `v`.
fn copy_paths(v: &Vec<String>) -> (r: Vec<String>)
    ensures
        strings_view(r@) == strings_view(v@),
{
    let mut r: Vec<String> = Vec::new();
    let mut i: usize = 0;
    while i < v.len()
        invariant
            i <= v@.len(),
            strings_view(r@) == strings_view(v@).take(i as int),
        decreases v@.len() - i,
    {
        proof {
            lemma_strings_view_push(r@, v@[i as int]);
        }
        r.push(v[i].clone());
        assert(strings_view(v@).take(i + 1) =~= strings_view(v@).take(i as int).push(v@[i as int]@));
        i = i + 1;
    }
    assert(strings_view(v@).take(v@.len() as int) =~= strings_view(v@));
    r
}

/// The strings of `v` other than `p`, in order.
fn without_path(v: &Vec<String>, p: &str) -> (r: Vec<String>)
    ensures
        strings_view(r@) == without(strings_view(v@), p@),
{
    let mut r: Vec<String> = Vec::new();
    let mut i: usize = 0;
    while i < v.len()
        invariant
            i <= v@.len(),
            strings_view(r@) == without(strings_view(v@).take(i as int), p@),
        decreases v@.len() - i,
    {
        let ghost sv = strings_view(v@);
        assert(sv.take(i + 1).drop_last() =~= sv.take(i as int));
        assert(sv.take(i + 1).last() == v@[i as int]@);
        if !paths_equal(v[i].as_str(), p) {
            proof {
                lemma_strings_view_push(r@, v@[i as int]);
            }
            r.push(v[i].clone());
        }
        i = i + 1;
    }
    assert(strings_view(v@).take(v@.len() as int) =~= strings_view(v@));
    r
}

impl GuiState {
    /// The state of a freshly opened window.
    pub fn new() -> (g: Self)
        ensures
            g@ == initial_model(),
    {
        let g = GuiState {
            input_paths: Vec::new(),
            preloaded: Vec::new(),
            loading_paths: Vec::new(),
            pending_loads: Vec::new(),
            is_loading: false,
            total_loading: 0,
            loaded_count: 0,
            needs_hdr: false,
            settings_changed: false,
            has_hdr: false,
            has_preview: false,
            is_generating: false,
            progress_stage: String::new(),
            progress_current: 0,
            progress_total: 0,
            channel_open: false,
            status: GuiStatus::AddImagesPrompt,
            compare_mode: false,
            compare_index: 0,
            has_compare_image: false,
        };
        assert(g@ =~= initial_model());
        g
    }

    /// Whether some image is still being loaded.
    pub fn is_loading(&self) -> (r: bool)
        ensures
            r == (self@.loading_paths.len() > 0),
    {
        self.loading_paths.len() > 0
    }

    /// The paths of the candidates to take, in order.
    fn new_image_paths(&self, cands: &[PathCandidate]) -> (r: Vec<String>)
        ensures
            strings_view(r@) == new_image_paths(self@, cands@),
    {
        let mut r: Vec<String> = Vec::new();
        let mut i: usize = 0;
        while i < cands.len()
            invariant
                i <= cands@.len(),
                strings_view(r@) == new_image_paths(self@, cands@.take(i as int)),
            decreases cands@.len() - i,
        {
            let c = &cands[i];
            assert(cands@.take(i + 1).drop_last() =~= cands@.take(i as int));
            assert(cands@.take(i + 1).last() == cands@[i as int]);
            if c.is_file && is_supported_image_path(c.path.as_str()) && !contains_path(
                &self.input_paths,
                c.path.as_str(),
            ) && !contains_path(&self.loading_paths, c.path.as_str()) {
                proof {
                    lemma_strings_view_push(r@, c.path);
                }
                r.push(c.path.clone());
            }
            i = i + 1;
        }
        assert(cands@.take(cands@.len() as int) =~= cands@);
        r
    }

    /// Starts loading `paths`, or queues them behind a load in progress.
    fn start_loading(&mut self, paths: Vec<String>) -> (a: GuiAction)
        ensures
            (final(self)@, a) == start_loading(old(self)@, strings_view(paths@)),
    {
        if self.is_loading {
            let mut paths = paths;
            let ghost added = paths@;
            self.pending_loads.append(&mut paths);
            assert(strings_view(self.pending_loads@) =~= strings_view(old(self).pending_loads@)
                + strings_view(added));
            GuiAction::Nothing
        } else {
            let n = paths.len();
            self.is_loading = true;
            self.total_loading = n;
            self.loaded_count = 0;
            self.loading_paths = paths;
            self.status = GuiStatus::LoadingProgress { loaded: 0, total: n };
            self.channel_open = true;
            GuiAction::StartLoading
        }
    }
}


impl GuiState {
    /// Adds the files that a typed wildcard pattern matched: those that are
    /// supported image files not yet listed or loading are listed and loaded.
    pub fn add_pattern_matches(&mut self, matches: &[PathCandidate]) -> (a: GuiAction)
        ensures
            (final(self)@, a) == add_pattern_matches_model(old(self)@, matches@),
    {
        let to_load = self.new_image_paths(matches);
        if to_load.len() > 0 {
            let mut added = copy_paths(&to_load);
            let ghost added_view = strings_view(added@);
            self.input_paths.append(&mut added);
            assert(strings_view(self.input_paths@) =~= strings_view(old(self).input_paths@)
                + added_view);
            self.needs_hdr = true;
            self.settings_changed = true;
            self.status = GuiStatus::LoadingFromPattern {
                total: self.input_paths.len(),
                matched: to_load.len(),
            };
            self.start_loading(to_load)
        } else {
            self.status = GuiStatus::NoMatchingFiles;
            GuiAction::Nothing
        }
    }

    /// Reports a wildcard pattern that could not be parsed.
    pub fn pattern_error(&mut self, message: String)
        ensures
            final(self)@ == (GuiModel { status: GuiStatus::InvalidPattern(message), ..old(self)@ }),
    {
        self.status = GuiStatus::InvalidPattern(message);
    }

    /// Adds one typed path that is not a pattern.
    pub fn add_single_path(&mut self, candidate: &PathCandidate) -> (a: GuiAction)
        ensures
            (final(self)@, a) == add_single_path_model(old(self)@, *candidate),
    {
        if !candidate.is_file {
            self.status = GuiStatus::FileNotFound;
            GuiAction::Nothing
        } else if !is_supported_image_path(candidate.path.as_str()) {
            self.status = GuiStatus::NotAnImageFile;
            GuiAction::Nothing
        } else if contains_path(&self.input_paths, candidate.path.as_str()) || contains_path(
            &self.loading_paths,
            candidate.path.as_str(),
        ) {
            GuiAction::Nothing
        } else {
            proof {
                lemma_strings_view_push(self.input_paths@, candidate.path);
            }
            self.input_paths.push(candidate.path.clone());
            self.needs_hdr = true;
            self.settings_changed = true;
            self.status = GuiStatus::ImagesLoading(self.input_paths.len());
            let mut one: Vec<String> = Vec::new();
            one.push(candidate.path.clone());
            assert(strings_view(one@) =~= seq![candidate.path@]);
            self.start_loading(one)
        }
    }

    /// Adds the files chosen in the file dialog: those that are supported
    /// image files not yet listed or loading are listed and loaded.
    pub fn add_multiple_paths(&mut self, paths: &[PathCandidate]) -> (a: GuiAction)
        ensures
            (final(self)@, a) == add_multiple_paths_model(old(self)@, paths@),
    {
        let to_load = self.new_image_paths(paths);
        if to_load.len() > 0 {
            let mut added = copy_paths(&to_load);
            let ghost added_view = strings_view(added@);
            self.input_paths.append(&mut added);
            assert(strings_view(self.input_paths@) =~= strings_view(old(self).input_paths@)
                + added_view);
            self.needs_hdr = true;
            self.status = GuiStatus::ImagesLoading(self.input_paths.len());
            self.start_loading(to_load)
        } else {
            self.status = GuiStatus::NoValidImagesSelected;
            GuiAction::Nothing
        }
    }

    /// Starts the queued loads once no load is running.
    pub fn process_queued_loads(&mut self) -> (a: GuiAction)
        ensures
            (final(self)@, a) == process_queued_loads_model(old(self)@),
    {
        if self.pending_loads.len() > 0 && !self.is_loading {
            let mut paths: Vec<String> = Vec::new();
            std::mem::swap(&mut paths, &mut self.pending_loads);
            assert(strings_view(self.pending_loads@) =~= seq![]);
            self.start_loading(paths)
        } else {
            GuiAction::Nothing
        }
    }

    /// Forgets every image and stops loading; the host cancels its loader
    /// and drops the images, textures and HDR data it holds.
    pub fn clear_images(&mut self)
        ensures
            final(self)@ == clear_images_model(old(self)@),
    {
        self.input_paths = Vec::new();
        self.preloaded = Vec::new();
        self.loading_paths = Vec::new();
        self.pending_loads = Vec::new();
        self.is_loading = false;
        self.is_generating = false;
        self.total_loading = 0;
        self.loaded_count = 0;
        self.has_hdr = false;
        self.has_preview = false;
        self.compare_mode = false;
        self.has_compare_image = false;
        self.status = GuiStatus::Cleared;
        assert(self@ =~= clear_images_model(old(self)@));
    }

    /// Opens the file dialog unless a worker is busy.
    pub fn open_file_dialog(&mut self) -> (a: GuiAction)
        ensures
            (final(self)@, a) == open_file_dialog_model(old(self)@),
    {
        if self.is_generating || self.is_loading {
            return GuiAction::Nothing;
        }
        self.channel_open = true;
        self.is_loading = true;
        self.status = GuiStatus::OpeningFileDialog;
        GuiAction::OpenFileDialog
    }

    /// Starts merging the loaded images into an HDR image.
    pub fn start_merge(&mut self) -> (a: GuiAction)
        ensures
            (final(self)@, a) == start_merge_model(old(self)@),
    {
        if self.input_paths.len() == 0 {
            self.status = GuiStatus::NoImages;
            return GuiAction::Nothing;
        }
        if self.preloaded.len() == 0 {
            self.status = GuiStatus::ImagesNotLoaded;
            return GuiAction::Nothing;
        }
        self.is_generating = true;
        self.progress_stage = text_of("Merging HDR");
        self.progress_current = 0;
        self.progress_total = 100;
        self.status = GuiStatus::MergingHdr;
        self.channel_open = true;
        GuiAction::StartMerge
    }

    /// Starts tone-mapping the preview when an HDR image exists and no worker is busy.
    pub fn update_preview(&mut self) -> (a: GuiAction)
        ensures
            (final(self)@, a) == update_preview_model(old(self)@),
    {
        if !self.has_hdr || self.is_generating {
            return GuiAction::Nothing;
        }
        self.is_generating = true;
        self.progress_stage = text_of("Tonemapping");
        self.progress_current = 0;
        self.progress_total = 100;
        self.status = GuiStatus::Tonemapping;
        self.channel_open = true;
        GuiAction::StartTonemap
    }

    /// Starts preparing the source image to compare with, unless there is
    /// none at the index or a worker is being listened to.
    pub fn start_compare_load(&mut self) -> (a: GuiAction)
        ensures
            (final(self)@, a) == start_compare_load_model(old(self)@),
    {
        if self.compare_index >= self.preloaded.len() {
            return GuiAction::Nothing;
        }
        if self.channel_open {
            return GuiAction::Nothing;
        }
        self.channel_open = true;
        GuiAction::LoadCompareImage(self.compare_index)
    }

    /// Turns the side-by-side comparison on, starting at the first image, or off.
    pub fn toggle_compare_mode(&mut self) -> (a: GuiAction)
        ensures
            (final(self)@, a) == toggle_compare_model(old(self)@),
    {
        self.compare_mode = !self.compare_mode;
        if self.compare_mode {
            self.compare_index = 0;
            self.has_compare_image = false;
            self.start_compare_load()
        } else {
            self.has_compare_image = false;
            GuiAction::Nothing
        }
    }

    /// Compares with the previous loaded image, wrapping from the first to the last.
    pub fn compare_previous(&mut self) -> (a: GuiAction)
        requires
            old(self).preloaded@.len() > 0 || old(self).compare_index > 0,
        ensures
            (final(self)@, a) == start_compare_load_model(
                GuiModel {
                    compare_index: previous_index(
                        old(self).compare_index,
                        old(self).preloaded@.len() as usize,
                    ),
                    has_compare_image: false,
                    ..old(self)@
                },
            ),
    {
        let n = self.preloaded.len();
        self.compare_index = if self.compare_index == 0 {
            n - 1
        } else {
            self.compare_index - 1
        };
        self.has_compare_image = false;
        self.start_compare_load()
    }

    /// Compares with the next loaded image, wrapping from the last to the first.
    pub fn compare_next(&mut self) -> (a: GuiAction)
        requires
            old(self).preloaded@.len() > 0,
            old(self).compare_index < usize::MAX,
        ensures
            (final(self)@, a) == start_compare_load_model(
                GuiModel {
                    compare_index: next_index(
                        old(self).compare_index,
                        old(self).preloaded@.len() as usize,
                    ),
                    has_compare_image: false,
                    ..old(self)@
                },
            ),
    {
        let n = self.preloaded.len();
        self.compare_index = (self.compare_index + 1) % n;
        self.has_compare_image = false;
        self.start_compare_load()
    }

    /// Starts the full-resolution export unless nothing is loaded or a worker is busy.
    pub fn save_output(&mut self) -> (a: GuiAction)
        ensures
            (final(self)@, a) == save_output_model(old(self)@),
    {
        if self.preloaded.len() == 0 || self.is_generating {
            return GuiAction::Nothing;
        }
        self.is_generating = true;
        self.progress_stage = text_of("Exporting");
        self.progress_current = 0;
        self.progress_total = 100;
        self.status = GuiStatus::PreparingExport;
        self.channel_open = true;
        GuiAction::StartSave
    }

    /// Notes that the adjustment sliders went back to their neutral values.
    pub fn reset_adjustments(&mut self)
        ensures
            final(self)@ == (GuiModel { status: GuiStatus::AdjustmentsReset, ..old(self)@ }),
    {
        self.status = GuiStatus::AdjustmentsReset;
    }

    /// Drops the listed image at `idx` and everything computed from the images.
    pub fn remove_path(&mut self, idx: usize)
        requires
            idx < old(self).input_paths@.len(),
        ensures
            final(self)@ == remove_path_model(old(self)@, idx as int),
    {
        let path = self.input_paths.remove(idx);
        assert(strings_view(self.input_paths@) =~= strings_view(old(self).input_paths@).remove(
            idx as int,
        ));
        self.preloaded = without_path(&self.preloaded, path.as_str());
        self.loading_paths = without_path(&self.loading_paths, path.as_str());
        self.has_hdr = false;
        self.has_preview = false;
        self.compare_mode = false;
        self.has_compare_image = false;
        self.needs_hdr = true;
        self.settings_changed = true;
        assert(self@ =~= remove_path_model(old(self)@, idx as int));
    }

    /// Whether the "Generate HDR" button is enabled.
    pub fn can_create_hdr(&self) -> (r: bool)
        ensures
            r == (self.needs_hdr && self@.input_paths.len() > 0 && !self.is_generating
                && self@.loading_paths.len() == 0),
    {
        self.needs_hdr && self.input_paths.len() > 0 && !self.is_generating && !self.is_loading()
    }

    /// Whether the "Save HDR" button is enabled.
    pub fn can_save(&self) -> (r: bool)
        ensures
            r == (self.has_hdr && !self.settings_changed && !self.is_generating),
    {
        self.has_hdr && !self.settings_changed && !self.is_generating
    }

    /// Whether the "Apply" button is enabled.
    pub fn can_apply(&self) -> (r: bool)
        ensures
            r == (self.has_hdr && self.settings_changed && !self.is_generating),
    {
        self.has_hdr && self.settings_changed && !self.is_generating
    }

    /// Whether the "Compare" button is enabled.
    pub fn can_compare(&self) -> (r: bool)
        ensures
            r == (self.has_preview && self@.preloaded.len() > 0),
    {
        self.has_preview && self.preloaded.len() > 0
    }

    /// Whether the window must be redrawn without waiting for input.
    pub fn needs_repaint(&self) -> (r: bool)
        ensures
            r == (self.is_loading || self.is_generating || self.channel_open),
    {
        self.is_loading || self.is_generating || self.channel_open
    }
}


impl GuiState {
    fn merge_complete(&mut self, r: Result<(), String>) -> (a: GuiAction)
        ensures
            (final(self)@, a) == merge_complete_model(old(self)@, r),
    {
        match r {
            Ok(()) => {
                self.has_hdr = true;
                self.status = GuiStatus::HdrReady;
                self.is_generating = false;
                self.needs_hdr = false;
                self.channel_open = false;
                self.update_preview()
            },
            Err(msg) => {
                self.status = GuiStatus::Message(msg);
                self.is_generating = false;
                self.channel_open = false;
                GuiAction::Nothing
            },
        }
    }

    fn load_error(&mut self, msg: String)
        ensures
            final(self)@ == load_error_model(old(self)@, msg),
    {
        self.status = GuiStatus::Message(msg);
        self.is_generating = false;
        self.is_loading = false;
        self.channel_open = false;
    }

    fn save_complete(&mut self, r: Result<(), String>)
        ensures
            final(self)@ == save_complete_model(old(self)@, r),
    {
        self.status = match r {
            Ok(()) => GuiStatus::SavedSuccessfully,
            Err(msg) => GuiStatus::SaveFailed(msg),
        };
        self.is_generating = false;
        self.channel_open = false;
    }

    fn preview_complete(&mut self, r: Result<(), String>) -> (a: GuiAction)
        ensures
            (final(self)@, a) == preview_complete_model(old(self)@, r),
    {
        match r {
            Ok(()) => {
                self.is_generating = false;
                self.channel_open = false;
                self.has_preview = true;
                self.status = GuiStatus::PreviewReady;
                self.settings_changed = false;
                if self.compare_mode {
                    self.has_compare_image = false;
                    self.start_compare_load()
                } else {
                    GuiAction::Nothing
                }
            },
            Err(msg) => {
                self.is_generating = false;
                self.channel_open = false;
                self.status = GuiStatus::TonemapFailed(msg);
                GuiAction::Nothing
            },
        }
    }

    fn image_loaded(&mut self, path: String) -> (a: GuiAction)
        requires
            old(self).loaded_count < usize::MAX,
        ensures
            (final(self)@, a) == image_loaded_model(old(self)@, path@),
    {
        self.loading_paths = without_path(&self.loading_paths, path.as_str());
        proof {
            lemma_strings_view_push(self.preloaded@, path);
        }
        self.preloaded.push(path);
        self.loaded_count = self.loaded_count + 1;
        if self.loading_paths.len() == 0 {
            self.status = GuiStatus::ImagesReady(self.input_paths.len());
            self.is_generating = false;
            self.is_loading = false;
            self.channel_open = false;
            self.process_queued_loads()
        } else {
            self.status = GuiStatus::LoadingProgress {
                loaded: self.loaded_count,
                total: self.total_loading,
            };
            GuiAction::Nothing
        }
    }

    fn files_selected(&mut self, cands: Vec<PathCandidate>) -> (a: GuiAction)
        ensures
            (final(self)@, a) == files_selected_model(old(self)@, cands@),
    {
        self.is_loading = false;
        if cands.len() == 0 {
            self.status = GuiStatus::NoFilesSelected;
            self.channel_open = false;
            GuiAction::Nothing
        } else {
            self.add_multiple_paths(cands.as_slice())
        }
    }

    /// Reacts to what a background worker reported. The host stores what the
    /// event brought (the HDR image, a loaded image and its thumbnail, the
    /// preview and its histogram, the comparison image) before handing it here.
    pub fn handle_event(&mut self, event: GuiEvent) -> (a: GuiAction)
        requires
            event is ImageLoaded ==> old(self).loaded_count < usize::MAX,
        ensures
            (final(self)@, a) == handle_event_model(old(self)@, event),
    {
        match event {
            GuiEvent::MergeComplete(r) => self.merge_complete(r),
            GuiEvent::LoadError(msg) => {
                self.load_error(msg);
                GuiAction::Nothing
            },
            GuiEvent::SaveComplete(r) => {
                self.save_complete(r);
                GuiAction::Nothing
            },
            GuiEvent::PreviewComplete(r) => self.preview_complete(r),
            GuiEvent::ImageLoaded(path) => self.image_loaded(path),
            GuiEvent::FilesSelected(cands) => self.files_selected(cands),
            GuiEvent::Progress { stage, current, total } => {
                self.progress_stage = stage;
                self.progress_current = current;
                self.progress_total = total;
                GuiAction::Nothing
            },
            GuiEvent::CompareImageReady => {
                self.has_compare_image = true;
                self.channel_open = false;
                GuiAction::Nothing
            },
        }
    }
}

} // verus!
