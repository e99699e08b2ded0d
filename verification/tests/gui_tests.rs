use hdr_oxide::gui::{
    is_supported_extension, is_supported_image_path, is_wildcard_pattern, GuiAction, GuiEvent,
    GuiState, GuiStatus, PathCandidate,
};

fn file(path: &str) -> PathCandidate {
    PathCandidate { path: path.to_string(), is_file: true }
}

fn missing(path: &str) -> PathCandidate {
    PathCandidate { path: path.to_string(), is_file: false }
}

#[test]
fn test_gui_starts_empty() {
    let state = GuiState::new();
    assert!(state.input_paths.is_empty());
    assert!(!state.is_loading());
    assert!(!state.can_create_hdr());
    assert!(!state.needs_repaint());
    assert_eq!(state.status.text(), "Add images using 'Open Files' button");
}

#[test]
fn test_supported_extensions() {
    assert!(is_supported_image_path("shots/a.JPG"));
    assert!(is_supported_image_path("b.tiff"));
    assert!(is_supported_image_path("c.Png"));
    assert!(!is_supported_image_path("notes.txt"));
    assert!(!is_supported_image_path("jpg"));
    assert!(!is_supported_image_path(".jpg"));
    assert!(is_supported_extension("jpeg"));
    assert!(!is_supported_extension("JPEG"));
}

#[test]
fn test_wildcard_detection() {
    assert!(is_wildcard_pattern("shots/*.jpg"));
    assert!(is_wildcard_pattern("img?.png"));
    assert!(!is_wildcard_pattern("img1.png"));
}

#[test]
fn test_dialog_files_are_filtered_and_loaded() {
    let mut state = GuiState::new();
    let action = state.add_multiple_paths(&[
        file("a.jpg"),
        file("notes.txt"),
        missing("b.png"),
        file("c.TIF"),
    ]);
    assert_eq!(action, GuiAction::StartLoading);
    assert_eq!(state.input_paths, vec!["a.jpg".to_string(), "c.TIF".to_string()]);
    assert_eq!(state.loading_paths, state.input_paths);
    assert!(state.is_loading);
    assert!(state.needs_hdr);
    assert!(state.channel_open);
    assert_eq!(state.total_loading, 2);
    assert_eq!(state.status.text(), "Loading 0/2 images...");
}

#[test]
fn test_no_valid_dialog_files() {
    let mut state = GuiState::new();
    let action = state.add_multiple_paths(&[file("notes.txt")]);
    assert_eq!(action, GuiAction::Nothing);
    assert!(state.input_paths.is_empty());
    assert_eq!(state.status.text(), "No valid image files selected");
}

#[test]
fn test_loads_queue_behind_running_load() {
    let mut state = GuiState::new();
    state.add_multiple_paths(&[file("a.jpg")]);
    let action = state.add_multiple_paths(&[file("b.jpg"), file("a.jpg")]);
    assert_eq!(action, GuiAction::Nothing);
    assert_eq!(state.pending_loads, vec!["b.jpg".to_string()]);
    assert_eq!(state.input_paths.len(), 2);
    assert_eq!(state.status.text(), "2 images (loading)");

    let action = state.handle_event(GuiEvent::ImageLoaded("a.jpg".to_string()));
    assert_eq!(action, GuiAction::StartLoading);
    assert_eq!(state.loading_paths, vec!["b.jpg".to_string()]);
    assert!(state.pending_loads.is_empty());
    assert_eq!(state.preloaded, vec!["a.jpg".to_string()]);
    assert_eq!(state.status.text(), "Loading 0/1 images...");

    let action = state.handle_event(GuiEvent::ImageLoaded("b.jpg".to_string()));
    assert_eq!(action, GuiAction::Nothing);
    assert!(!state.is_loading);
    assert!(!state.channel_open);
    assert_eq!(state.status.text(), "2 images ready");
    assert!(state.can_create_hdr());
}

#[test]
fn test_loading_progress_status() {
    let mut state = GuiState::new();
    state.add_multiple_paths(&[file("a.jpg"), file("b.jpg"), file("c.jpg")]);
    state.handle_event(GuiEvent::ImageLoaded("b.jpg".to_string()));
    assert_eq!(state.status.text(), "Loading 1/3 images...");
    assert_eq!(state.loaded_count, 1);
    assert!(state.is_loading());
    assert!(!state.can_create_hdr());
}

#[test]
fn test_pattern_matches_added() {
    let mut state = GuiState::new();
    state.add_multiple_paths(&[file("a.jpg")]);
    let action = state.add_pattern_matches(&[file("a.jpg"), file("b.jpg"), file("c.txt")]);
    assert_eq!(action, GuiAction::Nothing);
    assert_eq!(state.status.text(), "2 images (loading 1 from pattern)");
    assert!(state.settings_changed);

    let mut other = GuiState::new();
    other.add_pattern_matches(&[file("x.txt")]);
    assert_eq!(other.status.text(), "No matching image files found");
    other.pattern_error("bad pattern".to_string());
    assert_eq!(other.status.text(), "Invalid pattern: bad pattern");
}

#[test]
fn test_single_path_outcomes() {
    let mut state = GuiState::new();
    assert_eq!(state.add_single_path(&missing("a.jpg")), GuiAction::Nothing);
    assert_eq!(state.status.text(), "File not found");
    assert_eq!(state.add_single_path(&file("a.doc")), GuiAction::Nothing);
    assert_eq!(state.status.text(), "Not an image file");
    assert_eq!(state.add_single_path(&file("a.jpeg")), GuiAction::StartLoading);
    assert_eq!(state.input_paths, vec!["a.jpeg".to_string()]);
    assert_eq!(state.add_single_path(&file("a.jpeg")), GuiAction::Nothing);
    assert_eq!(state.input_paths.len(), 1);
}

#[test]
fn test_merge_needs_loaded_images() {
    let mut state = GuiState::new();
    assert_eq!(state.start_merge(), GuiAction::Nothing);
    assert_eq!(state.status.text(), "No images");
    state.add_multiple_paths(&[file("a.jpg"), file("b.jpg")]);
    assert_eq!(state.start_merge(), GuiAction::Nothing);
    assert_eq!(state.status.text(), "Images not loaded");
}

fn loaded_state() -> GuiState {
    let mut state = GuiState::new();
    state.add_multiple_paths(&[file("a.jpg"), file("b.jpg")]);
    state.handle_event(GuiEvent::ImageLoaded("a.jpg".to_string()));
    state.handle_event(GuiEvent::ImageLoaded("b.jpg".to_string()));
    state
}

#[test]
fn test_merge_then_preview_flow() {
    let mut state = loaded_state();
    assert_eq!(state.start_merge(), GuiAction::StartMerge);
    assert!(state.is_generating);
    assert_eq!(state.progress_stage, "Merging HDR");
    assert_eq!(state.status.text(), "Merging HDR...");
    state.handle_event(GuiEvent::Progress { stage: "Merging HDR".to_string(), current: 40, total: 64 });
    assert_eq!(state.progress_current, 40);

    let action = state.handle_event(GuiEvent::MergeComplete(Ok(())));
    assert_eq!(action, GuiAction::StartTonemap);
    assert!(state.has_hdr);
    assert!(!state.needs_hdr);
    assert_eq!(state.status.text(), "Tonemapping...");

    state.settings_changed = true;
    let action = state.handle_event(GuiEvent::PreviewComplete(Ok(())));
    assert_eq!(action, GuiAction::Nothing);
    assert!(state.has_preview);
    assert!(!state.settings_changed);
    assert_eq!(state.status.text(), "Preview ready");
    assert!(state.can_save());
    assert!(state.can_compare());
}

#[test]
fn test_worker_failures_reported() {
    let mut state = loaded_state();
    state.start_merge();
    state.handle_event(GuiEvent::MergeComplete(Err("HDR failed: boom".to_string())));
    assert_eq!(state.status.text(), "HDR failed: boom");
    assert!(!state.is_generating);

    state.handle_event(GuiEvent::SaveComplete(Err("No file selected".to_string())));
    assert_eq!(state.status.text(), "Save failed: No file selected");
    state.handle_event(GuiEvent::SaveComplete(Ok(())));
    assert_eq!(state.status.text(), "Saved successfully");
    state.handle_event(GuiEvent::PreviewComplete(Err("oops".to_string())));
    assert_eq!(state.status.text(), "Tonemap failed: oops");
    state.handle_event(GuiEvent::LoadError("Failed to load: x".to_string()));
    assert_eq!(state.status.text(), "Failed to load: x");
    assert!(!state.is_loading);
}

#[test]
fn test_compare_cycles_through_images() {
    let mut state = loaded_state();
    state.has_preview = true;
    assert_eq!(state.toggle_compare_mode(), GuiAction::LoadCompareImage(0));
    assert!(state.compare_mode);
    state.handle_event(GuiEvent::CompareImageReady);
    assert!(state.has_compare_image);
    assert_eq!(state.compare_previous(), GuiAction::LoadCompareImage(1));
    state.handle_event(GuiEvent::CompareImageReady);
    assert_eq!(state.compare_next(), GuiAction::LoadCompareImage(0));
    assert_eq!(state.toggle_compare_mode(), GuiAction::Nothing);
    assert!(!state.compare_mode);
}

#[test]
fn test_compare_waits_for_open_channel() {
    let mut state = loaded_state();
    state.channel_open = true;
    assert_eq!(state.toggle_compare_mode(), GuiAction::Nothing);
    assert!(state.compare_mode);
}

#[test]
fn test_remove_path_forgets_image() {
    let mut state = loaded_state();
    state.has_hdr = true;
    state.remove_path(0);
    assert_eq!(state.input_paths, vec!["b.jpg".to_string()]);
    assert_eq!(state.preloaded, vec!["b.jpg".to_string()]);
    assert!(!state.has_hdr);
    assert!(state.needs_hdr);
}

#[test]
fn test_clear_forgets_everything() {
    let mut state = loaded_state();
    state.clear_images();
    assert!(state.input_paths.is_empty());
    assert!(state.preloaded.is_empty());
    assert_eq!(state.loaded_count, 0);
    assert_eq!(state.status.text(), "Cleared");
}

#[test]
fn test_file_dialog_flow() {
    let mut state = GuiState::new();
    assert_eq!(state.open_file_dialog(), GuiAction::OpenFileDialog);
    assert!(state.is_loading);
    assert_eq!(state.open_file_dialog(), GuiAction::Nothing);
    let action = state.handle_event(GuiEvent::FilesSelected(vec![]));
    assert_eq!(action, GuiAction::Nothing);
    assert_eq!(state.status.text(), "No files selected");
    assert!(!state.is_loading);

    state.open_file_dialog();
    let action = state.handle_event(GuiEvent::FilesSelected(vec![file("a.png")]));
    assert_eq!(action, GuiAction::StartLoading);
}

#[test]
fn test_save_and_reset_status() {
    let mut state = GuiState::new();
    assert_eq!(state.save_output(), GuiAction::Nothing);
    let mut state = loaded_state();
    assert_eq!(state.save_output(), GuiAction::StartSave);
    assert_eq!(state.status.text(), "Preparing full resolution HDR...");
    assert_eq!(state.save_output(), GuiAction::Nothing);
    state.reset_adjustments();
    assert!(matches!(state.status, GuiStatus::AdjustmentsReset));
}

#[test]
fn test_compare_previous_with_no_images_waits() {
    let mut state = GuiState::new();
    state.compare_index = 2;
    assert_eq!(state.compare_previous(), GuiAction::Nothing);
    assert_eq!(state.compare_index, 1);
    assert!(!state.has_compare_image);
}

#[test]
fn test_plain_file_names_accepted_by_extension_case() {
    assert!(is_supported_image_path("x.JPG"));
    assert!(is_supported_image_path("X.TIFF"));
    assert!(is_supported_image_path("shot.JpEg"));
    assert!(!is_supported_image_path("x."));
    assert!(!is_supported_image_path("x"));
    assert!(!is_supported_image_path("x.jpg.txt"));
}

#[test]
fn test_same_path_written_differently_is_not_listed_twice() {
    let mut state = GuiState::new();
    assert_eq!(state.add_single_path(&file("dir/a.jpg")), GuiAction::StartLoading);
    assert_eq!(state.add_single_path(&file("dir//a.jpg")), GuiAction::Nothing);
    assert_eq!(state.add_single_path(&file("dir/./a.jpg")), GuiAction::Nothing);
    assert_eq!(state.input_paths, vec!["dir/a.jpg".to_string()]);
    state.handle_event(GuiEvent::ImageLoaded("dir//a.jpg".to_string()));
    assert!(state.loading_paths.is_empty());
    assert!(!state.is_loading);
    assert_eq!(state.preloaded, vec!["dir//a.jpg".to_string()]);
    state.remove_path(0);
    assert!(state.input_paths.is_empty());
    assert!(state.preloaded.is_empty());
}

#[test]
fn test_leading_current_dir_is_a_different_path() {
    let mut state = GuiState::new();
    state.add_multiple_paths(&[file("a.jpg"), file("./a.jpg")]);
    assert_eq!(state.input_paths, vec!["a.jpg".to_string(), "./a.jpg".to_string()]);
}
