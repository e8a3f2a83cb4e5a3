use print_queue::jobs::{JobQueueState, JobStatus};
use print_queue::models::{AppConfig, PostFileAction, Preset};
use print_queue::watcher::{
    event_triggers_handling, extracted_message, file_hash, finish_print, handle_image,
    is_image_extension, is_image_file, is_in_output_subfolder, is_jpeg_extension, is_jpeg_file,
    is_output_subfolder_name, is_zip_extension, is_zip_file, match_preset,
    missing_folder_message, processed_zip_key, queue_image, zip_entry_plan, zip_key_for,
    FileAction, ImageOutcome, ZipExtraction,
    WatchEventKind, WatcherState, WatcherStatus, ZipEntryPlan,
};

const SECOND: u64 = 1_000_000_000;

fn preset(name: &str, keyword: &str, auto: bool) -> Preset {
    let mut p = Preset::new(name.to_string(), keyword.to_string());
    p.auto_print = auto;
    p
}

#[test]
fn image_and_zip_extensions() {
    assert!(is_image_file("/w/photo.JPG"));
    assert!(is_image_file("a.tif"));
    assert!(is_image_file("a.b.jpeg"));
    assert!(!is_image_file("a.gif"));
    assert!(!is_image_file("noext"));
    assert!(!is_image_file(".jpg"));
    assert!(!is_image_file("dir.jpg/file"));
    assert!(is_zip_file("Batch.ZIP"));
    assert!(!is_zip_file("batch.zip.part"));
    assert!(is_jpeg_file("x.Jpeg"));
    assert!(!is_jpeg_file("x.png"));
}

#[test]
fn output_subfolders() {
    assert!(is_in_output_subfolder("/w/printed/a.jpg"));
    assert!(is_in_output_subfolder("/w/processed_zips/a.zip"));
    assert!(!is_in_output_subfolder("/w/a.jpg"));
    assert!(!is_in_output_subfolder("/w/printed_old/a.jpg"));
    assert!(!is_in_output_subfolder("printed"));
}

#[test]
fn content_hash_is_sha256_hex() {
    assert_eq!(
        file_hash(b"abc"),
        "ba7816bf8f01cfea414140de5dae2223b00361a396177a9cb410ff61f20015ad"
    );
    assert_eq!(
        file_hash(b""),
        "e3b0c44298fc1c149afbf4c8996fb92427ae41e4649b934ca495991b7852b855"
    );
}

#[test]
fn zip_keys_and_entries() {
    assert_eq!(processed_zip_key("/w/batch.zip", "abc123"), "batch.zip:abc123");
    assert_eq!(processed_zip_key("/", "h"), ":h");
    assert_eq!(zip_entry_plan(true, Some("/t/a.jpg"), false), ZipEntryPlan::Skip);
    assert_eq!(zip_entry_plan(false, None, false), ZipEntryPlan::InvalidName);
    assert_eq!(zip_entry_plan(false, Some("/t/a.png"), false), ZipEntryPlan::Extract);
    assert_eq!(zip_entry_plan(false, Some("/t/a.png"), true), ZipEntryPlan::Skip);
    assert_eq!(zip_entry_plan(false, Some("/t/readme.txt"), false), ZipEntryPlan::Skip);
    assert_eq!(extracted_message(3), "3 files extracted");
    assert_eq!(extracted_message(0), "0 files extracted");
}

#[test]
fn law_repeat_within_window_is_ignored() {
    let mut w = WatcherState::new();
    assert!(w.begin_processing("/w/a.jpg", 0));
    assert!(!w.begin_processing("/w/a.jpg", SECOND));
    assert!(!w.begin_processing("/w/a.jpg", 5 * SECOND - 1));
    assert!(w.begin_processing("/w/b.jpg", SECOND));
}

#[test]
fn law_stale_entries_do_not_block() {
    let mut w = WatcherState::new();
    assert!(w.begin_processing("/w/a.jpg", 0));
    assert!(w.begin_processing("/w/a.jpg", 5 * SECOND));
    assert_eq!(w.recently_processed.len(), 1);
    assert_eq!(w.recently_processed[0].1, 5 * SECOND);
}

#[test]
fn equal_paths_are_the_same_entry() {
    let mut w = WatcherState::new();
    assert!(w.begin_processing("/w/b.jpg", 0));
    assert!(!w.begin_processing("/w//b.jpg", 1));
    assert!(!w.begin_processing("/w/./b.jpg", 2));
}

#[test]
fn law_zip_is_extracted_once() {
    let mut w = WatcherState::new();
    assert!(w.mark_zip_processed("batch.zip:ab".to_string()));
    assert!(!w.mark_zip_processed("batch.zip:ab".to_string()));
    assert!(w.mark_zip_processed("batch.zip:cd".to_string()));
    assert_eq!(w.processed_zips.len(), 2);
}

#[test]
fn file_events_are_routed() {
    let mut w = WatcherState::new();
    assert_eq!(w.handle_file("/w/printed/a.jpg", 0), FileAction::Ignore);
    assert_eq!(w.handle_file("/w/a.zip", 0), FileAction::ExtractZip);
    assert_eq!(w.handle_file("/w/a.png", 0), FileAction::RouteImage);
    assert_eq!(w.handle_file("/w/a.png", 1), FileAction::Ignore);
    assert_eq!(w.handle_file("/w/readme.txt", 0), FileAction::Ignore);
    assert!(!w.begin_processing("/w/readme.txt", 1));
}

#[test]
fn law_output_subfolder_leaves_memory_unchanged() {
    let mut w = WatcherState::new();
    assert_eq!(w.handle_file("/w/processed_zips/a.zip", 0), FileAction::Ignore);
    assert!(w.recently_processed.is_empty());
}

#[test]
fn watcher_status_changes() {
    let mut w = WatcherState::new();
    assert_eq!(w.status, WatcherStatus::Idle);
    assert!(!w.pause_if_active());
    w.status = WatcherStatus::Active;
    assert!(w.pause_if_active());
    assert_eq!(w.status, WatcherStatus::Idle);
    w.status = WatcherStatus::Error;
    w.stop();
    assert_eq!(w.status, WatcherStatus::Idle);
}

#[test]
fn events_and_messages() {
    assert!(event_triggers_handling(WatchEventKind::CreateFile));
    assert!(event_triggers_handling(WatchEventKind::Modify));
    assert!(!event_triggers_handling(WatchEventKind::Other));
    assert_eq!(missing_folder_message("/x"), "Watch folder does not exist: /x");
}

#[test]
fn law_keyword_routes_to_first_match() {
    let presets = vec![preset("A", "4X6", true), preset("B", "4x6", true), preset("C", "a4", false)];
    let mut config = AppConfig::default();
    config.default_preset_id = Some(presets[2].id);
    assert_eq!(match_preset(&presets, &config, &Some("4x6".to_string())), Some(0));
    assert_eq!(match_preset(&presets, &config, &Some("A4".to_string())), Some(2));
    assert_eq!(match_preset(&presets, &config, &Some("5x7".to_string())), None);
}

#[test]
fn law_no_keyword_uses_default() {
    let presets = vec![preset("A", "4x6", true), preset("C", "a4", false)];
    let mut config = AppConfig::default();
    assert_eq!(match_preset(&presets, &config, &None), None);
    config.default_preset_id = Some(presets[1].id);
    assert_eq!(match_preset(&presets, &config, &None), Some(1));
    config.default_preset_id = Some(42);
    assert_eq!(match_preset(&presets, &config, &None), None);
}

#[test]
fn images_become_jobs() {
    let presets = vec![preset("Magnets", "4x6", true), preset("Sheets", "a4", false)];
    let mut config = AppConfig::default();
    config.default_preset_id = Some(presets[1].id);
    let mut q = JobQueueState::new();

    let out = handle_image(&mut q, "/w/order_4X6_1.jpg", &presets, &config);
    let job = &q.jobs[0];
    assert_eq!(out, ImageOutcome::Print { job_id: job.id, preset_index: 0 });
    assert_eq!(job.status, JobStatus::Printing);
    assert_eq!(job.filename, "order_4X6_1.jpg");
    assert_eq!(job.file_path, "/w/order_4X6_1.jpg");
    assert_eq!(job.preset_id, Some(presets[0].id));
    assert_eq!(job.preset_name.as_deref(), Some("Magnets"));

    assert_eq!(handle_image(&mut q, "/w/scan_a4.png", &presets, &config), ImageOutcome::Queued);
    assert_eq!(q.jobs[1].status, JobStatus::Pending);
    assert_eq!(handle_image(&mut q, "/w/plain.png", &presets, &config), ImageOutcome::Queued);
    assert_eq!(q.jobs[2].preset_name.as_deref(), Some("Sheets"));

    assert_eq!(handle_image(&mut q, "/w/x_5x7.png", &presets, &config), ImageOutcome::Unmatched);
    assert_eq!(q.jobs[3].status, JobStatus::NeedsAttention);
    assert_eq!(q.jobs[3].error_message.as_deref(), Some("No preset matched for keyword '5x7'"));
    assert!(q.jobs[3].preset_id.is_none());

    config.default_preset_id = None;
    assert_eq!(handle_image(&mut q, "/w/plain.png", &presets, &config), ImageOutcome::Unmatched);
    assert_eq!(q.jobs[4].error_message.as_deref(), Some("No preset matched"));
    assert_eq!(q.jobs.len(), 5);
}

#[test]
fn print_results_update_the_job() {
    let presets = vec![preset("Magnets", "4x6", true)];
    let config = AppConfig::default();
    let mut q = JobQueueState::new();
    handle_image(&mut q, "/w/a_4x6.jpg", &presets, &config);
    handle_image(&mut q, "/w/b_4x6.jpg", &presets, &config);
    let (a, b) = (q.jobs[0].id, q.jobs[1].id);
    assert_eq!(finish_print(&mut q, a, Ok(()), &config), Some(PostFileAction::MoveToSubfolder));
    assert_eq!(q.jobs[0].status, JobStatus::Complete);
    assert!(q.jobs[0].completed_at.is_some());
    assert_eq!(finish_print(&mut q, b, Err("jam".to_string()), &config), None);
    assert_eq!(q.jobs[1].status, JobStatus::Error);
    assert_eq!(q.jobs[1].error_message.as_deref(), Some("jam"));
}

#[test]
fn lower_cased_extensions() {
    assert!(is_image_extension("tiff"));
    assert!(!is_image_extension("JPG"));
    assert!(is_zip_extension("zip"));
    assert!(!is_zip_extension("zipx"));
    assert!(is_jpeg_extension("jpeg"));
    assert!(!is_jpeg_extension("png"));
    assert!(is_output_subfolder_name("printed"));
    assert!(!is_output_subfolder_name("Printed"));
    assert_eq!(zip_key_for(Some("a.zip"), "h"), "a.zip:h");
    assert_eq!(zip_key_for(None, "h"), ":h");
}

#[test]
fn images_are_routed_by_their_given_name() {
    let presets = vec![preset("Magnets", "4x6", false)];
    let config = AppConfig::default();
    let mut q = JobQueueState::new();
    let out = queue_image(&mut q, "/w/ignored.png", "card_4x6.png".to_string(), &presets, &config);
    assert_eq!(out, ImageOutcome::Queued);
    assert_eq!(q.jobs[0].filename, "card_4x6.png");
    assert_eq!(q.jobs[0].file_path, "/w/ignored.png");
    assert_eq!(q.jobs[0].preset_name.as_deref(), Some("Magnets"));
}

#[test]
fn zip_extraction_progress() {
    let mut x = ZipExtraction::new();
    assert_eq!(x.next_entry(true, Some("/t/dir"), false), Ok(false));
    assert_eq!(x.next_entry(false, Some("/t/a.jpg"), false), Ok(true));
    assert_eq!(x.next_entry(false, Some("/t/b.png"), true), Ok(false));
    assert_eq!(x.next_entry(false, Some("/t/notes.txt"), false), Ok(false));
    assert_eq!(x.next_entry(false, Some("/t/c.TIF"), false), Ok(true));
    assert_eq!(x.extracted, vec!["/t/a.jpg".to_string(), "/t/c.TIF".to_string()]);
    assert_eq!(x.message(), "2 files extracted");
    assert_eq!(x.next_entry(false, None, false), Err("Invalid zip entry name".to_string()));
    assert_eq!(x.extracted.len(), 2);
}

#[test]
fn law_duplicates_ignored_across_other_events() {
    let mut w = WatcherState::new();
    assert!(w.begin_processing("/w/a.jpg", 0));
    assert!(w.begin_processing("/w/b.jpg", SECOND));
    assert!(w.begin_processing("/w/c.zip", 2 * SECOND));
    assert!(!w.begin_processing("/w/a.jpg", 3 * SECOND));
    assert!(!w.begin_processing("/w/a.jpg", 5 * SECOND - 1));
    assert!(w.recently_processed.contains(&("/w/a.jpg".to_string(), 0)));
}

#[test]
fn law_stop_is_idempotent() {
    let mut w = WatcherState::new();
    w.status = WatcherStatus::Active;
    assert!(w.mark_zip_processed("k".to_string()));
    assert!(w.begin_processing("/w/a.jpg", 0));
    w.stop();
    w.stop();
    assert_eq!(w.status, WatcherStatus::Idle);
    assert_eq!(w.processed_zips, vec!["k".to_string()]);
    assert_eq!(w.recently_processed.len(), 1);
}
