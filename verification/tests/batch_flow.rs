use image_rename_tool::batch::{Batch, BatchError, FileFailure};

fn strings(v: &[&str]) -> Vec<String> {
    v.iter().map(|s| s.to_string()) .collect()
}

#[test]
fn empty_batch_is_refused() {
    let r = Batch::new(Vec::new(), "img", 1, false, "250102");
    assert!(matches!(r, Err(BatchError::EmptyBatch)));
}

#[test]
fn three_files_sequential_names() {
    // an eight-character prefix fits when the batch stays below ten
    let files = strings(&["/pics/a.jpg", "/pics/b.jpg", "/pics/c.jpg"]);
    let mut b = Batch::new(files, "vacation", 5, false, "250102").unwrap();
    let mut new_names = Vec::new();
    while !b.done() {
        match b.process_file(true) {
            Some(plan) => {
                new_names.push(plan.new_name.clone());
                b.record_renamed();
            }
            None => {}
        }
    }
    assert_eq!(
        new_names,
        vec![
            "vacation250102005.jpg",
            "vacation250102006.jpg",
            "vacation250102007.jpg"
        ]
    );
    let (result, config) = b.finish();
    assert_eq!(result.success.len(), 3);
    assert_eq!(result.error.len(), 0);
    assert_eq!(result.success[0].original, "a.jpg");
    assert_eq!(result.success[0].new, "vacation250102005.jpg");
    assert_eq!(config.last_number, 8);
    assert_eq!(config.last_prefix, "vacation");
}

#[test]
fn planned_paths_stay_in_each_files_parent() {
    let files = strings(&["/one/a.jpg", "/two/b.jpg"]);
    let mut b = Batch::new(files, "img", 1, false, "250102").unwrap();
    let plan_a = b.process_file(true).unwrap();
    b.record_renamed();
    let plan_b = b.process_file(true).unwrap();
    b.record_renamed();
    assert_eq!(plan_a.from, "/one/a.jpg");
    assert_eq!(plan_a.to, "/one/img250102001.jpg");
    assert_eq!(plan_b.from, "/two/b.jpg");
    assert_eq!(plan_b.to, "/two/img250102002.jpg");
}

#[test]
fn folder_summary_counts_successes() {
    // two images and one text file; the folder summary says 2
    let files = strings(&["/d/photos/a.jpg", "/d/photos/b.png", "/d/photos/c.txt"]);
    let mut b = Batch::new(files, "trip", 1, true, "250102").unwrap();
    while !b.done() {
        match b.process_file(true) {
            Some(_plan) => b.record_renamed(),
            None => {}
        }
    }
    let plan = b.folder_plan().expect("folder rename owed");
    assert_eq!(plan.from, "/d/photos");
    assert_eq!(plan.new_name, "trip250102 1-2 2\u{5f20}");
    assert_eq!(plan.to, "/d/trip250102 1-2 2\u{5f20}");
    b.record_folder_renamed();
    let (result, config) = b.finish();
    assert_eq!(result.success.len(), 2);
    assert_eq!(result.error.len(), 1);
    assert_eq!(result.error[0].file, "c.txt");
    assert!(matches!(result.error[0].failure, FileFailure::UnsupportedFormat));
    let folder = result.folder_renamed.expect("folder renamed");
    assert_eq!(folder.original, "photos");
    assert_eq!(folder.new, "trip250102 1-2 2\u{5f20}");
    assert!(result.folder_rename_error.is_none());
    assert_eq!(config.last_number, 3);
}

#[test]
fn rename_failure_is_recorded_and_batch_continues() {
    // the first target already exists, so its rename fails; the batch
    // goes on and the end number still advances
    let files = strings(&["/d/a.jpg", "/d/b.jpg"]);
    let mut b = Batch::new(files, "img", 9, false, "250102").unwrap();
    let _plan = b.process_file(true).unwrap();
    b.record_rename_failed("target exists".to_string());
    let _plan = b.process_file(true).unwrap();
    b.record_renamed();
    let (result, config) = b.finish();
    assert_eq!(result.success.len(), 1);
    assert_eq!(result.error.len(), 1);
    assert_eq!(result.error[0].file, "a.jpg");
    match &result.error[0].failure {
        FileFailure::RenameFailed(m) => assert_eq!(m, "target exists"),
        _ => panic!("expected a rename failure"),
    }
    assert_eq!(result.success[0].new, "img250102010.jpg");
    assert_eq!(config.last_number, 11);
}

#[test]
fn missing_file_is_recorded_without_consuming_end_number() {
    let files = strings(&["/d/gone.jpg", "/d/here.jpg"]);
    let mut b = Batch::new(files, "img", 1, false, "250102").unwrap();
    assert!(b.process_file(false).is_none());
    let plan = b.process_file(true).unwrap();
    // the missing file consumed slot 1; the attempted rename gets 2
    assert_eq!(plan.new_name, "img250102002.jpg");
    b.record_renamed();
    let (result, config) = b.finish();
    assert_eq!(result.error[0].file, "gone.jpg");
    assert!(matches!(result.error[0].failure, FileFailure::FileNotFound));
    assert_eq!(config.last_number, 3);
}

#[test]
fn every_file_lands_in_exactly_one_list() {
    let files = strings(&[
        "/d/a.jpg",
        "/d/b.txt",
        "/d/c.png",
        "/d/gone.jpg",
        "/d/e.jpeg",
    ]);
    let total = files.len();
    let mut b = Batch::new(files, "img", 1, false, "250102").unwrap();
    let mut step = 0;
    while !b.done() {
        let exists = !b.current_path().contains("gone");
        match b.process_file(exists) {
            Some(_plan) => {
                // alternate success and failure among attempted renames
                if step % 2 == 0 {
                    b.record_renamed();
                } else {
                    b.record_rename_failed("refused".to_string());
                }
                step += 1;
            }
            None => {}
        }
    }
    let (result, _config) = b.finish();
    assert_eq!(result.success.len() + result.error.len(), total);
}

#[test]
fn no_folder_rename_without_success_or_flag() {
    // flag not set
    let files = strings(&["/d/a.jpg"]);
    let mut b = Batch::new(files, "img", 1, false, "250102").unwrap();
    let _ = b.process_file(true).unwrap();
    b.record_renamed();
    assert!(b.folder_plan().is_none());

    // flag set but nothing succeeded
    let files = strings(&["/d/a.txt"]);
    let mut b = Batch::new(files, "img", 1, true, "250102").unwrap();
    assert!(b.process_file(true).is_none());
    assert!(b.folder_plan().is_none());
}

#[test]
fn folder_rename_failure_is_kept_separately() {
    let files = strings(&["/d/photos/a.jpg"]);
    let mut b = Batch::new(files, "img", 1, true, "250102").unwrap();
    let _ = b.process_file(true).unwrap();
    b.record_renamed();
    assert!(b.folder_plan().is_some());
    b.record_folder_failed("directory busy".to_string());
    let (result, _config) = b.finish();
    assert!(result.folder_renamed.is_none());
    assert_eq!(result.folder_rename_error.as_deref(), Some("directory busy"));
}

#[test]
fn start_number_is_clamped() {
    let files = strings(&["/d/a.jpg", "/d/b.jpg"]);
    let mut b = Batch::new(files, "img", 200000, false, "250102").unwrap();
    let plan = b.process_file(true).unwrap();
    assert_eq!(plan.new_name, "img25010299999.jpg");
    b.record_renamed();
    // the next number cannot go past the maximum either
    let plan = b.process_file(true).unwrap();
    assert_eq!(plan.new_name, "img25010299999.jpg");
    b.record_renamed();
    let (_result, config) = b.finish();
    assert_eq!(config.last_number, 100000);
}

#[test]
fn failure_messages_are_readable() {
    assert_eq!(FileFailure::FileNotFound.message(), "file does not exist");
    assert_eq!(
        FileFailure::UnsupportedFormat.message(),
        "not a supported image format"
    );
    assert_eq!(
        FileFailure::RenameFailed("no permission".to_string()).message(),
        "no permission"
    );
}
