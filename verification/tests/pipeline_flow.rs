use image_resolution_finder::config::{resolve_directories, Config};
use image_resolution_finder::copying::{destination_path, CopyResult};
use image_resolution_finder::filter::{Dimensions, FilterCriteria, FilterResult, RejectReason};
use image_resolution_finder::image_preference::ImagePreference;
use image_resolution_finder::pipeline::{evaluate_all, outcome, should_copy, PathOutcome};
use image_resolution_finder::walk::{discover, DirTree};

fn dims(width: u32, height: u32) -> Option<Dimensions> {
    Some(Dimensions { width, height })
}

#[test]
fn default_config_is_fully_populated() {
    let c = Config::default();
    assert_eq!(c.min_width, Some(0));
    assert_eq!(c.min_height, Some(0));
    assert_eq!(c.preference, Some(ImagePreference::NoPreference));
    assert_eq!(c.copy_destination.as_deref(), Some("image_data"));
    assert_eq!(
        c.directories,
        Some(vec![
            "First".to_string(),
            "second".to_string(),
            "the third".to_string()
        ])
    );
}

#[test]
fn criteria_resolution_fills_defaults() {
    let c = Config {
        min_width: Some(200),
        min_height: None,
        copy_destination: None,
        preference: None,
        directories: None,
    };
    let crit = c.criteria();
    assert_eq!(crit.min_width, 200);
    assert_eq!(crit.min_height, 0);
    assert_eq!(crit.preference, ImagePreference::NoPreference);
    assert_eq!(c.destination(), "image_data");
}

#[test]
fn absent_or_empty_directories_fall_back_to_cwd() {
    let cwd = "/work".to_string();
    assert_eq!(
        resolve_directories(None, cwd.clone()),
        vec!["/work".to_string()]
    );
    assert_eq!(
        resolve_directories(Some(Vec::new()), cwd.clone()),
        vec!["/work".to_string()]
    );
    assert_eq!(
        resolve_directories(Some(vec!["/photos".to_string()]), cwd),
        vec!["/photos".to_string()]
    );
}

#[test]
fn corrupt_sibling_leaves_others_untouched() {
    // Three candidates in one batch: the middle one cannot be decoded.
    // Its failure is its own; both siblings keep their outcomes.
    let c = FilterCriteria {
        min_width: 200,
        min_height: 200,
        preference: ImagePreference::NoPreference,
    };
    let with_corrupt = vec![dims(800, 600), None, dims(100, 100)];
    let results = evaluate_all(&c, &with_corrupt);
    assert_eq!(
        results,
        vec![
            FilterResult::Pass,
            FilterResult::OpenFailed,
            FilterResult::Rejected(RejectReason::TooSmall),
        ]
    );
    let all_good = vec![dims(800, 600), dims(640, 480), dims(100, 100)];
    let healthy = evaluate_all(&c, &all_good);
    assert_eq!(results[0], healthy[0]);
    assert_eq!(results[2], healthy[2]);
}

#[test]
fn only_a_pass_is_copied() {
    assert!(should_copy(FilterResult::Pass));
    assert!(!should_copy(FilterResult::OpenFailed));
    assert!(!should_copy(FilterResult::Rejected(RejectReason::TooSmall)));
    assert!(!should_copy(FilterResult::Rejected(
        RejectReason::WrongAspect
    )));
}

#[test]
fn each_path_reaches_one_terminal_state() {
    assert_eq!(
        outcome(FilterResult::OpenFailed, None),
        PathOutcome::OpenFailed
    );
    assert_eq!(
        outcome(FilterResult::Rejected(RejectReason::WrongAspect), None),
        PathOutcome::Rejected(RejectReason::WrongAspect)
    );
    assert_eq!(
        outcome(FilterResult::Pass, Some(CopyResult::Copied)),
        PathOutcome::PassedThenCopied
    );
    assert_eq!(
        outcome(FilterResult::Pass, Some(CopyResult::Failed)),
        PathOutcome::PassedThenCopyFailed
    );
}

#[test]
fn whole_run_keeps_only_the_large_image() {
    // roots = ["/a"]; /a holds img1.jpg (800 x 600) and an unreadable
    // notes.txt; /a/sub holds img2.png (100 x 100).  With minima of
    // 200 x 200 and no preference, discovery finds both images, the
    // filter rejects the small one, and the destination receives
    // exactly img1.jpg.
    let mut root = DirTree {
        path: "/a".to_string(),
        readable: true,
        files: vec!["/a/img1.jpg".to_string(), "/a/notes.txt".to_string()],
        subdirs: Vec::new(),
    };
    root.subdirs.push(DirTree {
        path: "/a/sub".to_string(),
        readable: true,
        files: vec!["/a/sub/img2.png".to_string()],
        subdirs: Vec::new(),
    });
    let mut candidates = discover(&vec![root]);
    candidates.sort();
    assert_eq!(
        candidates,
        vec!["/a/img1.jpg".to_string(), "/a/sub/img2.png".to_string()]
    );

    let criteria = FilterCriteria {
        min_width: 200,
        min_height: 200,
        preference: ImagePreference::NoPreference,
    };
    // Decode results in the order of the sorted candidates.
    let decoded = vec![dims(800, 600), dims(100, 100)];
    let results = evaluate_all(&criteria, &decoded);
    assert_eq!(
        results,
        vec![
            FilterResult::Pass,
            FilterResult::Rejected(RejectReason::TooSmall)
        ]
    );

    let mut copied = Vec::new();
    for (path, result) in candidates.iter().zip(results.iter()) {
        if should_copy(*result) {
            copied.push(destination_path("image_data", path).unwrap());
        }
    }
    assert_eq!(copied, vec!["image_data/img1.jpg".to_string()]);
}
