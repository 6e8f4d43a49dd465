use dir_prefix_renamer::rename::{dest_name, plan_renames, report_line, report_lines, RenameStep};

#[test]
fn dest_name_prefixes_with_underscore() {
    assert_eq!(dest_name("X", "a.txt"), "X_a.txt");
    assert_eq!(dest_name("", "a.txt"), "_a.txt");
}

#[test]
fn report_line_format() {
    assert_eq!(report_line("a.txt", "X_a.txt"), "a.txt -> X_a.txt");
}

#[test]
fn two_files_renamed_with_prefix() {
    let sources = vec!["a.txt".to_string(), "b.txt".to_string()];
    let steps = plan_renames("X", &sources, false);
    assert_eq!(steps.len(), 2);
    assert_eq!(steps[0].dest, "X_a.txt");
    assert_eq!(steps[1].dest, "X_b.txt");
    assert!(steps[0].perform && steps[1].perform);
    let lines = report_lines(&steps);
    assert_eq!(lines, vec!["a.txt -> X_a.txt".to_string(), "b.txt -> X_b.txt".to_string()]);
}

#[test]
fn dry_run_reports_same_and_renames_nothing() {
    let sources = vec!["a.txt".to_string(), "b.txt".to_string()];
    let dry = plan_renames("X", &sources, true);
    let real = plan_renames("X", &sources, false);
    assert_eq!(report_lines(&dry), report_lines(&real));
    assert!(dry.iter().all(|s| !s.perform));
}

#[test]
fn second_run_double_prefixes() {
    let first = RenameStep::plan("X", "a.txt", false);
    let second = RenameStep::plan("X", &first.dest, false);
    assert_eq!(second.dest, "X_X_a.txt");
    assert_ne!(second.dest, first.dest);
}

#[test]
fn empty_directory_has_no_steps() {
    let steps = plan_renames("X", &Vec::new(), false);
    assert!(steps.is_empty());
    assert!(report_lines(&steps).is_empty());
}

#[test]
fn step_report_matches_report_line() {
    let s = RenameStep::plan("20241231", "photo.jpg", true);
    assert_eq!(s.source, "photo.jpg");
    assert_eq!(s.report(), "photo.jpg -> 20241231_photo.jpg");
    assert!(!s.perform);
}
