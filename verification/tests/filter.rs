use sckitndi::content::{Display, RunningApplication, Window};
use sckitndi::filter::{
    application_is_blocked, blocklist_contains, default_blocklist, ContentFilter, FilterBuilder,
};
use sckitndi::geometry::Size;

fn app(pid: u32, id: Option<&str>) -> RunningApplication {
    RunningApplication::new(pid, id.map(|s| s.to_string()), None)
}

fn display() -> Display {
    Display::new(1, Size::new(3840, 2160))
}

fn excluded_pids(filter: &ContentFilter) -> Vec<u32> {
    match filter {
        ContentFilter::DisplayExcludingApplications { applications, .. } => {
            applications.iter().map(|a| a.process_id()).collect()
        }
        _ => panic!("not an application-excluding filter"),
    }
}

#[test]
fn dock_is_excluded_and_vendor_app_is_kept() {
    let apps = vec![app(10, Some("com.apple.dock")), app(11, Some("com.vendor.app"))];
    let filter = FilterBuilder::build(display(), &apps, &default_blocklist());
    match &filter {
        ContentFilter::DisplayExcludingApplications { display: d, applications, excepting_windows } => {
            assert_eq!(*d, display());
            assert_eq!(applications.len(), 1);
            assert_eq!(applications[0].process_id(), 10);
            assert_eq!(applications[0].bundle_identifier().as_deref(), Some("com.apple.dock"));
            assert!(excepting_windows.is_empty());
        }
        _ => panic!("wrong kind of filter"),
    }
}

#[test]
fn default_blocklist_has_the_eleven_entries_in_order() {
    let expected = vec![
        "com.koba789.sckitndi",
        "com.apple.controlcenter",
        "com.apple.dock",
        "com.apple.TextInputMenuAgent",
        "com.1password.1password",
        "com.getdropbox.dropbox",
        "com.apple.notificationcenterui",
        "com.justsystems.inputmethod.atok32",
        "com.apple.systemuiserver",
        "com.newtek.Application-Mac-NDI-StudioMonitor",
        "com.hnc.Discord",
    ];
    let got = default_blocklist();
    assert_eq!(got.len(), 11);
    for (g, e) in got.iter().zip(expected.iter()) {
        assert_eq!(g.as_str(), *e);
    }
}

#[test]
fn build_excludes_exactly_the_blocked_applications_in_order() {
    let blocklist = vec!["b".to_string(), "d".to_string()];
    let apps = vec![
        app(1, Some("a")),
        app(2, Some("b")),
        app(3, None),
        app(4, Some("d")),
        app(5, Some("b")),
        app(6, Some("B")),
        app(7, Some("")),
    ];
    let filter = FilterBuilder::build(display(), &apps, &blocklist);
    assert_eq!(excluded_pids(&filter), vec![2, 4, 5]);
}

#[test]
fn build_with_empty_inputs_excludes_nothing() {
    let none: Vec<RunningApplication> = Vec::new();
    assert_eq!(excluded_pids(&FilterBuilder::build(display(), &none, &default_blocklist())), Vec::<u32>::new());
    let apps = vec![app(1, Some("com.apple.dock"))];
    let empty: Vec<String> = Vec::new();
    assert_eq!(excluded_pids(&FilterBuilder::build(display(), &apps, &empty)), Vec::<u32>::new());
}

#[test]
fn application_without_identifier_is_never_blocked() {
    let blocklist = vec!["".to_string()];
    assert!(!application_is_blocked(&app(1, None), &blocklist));
    assert!(application_is_blocked(&app(1, Some("")), &blocklist));
}

#[test]
fn blocklist_contains_compares_whole_identifiers() {
    let blocklist = default_blocklist();
    assert!(blocklist_contains(&blocklist, &"com.hnc.Discord".to_string()));
    assert!(blocklist_contains(&blocklist, &"com.koba789.sckitndi".to_string()));
    assert!(!blocklist_contains(&blocklist, &"com.hnc.discord".to_string()));
    assert!(!blocklist_contains(&blocklist, &"com.apple.doc".to_string()));
    assert!(!blocklist_contains(&blocklist, &"com.apple.dock ".to_string()));
}

#[test]
fn filter_constructors_keep_what_they_are_given() {
    let w = Window::new(7, "Title".to_string(), app(1, Some("x")));
    match ContentFilter::with_desktop_independent_window(w.clone()) {
        ContentFilter::DesktopIndependentWindow { window } => assert_eq!(window.window_id(), 7),
        _ => panic!("wrong kind of filter"),
    }
    match ContentFilter::init_with_display_including_windows(display(), vec![w.clone()]) {
        ContentFilter::DisplayIncludingWindows { display: d, windows } => {
            assert_eq!(d, display());
            assert_eq!(windows.len(), 1);
            assert_eq!(windows[0].title().as_str(), "Title");
        }
        _ => panic!("wrong kind of filter"),
    }
    match ContentFilter::init_with_display_excluding_windows(display(), vec![w.clone(), w.clone()]) {
        ContentFilter::DisplayExcludingWindows { windows, .. } => assert_eq!(windows.len(), 2),
        _ => panic!("wrong kind of filter"),
    }
    match ContentFilter::init_with_display_including_applications_excepting_windows(
        display(),
        vec![app(3, None)],
        vec![w.clone()],
    ) {
        ContentFilter::DisplayIncludingApplications { applications, excepting_windows, .. } => {
            assert_eq!(applications[0].process_id(), 3);
            assert_eq!(excepting_windows[0].owning_application().process_id(), 1);
        }
        _ => panic!("wrong kind of filter"),
    }
    match ContentFilter::init_with_display_excluding_applications_excepting_windows(
        display(),
        vec![app(4, None), app(5, None)],
        Vec::new(),
    ) {
        ContentFilter::DisplayExcludingApplications { applications, excepting_windows, .. } => {
            assert_eq!(applications.len(), 2);
            assert!(excepting_windows.is_empty());
        }
        _ => panic!("wrong kind of filter"),
    }
}
