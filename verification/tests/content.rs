use sckitndi::content::{
    Completion, Display, NSArrayIter, RunningApplication, ShareableContent, Window,
};
use sckitndi::error::CaptureError;
use sckitndi::geometry::Size;

#[test]
fn snapshot_keeps_its_lists_in_order() {
    let a = RunningApplication::new(5, Some("com.vendor.app".to_string()), Some("App".to_string()));
    let w = Window::new(9, "Main".to_string(), a.clone());
    let content = ShareableContent::new(
        vec![Display::new(1, Size::new(10, 20)), Display::new(2, Size::new(30, 40))],
        vec![w],
        vec![a, RunningApplication::new(6, None, None)],
    );
    assert_eq!(content.displays().len(), 2);
    assert_eq!(content.displays()[1], Display::new(2, Size::new(30, 40)));
    assert_eq!(content.windows()[0].window_id(), 9);
    assert_eq!(content.windows()[0].title().as_str(), "Main");
    assert_eq!(content.windows()[0].owning_application().process_id(), 5);
    assert_eq!(content.applications()[0].bundle_identifier().as_deref(), Some("com.vendor.app"));
    assert_eq!(content.applications()[0].application_name().as_deref(), Some("App"));
    assert_eq!(content.applications()[1].process_id(), 6);
    assert!(content.applications()[1].bundle_identifier().is_none());
    assert!(content.applications()[1].application_name().is_none());
}

#[test]
fn duplicate_keeps_every_field() {
    let a = RunningApplication::new(5, Some("id".to_string()), None);
    let b = a.duplicate();
    assert_eq!(b.process_id, 5);
    assert_eq!(b.bundle_identifier, Some("id".to_string()));
    assert_eq!(b.application_name, None);
}

#[test]
fn missing_answer_is_content_unavailable() {
    match ShareableContent::get(None) {
        Err(e) => assert_eq!(e, CaptureError::ContentUnavailable),
        Ok(_) => panic!("no content was given"),
    }
    let content = ShareableContent::new(vec![Display::new(4, Size::new(1, 1))], vec![], vec![]);
    match ShareableContent::get(Some(content)) {
        Ok(c) => assert_eq!(c.displays()[0].display_id, 4),
        Err(_) => panic!("content was given"),
    }
}

#[test]
fn array_walk_visits_each_position_once() {
    let mut it = NSArrayIter::new(3);
    assert_eq!(it.next(), Some(0));
    assert_eq!(it.next(), Some(1));
    assert_eq!(it.next(), Some(2));
    assert_eq!(it.next(), None);
    assert_eq!(it.next(), None);
    let mut empty = NSArrayIter::new(0);
    assert_eq!(empty.next(), None);
}

#[test]
fn completion_fires_once() {
    let mut c = Completion::new(41u32);
    assert_eq!(c.take(), Some(41));
    assert_eq!(c.take(), None);
    assert_eq!(c.take(), None);
}
