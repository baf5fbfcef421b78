use delta_patch::schedule::{Schedule, DEFAULT_PARALLEL_FILES};

#[test]
fn default_cap_is_eight() {
    assert_eq!(DEFAULT_PARALLEL_FILES, 8);
}

#[test]
fn files_are_handed_out_in_order_up_to_the_cap() {
    let mut schedule = Schedule::new(5, 2);
    assert_eq!(schedule.start_next(), Some(0));
    assert_eq!(schedule.start_next(), Some(1));
    assert_eq!(schedule.start_next(), None);
    assert_eq!(schedule.in_flight(), 2);
    schedule.finish();
    assert_eq!(schedule.in_flight(), 1);
    assert_eq!(schedule.start_next(), Some(2));
    assert_eq!(schedule.start_next(), None);
}

#[test]
fn every_file_is_handed_out_once() {
    let mut schedule = Schedule::new(7, 3);
    let mut handed_out = Vec::new();
    while !schedule.is_done() {
        while let Some(place) = schedule.start_next() {
            handed_out.push(place);
            assert!(schedule.in_flight() <= 3);
        }
        schedule.finish();
    }
    assert_eq!(handed_out, vec![0, 1, 2, 3, 4, 5, 6]);
    assert_eq!(schedule.in_flight(), 0);
    assert_eq!(schedule.start_next(), None);
}

#[test]
fn cap_of_one_works_file_by_file() {
    let mut schedule = Schedule::new(3, 1);
    for place in 0..3 {
        assert_eq!(schedule.start_next(), Some(place));
        assert_eq!(schedule.start_next(), None);
        assert!(!schedule.is_done());
        schedule.finish();
    }
    assert!(schedule.is_done());
}

#[test]
fn cap_of_zero_is_taken_as_one() {
    let mut schedule = Schedule::new(2, 0);
    assert_eq!(schedule.start_next(), Some(0));
    assert_eq!(schedule.start_next(), None);
    schedule.finish();
    assert_eq!(schedule.start_next(), Some(1));
}

#[test]
fn empty_listing_is_done_at_once() {
    let mut schedule = Schedule::new(0, 8);
    assert!(schedule.is_done());
    assert_eq!(schedule.start_next(), None);
    assert_eq!(schedule.in_flight(), 0);
}

#[test]
fn cap_above_the_number_of_files_starts_them_all() {
    let mut schedule = Schedule::new(3, 8);
    assert_eq!(schedule.start_next(), Some(0));
    assert_eq!(schedule.start_next(), Some(1));
    assert_eq!(schedule.start_next(), Some(2));
    assert_eq!(schedule.start_next(), None);
    assert_eq!(schedule.in_flight(), 3);
}
