use chrono::{NaiveDate, NaiveDateTime};
use microblog::{BlogEntry, BlogMsg, BlogState};

fn midnight() -> NaiveDateTime {
    NaiveDate::from_ymd_opt(2021, 6, 1).unwrap().and_hms_opt(0, 0, 0).unwrap()
}

fn blog_of(count: usize) -> BlogState {
    let stored: Vec<BlogEntry> = (1..=count)
        .map(|id| BlogEntry { title: format!("entry {}", id), body: String::new(), time: midnight(), id })
        .collect();
    BlogState::create(Some(stored))
}

fn page_ids(state: &BlogState, page: usize) -> Option<Vec<usize>> {
    state.get_page(page).map(|entries| entries.iter().map(|e| e.id).collect())
}

#[test]
fn get_page_of_an_empty_blog_is_none() {
    let state = blog_of(0);
    assert_eq!(page_ids(&state, 0), None);
    assert_eq!(page_ids(&state, 1), None);
}

#[test]
fn get_page_of_a_short_blog_is_one_short_page() {
    let state = blog_of(3);
    assert_eq!(page_ids(&state, 0), Some(vec![1, 2, 3]));
    assert_eq!(page_ids(&state, 1), None);
}

#[test]
fn get_page_cuts_the_entries_into_tens() {
    let state = blog_of(25);
    assert_eq!(page_ids(&state, 0), Some((1..=10).collect()));
    assert_eq!(page_ids(&state, 1), Some((11..=20).collect()));
    assert_eq!(page_ids(&state, 2), Some((21..=25).collect()));
    assert_eq!(page_ids(&state, 3), None);
}

#[test]
fn get_page_has_no_empty_page_after_a_full_one() {
    let state = blog_of(20);
    assert_eq!(page_ids(&state, 1), Some((11..=20).collect()));
    assert_eq!(page_ids(&state, 2), None);
}

#[test]
fn get_page_far_beyond_the_end_is_none() {
    let state = blog_of(25);
    assert_eq!(page_ids(&state, usize::MAX), None);
    assert_eq!(page_ids(&state, usize::MAX / 10 + 1), None);
    assert_eq!(page_ids(&state, usize::MAX / 10), None);
}

#[test]
fn get_page_gives_the_entries_themselves() {
    let state = blog_of(12);
    let page = state.get_page(1).unwrap();
    assert_eq!(page, &state.entries()[10..12]);
    assert_eq!(page[0].title, "entry 11");
}

#[test]
fn get_page_sees_entries_as_they_are_added() {
    let mut state = blog_of(10);
    assert_eq!(page_ids(&state, 1), None);
    state.update(BlogMsg::Add);
    assert_eq!(page_ids(&state, 1), Some(vec![11]));
}
