use playlist_export::paging::{
    fetch_all, FetchAction, FetchError, ListQuery, Page, PageEvent, PageRequest, Pager,
    MAX_RESULTS,
};

fn page(items: &[u32], next: Option<&str>) -> Page<u32> {
    Page { items: items.to_vec(), next_cursor: next.map(String::from) }
}

fn items_of(id: &str) -> ListQuery {
    ListQuery::PlaylistItems { playlist_id: String::from(id) }
}

#[test]
fn page_size_is_forty() {
    assert_eq!(MAX_RESULTS, 40);
}

#[test]
fn fetch_all_concatenates_the_pages_in_order() {
    let answers = vec![page(&[1, 2], Some("t1")), page(&[3], Some("t2")), page(&[4, 5, 6], None)];
    assert_eq!(fetch_all(ListQuery::MyPlaylists, answers), Ok(vec![1, 2, 3, 4, 5, 6]));
}

#[test]
fn fetch_all_does_not_depend_on_how_items_are_spread() {
    let one = vec![page(&[1, 2, 3, 4, 5, 6], None)];
    let two = vec![page(&[1], Some("a")), page(&[2, 3, 4, 5, 6], None)];
    let six = vec![
        page(&[1], Some("a")),
        page(&[2], Some("b")),
        page(&[3], Some("c")),
        page(&[4], Some("d")),
        page(&[5], Some("e")),
        page(&[6], None),
    ];
    let expected: Result<Vec<u32>, FetchError> = Ok(vec![1, 2, 3, 4, 5, 6]);
    assert_eq!(fetch_all(ListQuery::MyPlaylists, one), expected);
    assert_eq!(fetch_all(ListQuery::MyPlaylists, two), expected);
    assert_eq!(fetch_all(ListQuery::MyPlaylists, six), expected);
}

#[test]
fn fetch_all_goes_on_after_an_empty_first_page_with_a_cursor() {
    let answers = vec![page(&[], Some("more")), page(&[7, 8], None)];
    assert_eq!(fetch_all(ListQuery::MyPlaylists, answers), Ok(vec![7, 8]));
}

#[test]
fn fetch_all_of_an_empty_listing_is_empty() {
    assert_eq!(fetch_all(ListQuery::MyPlaylists, vec![page(&[], None)]), Ok(Vec::new()));
}

#[test]
fn fetch_all_keeps_duplicates_and_order() {
    let answers = vec![page(&[2, 2, 1], Some("x")), page(&[2, 1], None)];
    assert_eq!(fetch_all(items_of("PL1"), answers), Ok(vec![2, 2, 1, 2, 1]));
}

#[test]
fn fetch_all_stops_at_the_first_page_without_a_cursor() {
    let answers = vec![page(&[1], None), page(&[2], None)];
    assert_eq!(fetch_all(ListQuery::MyPlaylists, answers), Ok(vec![1]));
}

#[test]
fn fetch_all_fails_when_the_remote_fails_on_the_first_call() {
    let none: Vec<Page<u32>> = Vec::new();
    assert_eq!(
        fetch_all(ListQuery::MyPlaylists, none),
        Err(FetchError { query: ListQuery::MyPlaylists })
    );
}

#[test]
fn fetch_all_fails_when_the_remote_fails_on_a_later_call() {
    let answers = vec![page(&[1, 2], Some("t1")), page(&[3], Some("t2"))];
    assert_eq!(fetch_all(items_of("PL9"), answers), Err(FetchError { query: items_of("PL9") }));
}

#[test]
fn failure_message_names_the_call() {
    assert_eq!(
        FetchError { query: ListQuery::MyPlaylists }.message(),
        "Error fetching playlists"
    );
    assert_eq!(
        FetchError { query: items_of("PL9") }.message(),
        "Error requesting playlist items for playlist_id: PL9"
    );
}

#[test]
fn first_request_has_an_empty_cursor() {
    let pager: Pager<u32> = Pager::new(ListQuery::MyPlaylists);
    assert_eq!(
        pager.action(),
        FetchAction::Request(PageRequest {
            query: ListQuery::MyPlaylists,
            part: String::from("snippet"),
            max_results: 40,
            page_token: String::new(),
        })
    );
}

#[test]
fn item_requests_name_the_playlist_and_both_parts() {
    let pager: Pager<u32> = Pager::new(items_of("PL1"));
    assert_eq!(
        pager.action(),
        FetchAction::Request(PageRequest {
            query: items_of("PL1"),
            part: String::from("snippet,contentDetails"),
            max_results: 40,
            page_token: String::new(),
        })
    );
    assert_eq!(ListQuery::MyPlaylists.part(), "snippet");
    assert_eq!(items_of("PL1").part(), "snippet,contentDetails");
}

#[test]
fn each_request_carries_the_cursor_of_the_page_before() {
    let mut pager: Pager<u32> = Pager::new(items_of("PL1"));
    let action = pager.step(PageEvent::Answer(page(&[1], Some("t1"))));
    match action {
        FetchAction::Request(request) => {
            assert_eq!(request.page_token, "t1");
            assert_eq!(request.max_results, 40);
            assert_eq!(request.query, items_of("PL1"));
        }
        other => panic!("unexpected action {:?}", other),
    }
    let action = pager.step(PageEvent::Answer(page(&[], Some("t2"))));
    match action {
        FetchAction::Request(request) => assert_eq!(request.page_token, "t2"),
        other => panic!("unexpected action {:?}", other),
    }
    assert_eq!(pager.step(PageEvent::Answer(page(&[2], None))), FetchAction::Finish);
    assert_eq!(pager.action(), FetchAction::Finish);
    assert_eq!(pager.finish(), Ok(vec![1, 2]));
}

#[test]
fn a_failure_aborts_with_the_query() {
    let mut pager: Pager<u32> = Pager::new(items_of("PL1"));
    pager.step(PageEvent::Answer(page(&[1], Some("t1"))));
    assert_eq!(
        pager.step(PageEvent::Failure),
        FetchAction::Abort(FetchError { query: items_of("PL1") })
    );
    assert_eq!(pager.action(), FetchAction::Abort(FetchError { query: items_of("PL1") }));
    assert_eq!(pager.finish(), Err(FetchError { query: items_of("PL1") }));
}

#[test]
fn an_unfinished_fetch_hands_out_nothing() {
    let mut pager: Pager<u32> = Pager::new(items_of("PL1"));
    pager.step(PageEvent::Answer(page(&[1, 2], Some("t1"))));
    assert_eq!(pager.finish(), Err(FetchError { query: items_of("PL1") }));
    let fresh: Pager<u32> = Pager::new(ListQuery::MyPlaylists);
    assert_eq!(fresh.finish(), Err(FetchError { query: ListQuery::MyPlaylists }));
}

#[test]
fn events_after_the_end_change_nothing() {
    let mut pager: Pager<u32> = Pager::new(ListQuery::MyPlaylists);
    assert_eq!(pager.step(PageEvent::Answer(page(&[1], None))), FetchAction::Finish);
    assert_eq!(pager.step(PageEvent::Answer(page(&[2], Some("t")))), FetchAction::Finish);
    assert_eq!(pager.step(PageEvent::Failure), FetchAction::Finish);
    assert_eq!(pager.finish(), Ok(vec![1]));

    let mut failed: Pager<u32> = Pager::new(ListQuery::MyPlaylists);
    failed.step(PageEvent::Failure);
    assert_eq!(
        failed.step(PageEvent::Answer(page(&[2], None))),
        FetchAction::Abort(FetchError { query: ListQuery::MyPlaylists })
    );
    assert_eq!(failed.finish(), Err(FetchError { query: ListQuery::MyPlaylists }));
}

#[test]
fn duplicate_gives_an_equal_query() {
    assert_eq!(items_of("PL1").duplicate(), items_of("PL1"));
    assert_eq!(ListQuery::MyPlaylists.duplicate(), ListQuery::MyPlaylists);
}
