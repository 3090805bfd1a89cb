use twitch_client::error::ClientError;
use twitch_client::pagination::{drive_step, get_all, ReplayFetcher};
use twitch_client::result::{PageResult, Pagination};

fn page(items: &[&str], cursor: Option<&str>) -> Result<PageResult<String>, ClientError> {
    Ok(PageResult {
        data: items.iter().map(|s| s.to_string()).collect(),
        cursor: cursor.map(|c| c.to_string()),
    })
}

#[test]
fn pagination_exhaustion_follows_every_cursor() {
    let mut fetcher = ReplayFetcher::new(vec![
        page(&["a", "b"], Some("x")),
        page(&["c"], Some("x2")),
        page(&[], Some("x2")),
        page(&["d"], None),
    ]);
    let gathered = get_all(&mut fetcher, None).expect("all four pages");
    assert_eq!(gathered, vec!["a", "b", "c", "d"]);
    // the page with no items but a live cursor did not stop the run: all
    // four fetches went out, each carrying the previous page's cursor
    assert_eq!(
        fetcher.asked_cursors(),
        &vec![
            None,
            Some("x".to_string()),
            Some("x2".to_string()),
            Some("x2".to_string()),
        ]
    );
}

#[test]
fn limit_overshoots_by_at_most_one_page() {
    let mut fetcher = ReplayFetcher::new(vec![
        page(&["a", "b"], Some("x1")),
        page(&["c", "d"], Some("x2")),
        page(&["e", "f"], Some("x3")),
    ]);
    let gathered = get_all(&mut fetcher, Some(3)).expect("two pages");
    // the second page pushed the total strictly above the limit; it is
    // returned whole, not truncated to the limit
    assert_eq!(gathered, vec!["a", "b", "c", "d"]);
    assert_eq!(fetcher.asked_cursors().len(), 2);
}

#[test]
fn limit_equal_to_total_keeps_fetching() {
    let mut fetcher = ReplayFetcher::new(vec![
        page(&["a", "b"], Some("x1")),
        page(&["c"], None),
    ]);
    // after the first page the total is 2, not strictly above the limit
    let gathered = get_all(&mut fetcher, Some(2)).expect("both pages");
    assert_eq!(gathered, vec!["a", "b", "c"]);
    assert_eq!(fetcher.asked_cursors().len(), 2);
}

#[test]
fn an_empty_cursor_ends_the_run() {
    let mut fetcher = ReplayFetcher::new(vec![
        page(&["a"], Some("x")),
        page(&["b"], Some("")),
        page(&["never"], None),
    ]);
    let gathered = get_all(&mut fetcher, None).expect("two pages");
    assert_eq!(gathered, vec!["a", "b"]);
    assert_eq!(fetcher.asked_cursors().len(), 2);
}

#[test]
fn a_failed_fetch_propagates_and_discards_partial_data() {
    let mut fetcher = ReplayFetcher::new(vec![
        page(&["a", "b"], Some("x")),
        Err(ClientError::Transport("connection reset".to_string())),
        page(&["c"], None),
    ]);
    let outcome = get_all(&mut fetcher, None);
    assert_eq!(
        outcome,
        Err(ClientError::Transport("connection reset".to_string()))
    );
    assert_eq!(fetcher.asked_cursors().len(), 2);
}

#[test]
fn a_run_past_its_script_reports_a_transport_error() {
    // the last scripted page still carries a cursor, so the driver asks
    // again and the exhausted script answers with a transport error
    let mut fetcher = ReplayFetcher::new(vec![page(&["a"], Some("x"))]);
    let outcome = get_all(&mut fetcher, None);
    assert_eq!(
        outcome,
        Err(ClientError::Transport("no scripted page remains".to_string()))
    );
    assert_eq!(fetcher.asked_cursors().len(), 2);
}

#[test]
fn drive_step_appends_and_hands_back_the_cursor() {
    let mut list: Vec<String> = vec!["a".to_string()];
    let next = drive_step(
        &mut list,
        PageResult { data: vec!["b".to_string()], cursor: Some("x".to_string()) },
        None,
    );
    assert_eq!(list, vec!["a".to_string(), "b".to_string()]);
    assert_eq!(next, Some("x".to_string()));

    let stopped = drive_step(
        &mut list,
        PageResult { data: vec!["c".to_string()], cursor: None },
        None,
    );
    assert_eq!(list, vec!["a".to_string(), "b".to_string(), "c".to_string()]);
    assert_eq!(stopped, None);

    // the limit check runs after the append
    let over = drive_step(
        &mut list,
        PageResult { data: vec!["d".to_string()], cursor: Some("x2".to_string()) },
        Some(3),
    );
    assert_eq!(list.len(), 4);
    assert_eq!(over, None);
}

#[test]
fn pages_are_read_from_response_parts() {
    let with_cursor: PageResult<String> = PageResult::from_parts(
        vec!["a".to_string()],
        Some(Pagination { cursor: Some("x".to_string()) }),
    );
    assert_eq!(with_cursor.cursor, Some("x".to_string()));

    let no_pagination: PageResult<String> = PageResult::from_parts(vec!["a".to_string()], None);
    assert_eq!(no_pagination.cursor, None);

    let empty_pagination: PageResult<String> =
        PageResult::from_parts(vec![], Some(Pagination { cursor: None }));
    assert_eq!(empty_pagination.cursor, None);
}
