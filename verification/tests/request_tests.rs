use twitch_client::clips::GetClipsRequest;
use twitch_client::search::{CategorySearchRequest, ChannelSearchRequest};

#[test]
fn clip_lookups_keep_one_selector_at_a_time() {
    let by_broadcaster = GetClipsRequest::new().with_broadcaster_id("b1".to_string());
    assert_eq!(by_broadcaster.broadcaster_id, Some("b1".to_string()));
    assert_eq!(by_broadcaster.game_id, None);
    assert_eq!(by_broadcaster.ids, None);

    let by_game = by_broadcaster.with_game_id("g1".to_string());
    assert_eq!(by_game.broadcaster_id, None);
    assert_eq!(by_game.game_id, Some("g1".to_string()));
    assert_eq!(by_game.ids, None);

    let by_ids = by_game.with_ids(vec!["c1".to_string(), "c2".to_string()]);
    assert_eq!(by_ids.broadcaster_id, None);
    assert_eq!(by_ids.game_id, None);
    assert_eq!(by_ids.ids, Some(vec!["c1".to_string(), "c2".to_string()]));
}

#[test]
fn clip_lookups_carry_window_and_size() {
    let request = GetClipsRequest::new()
        .with_first(Some(20))
        .with_started_at(Some("2020-01-01T00:00:00Z".to_string()))
        .with_ended_at(Some("2020-02-01T00:00:00Z".to_string()));
    assert_eq!(request.first, Some(20));
    assert_eq!(request.started_at, Some("2020-01-01T00:00:00Z".to_string()));
    assert_eq!(request.ended_at, Some("2020-02-01T00:00:00Z".to_string()));
}

#[test]
fn clip_paging_is_forward_or_backward_never_both() {
    let forward = GetClipsRequest::new().with_after(Some("x".to_string()));
    let fwd = forward.pagination.forward.clone().expect("forward paging");
    assert_eq!(fwd.after, Some("x".to_string()));
    assert!(forward.pagination.backward.is_none());

    let backward = forward.with_before(Some("y".to_string()));
    assert!(backward.pagination.forward.is_none());
    let bwd = backward.pagination.backward.clone().expect("backward paging");
    assert_eq!(bwd.before, Some("y".to_string()));
}

#[test]
fn category_searches_build_up_their_query() {
    let request = CategorySearchRequest::new()
        .with_query("speedrun".to_string())
        .with_first(Some(5))
        .with_after(Some("cur".to_string()));
    assert_eq!(request.query, "speedrun".to_string());
    assert_eq!(request.first, Some(5));
    assert_eq!(request.pagination.after, Some("cur".to_string()));
}

#[test]
fn channel_searches_build_up_their_query() {
    let request = ChannelSearchRequest::new()
        .with_query("chess".to_string())
        .with_after(Some("cur".to_string()))
        .with_first(Some(7));
    assert_eq!(request.query, "chess".to_string());
    assert_eq!(request.first, Some(7));
    assert_eq!(request.pagination.after, Some("cur".to_string()));
}
