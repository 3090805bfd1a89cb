use twitch_client::client_credentials::ClientCredentialsAuthProvider;
use twitch_client::endpoint::ApiEndpoint;
use twitch_client::error::ClientError;
use twitch_client::util::{append_query, extend_url};

#[test]
fn resource_paths_resolve_against_each_root() {
    assert_eq!(
        ApiEndpoint::Helix.get_endpoint("clips"),
        Ok("https://api.twitch.tv/helix/clips".to_string())
    );
    assert_eq!(
        ApiEndpoint::Helix.get_endpoint("search/categories"),
        Ok("https://api.twitch.tv/helix/search/categories".to_string())
    );
    assert_eq!(
        ApiEndpoint::Auth.get_endpoint("token"),
        Ok("https://id.twitch.tv/oauth2/token".to_string())
    );
    assert_eq!(
        ApiEndpoint::Custom("https://example.net/v1/".to_string()).get_endpoint("meta"),
        Ok("https://example.net/v1/meta".to_string())
    );
}

#[test]
fn an_unparsable_root_is_refused() {
    let bad = ApiEndpoint::Custom("not a url at all".to_string());
    assert!(matches!(
        bad.get_endpoint("meta"),
        Err(ClientError::Configuration(_))
    ));
}

#[test]
fn provider_construction_resolves_both_grant_urls() {
    let provider =
        ClientCredentialsAuthProvider::new("id".to_string(), "app-secret".to_string())
            .expect("the fixed roots resolve");
    assert_eq!(provider.auth_url, "https://id.twitch.tv/oauth2/authorize".to_string());
    assert_eq!(provider.token_url, "https://id.twitch.tv/oauth2/token".to_string());
    assert_eq!(provider.get_client_id(), Some("id".to_string()));
    assert!(provider.can_refresh());
}

#[test]
fn extend_url_repeats_the_parameter_for_each_value() {
    let ids = Some(vec!["one".to_string(), "two tails".to_string()]);
    assert_eq!(
        extend_url("clips".to_string(), "id".to_string(), &ids),
        Ok("clips?id=one&id=two+tails".to_string())
    );
}

#[test]
fn extend_url_leaves_the_url_alone_without_values() {
    assert_eq!(
        extend_url("clips".to_string(), "id".to_string(), &None),
        Ok("clips".to_string())
    );
    assert_eq!(
        extend_url("clips".to_string(), "id".to_string(), &Some(vec![])),
        Ok("clips".to_string())
    );
}

#[test]
fn append_query_only_adds_a_separator_when_needed() {
    assert_eq!(append_query("clips".to_string(), ""), "clips".to_string());
    assert_eq!(append_query("clips".to_string(), "id=1"), "clips?id=1".to_string());
}
