use myso_salt_service::config::{AllowedClient, Config};
use myso_salt_service::handlers::find_client;
use myso_salt_service::indexer_platforms::{
    active_platforms_query, allowed_client_of_row, merge_allowed_clients,
    platform_passes_status_filter, redirect_uri_from_links, resolve_platform_redirect_uri,
    FetchStep, GraphqlEnvelope, GraphqlError, IndexerFetch, PageOutcome, PlatformRow,
    PlatformsData,
};
use myso_salt_service::json::JsonValue;

fn links(members: &[(&str, &str)]) -> JsonValue {
    JsonValue::Object(
        members
            .iter()
            .map(|(k, v)| (k.to_string(), JsonValue::Text(v.to_string())))
            .collect(),
    )
}

fn test_config(auth_callback_url: Option<&str>) -> Config {
    Config {
        database_url: "postgresql://localhost/db".into(),
        master_seed_base64: String::new(),
        port: 3000,
        allowed_origins: vec![],
        rate_limit_per_minute: 60,
        log_level: "info".into(),
        twitch_client_id: None,
        twitch_client_secret: None,
        facebook_app_secret: None,
        facebook_app_id: None,
        allowed_audience_google: None,
        google_client_secret: None,
        allowed_audience_apple: None,
        apple_team_id: None,
        apple_key_identifier: None,
        apple_private_key: None,
        allowed_audience_facebook: None,
        allowed_audience_twitch: None,
        auth_callback_url: auth_callback_url.map(str::to_string),
        allowed_clients_env: vec![],
        allowed_clients: vec![],
        myso_indexer_graphql_url: Some("http://indexer.test/graphql".into()),
        indexer_platforms_page_limit: 200,
        require_redirect_uri_from_links: false,
        platform_status_allowlist: None,
        platform_status_denylist: vec!["Shutdown".into(), "Sunset".into()],
        platform_links_redirect_keys: vec!["website".into(), "url".into()],
        mysocial_auth_issuer: None,
        mysocial_auth_jwks_uri: None,
        allowed_audience_mysocial: None,
        jwt_signing_key: None,
        jwt_key_id: "mysocial-salt".into(),
        jwt_issuer: None,
    }
}

fn row(id: &str, status: &str, uri: Option<&str>, links: Option<JsonValue>) -> PlatformRow {
    PlatformRow {
        platform_id: Some(id.into()),
        name: None,
        developer_address: None,
        status_text: Some(status.into()),
        redirect_uri: uri.map(str::to_string),
        shutdown_date: None,
        links,
    }
}

fn page(rows: Vec<PlatformRow>) -> PageOutcome {
    PageOutcome::Page(GraphqlEnvelope {
        data: Some(PlatformsData { platforms: Some(rows) }),
        errors: None,
    })
}

fn client(id: &str, uri: &str) -> AllowedClient {
    AllowedClient { client_id: id.into(), redirect_uri: uri.into() }
}

fn failure(step: FetchStep) -> String {
    match step {
        FetchStep::Failed(reason) => reason,
        other => panic!("{:?}", other),
    }
}

#[test]
fn merge_env_overrides_indexer() {
    let indexer = vec![
        AllowedClient {
            client_id: "a".into(),
            redirect_uri: "https://a.example/cb".into(),
        },
        AllowedClient {
            client_id: "b".into(),
            redirect_uri: "https://b.example/cb".into(),
        },
    ];
    let env = vec![AllowedClient {
        client_id: "a".into(),
        redirect_uri: "https://override/cb".into(),
    }];
    let m = merge_allowed_clients(indexer, env);
    assert_eq!(m.len(), 2);
    let a = m.iter().find(|c| c.client_id == "a").unwrap();
    assert_eq!(a.redirect_uri, "https://override/cb");
}

#[test]
fn status_allowlist() {
    let allow = Some(vec!["Live".to_string()]);
    assert!(platform_passes_status_filter(Some("Live"), &allow, &[]));
    assert!(!platform_passes_status_filter(Some("Beta"), &allow, &[]));
    assert!(!platform_passes_status_filter(None, &allow, &[]));
}

#[test]
fn status_denylist_when_no_allowlist() {
    let deny = vec!["Shutdown".to_string(), "Sunset".to_string()];
    assert!(platform_passes_status_filter(Some("Live"), &None, &deny));
    assert!(!platform_passes_status_filter(Some("Sunset"), &None, &deny));
}

#[test]
fn empty_allowlist_falls_back_to_denylist() {
    let allow = Some(vec![]);
    let deny = vec!["Shutdown".to_string()];
    assert!(platform_passes_status_filter(Some("Live"), &allow, &deny));
    assert!(!platform_passes_status_filter(Some("Shutdown"), &allow, &deny));
}

#[test]
fn redirect_from_on_chain_field() {
    let links = links(&[("website", "https://links.example/cb")]);
    let keys = vec!["website".into()];
    assert_eq!(
        resolve_platform_redirect_uri(Some("https://onchain.example/cb"), Some(&links), &keys)
            .as_deref(),
        Some("https://onchain.example/cb")
    );
}

#[test]
fn redirect_falls_back_to_links_when_on_chain_missing() {
    let links = links(&[("website", "https://links.example/cb")]);
    let keys = vec!["website".into()];
    assert_eq!(
        resolve_platform_redirect_uri(None, Some(&links), &keys).as_deref(),
        Some("https://links.example/cb")
    );
}

#[test]
fn redirect_from_links_ordered_keys() {
    let links = links(&[
        ("website", "https://one.test/callback"),
        ("url", "https://two.test/cb"),
    ]);
    let keys = vec!["missing".into(), "url".into(), "website".into()];
    assert_eq!(
        redirect_uri_from_links(Some(&links), &keys).as_deref(),
        Some("https://two.test/cb")
    );
}

#[test]
fn skips_platform_without_redirect_when_no_global_callback() {
    let row = PlatformRow {
        platform_id: Some("platform-1".into()),
        name: None,
        developer_address: None,
        status_text: Some("Live".into()),
        redirect_uri: None,
        shutdown_date: None,
        links: None,
    };
    let cfg = test_config(None);
    let redirect = resolve_platform_redirect_uri(
        row.redirect_uri.as_deref(),
        row.links.as_ref(),
        &cfg.platform_links_redirect_keys,
    );
    let has_global_callback = cfg
        .auth_callback_url
        .as_ref()
        .map(|s| !s.trim().is_empty())
        .unwrap_or(false);
    assert!(redirect.is_none());
    assert!(!has_global_callback);
    assert!(allowed_client_of_row(&row, &cfg).is_none());
    let made = allowed_client_of_row(&row, &test_config(Some("https://auth/cb"))).unwrap();
    assert_eq!(made.client_id, "platform-1");
    assert_eq!(made.redirect_uri, "");
}

#[test]
fn merged_clients_are_sorted_and_the_last_one_counts() {
    let merged = merge_allowed_clients(
        vec![client("z", "1"), client("m", "2"), client("z", "3"), client("é", "4")],
        vec![client("a", "5"), client("m", "6"), client("m", "7"), client("ab", "8")],
    );
    let all: Vec<(&str, &str)> = merged
        .iter()
        .map(|c| (c.client_id.as_str(), c.redirect_uri.as_str()))
        .collect();
    assert_eq!(all, vec![("a", "5"), ("ab", "8"), ("m", "7"), ("z", "3"), ("é", "4")]);
    assert_eq!(find_client(&merged, "m").unwrap().redirect_uri, "7");
    assert!(find_client(&merged, "q").is_none());
    assert!(merge_allowed_clients(vec![], vec![]).is_empty());
}

#[test]
fn statuses_are_compared_without_white_space() {
    let allow = Some(vec![" Live ".to_string()]);
    assert!(platform_passes_status_filter(Some("Live\n"), &allow, &["Live".to_string()]));
    assert!(!platform_passes_status_filter(Some("live"), &allow, &[]));
    assert!(!platform_passes_status_filter(Some("  "), &None, &[]));
    assert!(!platform_passes_status_filter(Some("Gone"), &None, &[" Gone".to_string()]));
}

#[test]
fn links_that_are_no_url_are_passed_over() {
    let value = JsonValue::Object(vec![
        ("a".into(), JsonValue::Number("1".into())),
        ("b".into(), JsonValue::Text("  ".into())),
        ("c".into(), JsonValue::Text(" https://c ".into())),
        ("".into(), JsonValue::Text("https://empty".into())),
    ]);
    let keys: Vec<String> = vec!["".into(), "a".into(), "b".into(), " c ".into()];
    assert_eq!(redirect_uri_from_links(Some(&value), &keys).as_deref(), Some("https://c"));
    assert_eq!(redirect_uri_from_links(Some(&value), &[]), None);
    assert_eq!(redirect_uri_from_links(None, &keys), None);
    let array = JsonValue::Array(vec![JsonValue::Text("https://c".into())]);
    assert_eq!(redirect_uri_from_links(Some(&array), &keys), None);
    assert_eq!(
        resolve_platform_redirect_uri(Some("  "), Some(&value), &keys).as_deref(),
        Some("https://c")
    );
}

#[test]
fn required_links_are_asked_for_even_with_an_on_chain_uri() {
    let mut cfg = test_config(Some("https://auth/cb"));
    cfg.require_redirect_uri_from_links = true;
    assert!(allowed_client_of_row(&row("p", "Live", Some("https://chain"), None), &cfg).is_none());
    let with_links = row("p", "Live", Some("https://chain"), Some(links(&[("url", "https://l")])));
    assert_eq!(allowed_client_of_row(&with_links, &cfg).unwrap().redirect_uri, "https://chain");
    let from_links = row("p", "Live", None, Some(links(&[("url", "https://l")])));
    assert_eq!(allowed_client_of_row(&from_links, &cfg).unwrap().redirect_uri, "https://l");
}

#[test]
fn platforms_need_an_id_and_a_status() {
    let cfg = test_config(Some("https://auth/cb"));
    assert!(allowed_client_of_row(&row(" ", "Live", None, None), &cfg).is_none());
    assert!(allowed_client_of_row(&row("p", "Sunset", None, None), &cfg).is_none());
    let mut nameless = row("p", "Live", None, None);
    nameless.platform_id = None;
    assert!(allowed_client_of_row(&nameless, &cfg).is_none());
    assert_eq!(allowed_client_of_row(&row(" p ", "Live", None, None), &cfg).unwrap().client_id, "p");
}

#[test]
fn a_fetch_goes_from_page_to_page() {
    let mut cfg = test_config(None);
    cfg.indexer_platforms_page_limit = 2;
    cfg.myso_indexer_graphql_url = Some(" http://indexer.test/graphql ".into());
    let fetch = IndexerFetch::start(&cfg).unwrap();
    assert_eq!(fetch.url, "http://indexer.test/graphql");
    assert_eq!((fetch.limit, fetch.offset), (2, 0));
    let first = page(vec![
        row("a", "Live", Some("https://a"), None),
        row("b", "Sunset", Some("https://b"), None),
    ]);
    let fetch = match fetch.on_page(first, &cfg) {
        FetchStep::More(fetch) => fetch,
        other => panic!("{:?}", other),
    };
    assert_eq!((fetch.limit, fetch.offset, fetch.found.len()), (2, 2, 1));
    let last = page(vec![row("c", "Live", Some("https://c"), None)]);
    match fetch.on_page(last, &cfg) {
        FetchStep::Done(clients) => {
            let ids: Vec<&str> = clients.iter().map(|c| c.client_id.as_str()).collect();
            assert_eq!(ids, vec!["a", "c"]);
        }
        other => panic!("{:?}", other),
    }
}

#[test]
fn an_empty_page_ends_a_fetch() {
    let mut cfg = test_config(None);
    cfg.indexer_platforms_page_limit = 0;
    let fetch = IndexerFetch::start(&cfg).unwrap();
    assert_eq!(fetch.limit, 1);
    let fetch = match fetch.on_page(page(vec![row("a", "Live", Some("u"), None)]), &cfg) {
        FetchStep::More(fetch) => fetch,
        other => panic!("{:?}", other),
    };
    let nothing = PageOutcome::Page(GraphqlEnvelope { data: None, errors: None });
    match fetch.on_page(nothing, &cfg) {
        FetchStep::Done(clients) => assert_eq!(clients.len(), 1),
        other => panic!("{:?}", other),
    }
    cfg.myso_indexer_graphql_url = Some("  ".into());
    assert_eq!(IndexerFetch::start(&cfg).unwrap_err(), "indexer GraphQL URL missing");
    cfg.myso_indexer_graphql_url = None;
    assert_eq!(IndexerFetch::start(&cfg).unwrap_err(), "indexer GraphQL URL missing");
}

#[test]
fn a_failed_page_fails_the_fetch() {
    let cfg = test_config(None);
    let start = || IndexerFetch::start(&cfg).unwrap();
    assert_eq!(
        failure(start().on_page(PageOutcome::RequestFailed, &cfg)),
        "indexer GraphQL request failed"
    );
    let http = PageOutcome::HttpError {
        status: "502 Bad Gateway".into(),
        body: "down".into(),
    };
    assert_eq!(
        failure(start().on_page(http, &cfg)),
        "indexer GraphQL HTTP 502 Bad Gateway: down"
    );
    assert_eq!(
        failure(start().on_page(PageOutcome::InvalidBody, &cfg)),
        "indexer GraphQL response is not valid JSON"
    );
    let errors = PageOutcome::Page(GraphqlEnvelope {
        data: None,
        errors: Some(vec![
            GraphqlError { message: Some("one".into()) },
            GraphqlError { message: None },
            GraphqlError { message: Some("two".into()) },
        ]),
    });
    assert_eq!(
        failure(start().on_page(errors, &cfg)),
        "indexer GraphQL errors: one; two"
    );
}

#[test]
fn the_last_offset_can_still_end_a_fetch() {
    let mut cfg = test_config(None);
    cfg.indexer_platforms_page_limit = 1;
    let last = || {
        let mut fetch = IndexerFetch::start(&cfg).unwrap();
        fetch.offset = i64::MAX;
        fetch
    };
    assert!(!last().goes_on(&PageOutcome::RequestFailed));
    assert_eq!(
        failure(last().on_page(PageOutcome::RequestFailed, &cfg)),
        "indexer GraphQL request failed"
    );
    assert!(!last().goes_on(&page(vec![])));
    assert!(matches!(last().on_page(page(vec![]), &cfg), FetchStep::Done(_)));
    let full = page(vec![row("a", "Live", Some("u"), None)]);
    assert!(IndexerFetch::start(&cfg).unwrap().goes_on(&full));
    let with_errors = PageOutcome::Page(GraphqlEnvelope {
        data: Some(PlatformsData { platforms: Some(vec![row("a", "Live", None, None)]) }),
        errors: Some(vec![GraphqlError { message: None }]),
    });
    assert!(!last().goes_on(&with_errors));
}

#[test]
fn errors_without_a_message_fail_the_fetch() {
    let cfg = test_config(None);
    for message in [None, Some(String::new())] {
        let outcome = PageOutcome::Page(GraphqlEnvelope {
            data: None,
            errors: Some(vec![GraphqlError { message }]),
        });
        let step = IndexerFetch::start(&cfg).unwrap().on_page(outcome, &cfg);
        assert_eq!(failure(step), "indexer GraphQL errors: ");
    }
    let no_errors = PageOutcome::Page(GraphqlEnvelope { data: None, errors: Some(vec![]) });
    let step = IndexerFetch::start(&cfg).unwrap().on_page(no_errors, &cfg);
    assert!(matches!(step, FetchStep::Done(clients) if clients.is_empty()));
}

#[test]
fn the_query_asks_for_approved_platforms() {
    assert_eq!(
        active_platforms_query(),
        "query ActivePlatforms($limit: Int, $offset: Int) {
  platforms(approvedOnly: true, limit: $limit, offset: $offset) {
    platformId
    statusText
    redirectUri
    links
  }
}"
    );
}
