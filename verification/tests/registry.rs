use dockhand::registry::{
    legacy_search_url, next_search_action, normalize_results, normalize_summaries,
    primary_search_url, search_limit, HubResult, HubSummary, RegistrySearchResult, SearchAction,
    SearchPhase, SearchReply, VERSION_HEADER, VERSION_VALUE,
};

#[test]
fn limit_defaults_to_25() {
    assert_eq!(search_limit(None), 25);
    assert_eq!(search_limit(Some(0)), 0);
    assert_eq!(search_limit(Some(100)), 100);
}

#[test]
fn search_addresses() {
    assert_eq!(
        primary_search_url("nginx", 25),
        "https://hub.docker.com/api/content/v1/products/search?q=nginx&page_size=25"
    );
    assert_eq!(
        legacy_search_url("nginx", 25),
        "https://hub.docker.com/v2/search/repositories/?query=nginx&page_size=25"
    );
    assert_eq!(VERSION_HEADER, "Search-Version");
    assert_eq!(VERSION_VALUE, "v3");
}

#[test]
fn queries_are_percent_encoded() {
    assert_eq!(
        primary_search_url("my image/v2?x=1&y", 5),
        "https://hub.docker.com/api/content/v1/products/search?q=my%20image%2Fv2%3Fx%3D1%26y&page_size=5"
    );
    assert_eq!(
        legacy_search_url("a-b_c.d~e", 0),
        "https://hub.docker.com/v2/search/repositories/?query=a-b_c.d~e&page_size=0"
    );
    assert_eq!(
        legacy_search_url("é+%", 1000),
        "https://hub.docker.com/v2/search/repositories/?query=%C3%A9%2B%25&page_size=1000"
    );
    assert_eq!(
        primary_search_url("", 1),
        "https://hub.docker.com/api/content/v1/products/search?q=&page_size=1"
    );
    assert_eq!(
        primary_search_url("\u{0}\n\u{7f}\u{10ffff}", 1),
        "https://hub.docker.com/api/content/v1/products/search?q=%00%0A%7F%F4%8F%BF%BF&page_size=1"
    );
}

#[test]
fn first_address_is_read_on_success() {
    assert_eq!(
        next_search_action(SearchPhase::Primary, &SearchReply::Answered { success: true }, "q", 25),
        SearchAction::ReadSummaries
    );
}

#[test]
fn older_address_is_asked_after_a_failure_status() {
    assert_eq!(
        next_search_action(
            SearchPhase::Primary,
            &SearchReply::Answered { success: false },
            "web server",
            10
        ),
        SearchAction::AskLegacy(
            "https://hub.docker.com/v2/search/repositories/?query=web%20server&page_size=10"
                .to_string()
        )
    );
}

#[test]
fn older_address_is_read_whatever_its_status() {
    for success in [true, false] {
        assert_eq!(
            next_search_action(SearchPhase::Legacy, &SearchReply::Answered { success }, "q", 25),
            SearchAction::ReadResults
        );
    }
}

#[test]
fn unreachable_address_ends_the_search() {
    assert_eq!(
        next_search_action(
            SearchPhase::Primary,
            &SearchReply::Unreachable("dns error".to_string()),
            "q",
            25
        ),
        SearchAction::Fail("Failed to search Docker Hub: dns error".to_string())
    );
    assert_eq!(
        next_search_action(
            SearchPhase::Legacy,
            &SearchReply::Unreachable("timed out".to_string()),
            "q",
            25
        ),
        SearchAction::Fail("Failed to search Docker Hub (legacy): timed out".to_string())
    );
}

#[test]
fn summaries_are_normalised() {
    let summaries = vec![
        HubSummary {
            name: "Nginx".to_string(),
            slug: "nginx".to_string(),
            short_description: "Official build of Nginx.".to_string(),
            star_count: 20000,
            filter_type: "official".to_string(),
        },
        HubSummary {
            name: "someone/nginx".to_string(),
            slug: String::new(),
            short_description: String::new(),
            star_count: 0,
            filter_type: "community".to_string(),
        },
        HubSummary {
            name: "x".to_string(),
            slug: "y".to_string(),
            short_description: "d".to_string(),
            star_count: -1,
            filter_type: "Official".to_string(),
        },
    ];
    assert_eq!(
        normalize_summaries(&summaries),
        vec![
            RegistrySearchResult {
                name: "nginx".to_string(),
                description: "Official build of Nginx.".to_string(),
                star_count: 20000,
                is_official: true,
                is_automated: false,
            },
            RegistrySearchResult {
                name: "someone/nginx".to_string(),
                description: String::new(),
                star_count: 0,
                is_official: false,
                is_automated: false,
            },
            RegistrySearchResult {
                name: "y".to_string(),
                description: "d".to_string(),
                star_count: -1,
                is_official: false,
                is_automated: false,
            },
        ]
    );
    assert!(normalize_summaries(&Vec::new()).is_empty());
}

#[test]
fn older_results_are_normalised() {
    let results = vec![
        HubResult {
            name: "redis".to_string(),
            description: Some("Redis is an open source key-value store".to_string()),
            star_count: 12000,
            is_official: true,
            is_automated: false,
        },
        HubResult {
            name: "me/redis".to_string(),
            description: None,
            star_count: 1,
            is_official: false,
            is_automated: true,
        },
        HubResult {
            name: "blank".to_string(),
            description: Some(String::new()),
            star_count: 0,
            is_official: false,
            is_automated: false,
        },
    ];
    assert_eq!(
        normalize_results(&results),
        vec![
            RegistrySearchResult {
                name: "redis".to_string(),
                description: "Redis is an open source key-value store".to_string(),
                star_count: 12000,
                is_official: true,
                is_automated: false,
            },
            RegistrySearchResult {
                name: "me/redis".to_string(),
                description: "No description".to_string(),
                star_count: 1,
                is_official: false,
                is_automated: true,
            },
            RegistrySearchResult {
                name: "blank".to_string(),
                description: String::new(),
                star_count: 0,
                is_official: false,
                is_automated: false,
            },
        ]
    );
}
