//! The seeding stages, driven by a scripted transport, and the request
//! builders.

use requests::api::article_body;
use requests::api::endpoint_url;
use requests::api::favorite_article;
use requests::api::favorite_url;
use requests::api::follow_url;
use requests::api::login_body;
use requests::api::register_body;
use requests::api::register_request;
use requests::api::registration;
use requests::api::ApiRequest;
use requests::api::HttpOutcome;
use requests::api::HttpPost;
use requests::sampling::zipf_index;
use requests::sampling::RandomSource;
use requests::ApiError;
use requests::Initializer;

/// A transport that answers every POST with the same canned user document,
/// numbering the tokens it hands out, and records what was asked of it.
struct CountingClient {
    calls: usize,
    urls: Vec<String>,
    bodies: Vec<Option<String>>,
}

impl CountingClient {
    fn new() -> CountingClient {
        CountingClient { calls: 0, urls: Vec::new(), bodies: Vec::new() }
    }
}

impl HttpPost for CountingClient {
    fn post(&mut self, req: &ApiRequest) -> HttpOutcome {
        self.calls += 1;
        self.urls.push(req.url.clone());
        self.bodies.push(req.body.clone());
        let body = format!(
            "{{\"user\":{{\"email\":null,\"username\":null,\"bio\":null,\"image\":null,\
             \"token\":\"tok-{}\"}},\"article\":{{\"slug\":\"slug-{}\",\"title\":null,\
             \"description\":null,\"body\":null,\"createdAt\":null,\"updatedAt\":null,\
             \"tagList\":[],\"author\":{{\"username\":null,\"bio\":null,\"image\":null}},\
             \"favoritedBy\":[],\"favoritesCount\":0,\"favorited\":false}}}}",
            self.calls, self.calls
        );
        HttpOutcome::Response { status: 200, body }
    }
}

/// A transport that always answers with the given status and an empty body.
struct FixedStatusClient {
    status: u16,
    calls: usize,
}

impl HttpPost for FixedStatusClient {
    fn post(&mut self, _req: &ApiRequest) -> HttpOutcome {
        self.calls += 1;
        HttpOutcome::Response { status: self.status, body: String::new() }
    }
}

fn is_alnum(s: &str) -> bool {
    s.chars().all(|c| c.is_ascii_alphanumeric())
}

#[test]
fn registration_returns_each_mocked_token() {
    let mut client = CountingClient::new();
    let mut recorded: Vec<(String, String)> = Vec::new();
    for name in ["alice", "bob", "charles"] {
        let email = format!("{}@mail.com", name);
        let token = registration(&mut client, &email, "password", name).expect("mocked success");
        recorded.push((name.to_owned(), token));
    }
    assert_eq!(
        recorded,
        vec![
            ("alice".to_owned(), "tok-1".to_owned()),
            ("bob".to_owned(), "tok-2".to_owned()),
            ("charles".to_owned(), "tok-3".to_owned()),
        ]
    );
    assert_eq!(client.urls[0], "http://localhost:3000/api/users");
    assert_eq!(
        client.bodies[0].as_deref(),
        Some("{\"user\":{\"username\":\"alice\",\"email\":\"alice@mail.com\",\"password\":\"password\"}}")
    );
}

#[test]
fn generate_users_yields_at_most_n_plus_one_distinct_accounts() {
    let mut client = CountingClient::new();
    let mut rs = RandomSource::from_seed(7);
    let mut init = Initializer::new();
    init.generate_users(&mut client, &mut rs, 5).expect("mocked success");
    let users = &init.users_tokens;
    assert!(users.len() <= 6);
    assert_eq!(users[0].0, "readyset");
    assert_eq!(users[0].1.email, "ready@set.io");
    for i in 0..users.len() {
        for j in 0..i {
            assert_ne!(users[i].0, users[j].0, "duplicate username within one run");
        }
    }
    for (name, auth) in users.iter().skip(1) {
        assert!(name.len() >= 8 && name.len() <= 16);
        assert!(is_alnum(name));
        assert_eq!(auth.email, format!("{}@mail.com", name));
        assert_eq!(auth.password, "password");
        assert!(auth.current_token.starts_with("tok-"));
    }
}

#[test]
fn generate_users_propagates_the_first_failure() {
    let mut client = FixedStatusClient { status: 422, calls: 0 };
    let mut rs = RandomSource::from_seed(7);
    let mut init = Initializer::new();
    let r = init.generate_users(&mut client, &mut rs, 5);
    assert_eq!(r, Err(ApiError::RequestFailed));
    assert_eq!(client.calls, 1, "a failed registration must not be retried");
    assert!(init.users_tokens.is_empty());
}

#[test]
fn generate_tags_yields_exactly_n_short_alnum_tags() {
    let mut rs = RandomSource::from_seed(11);
    let mut init = Initializer::new();
    init.generate_tags(&mut rs, 10).expect("tag generation cannot fail");
    assert_eq!(init.tags.len(), 10);
    for t in &init.tags {
        assert!(t.len() >= 5 && t.len() <= 10, "tag length out of [5, 10]: {}", t);
        assert!(is_alnum(t), "tag not alphanumeric: {}", t);
    }
}

#[test]
fn generate_articles_creates_one_slug_per_article() {
    let mut client = CountingClient::new();
    let mut rs = RandomSource::from_seed(3);
    let mut init = Initializer::new();
    init.generate_users(&mut client, &mut rs, 4).expect("mocked success");
    init.generate_tags(&mut rs, 6).expect("tag generation cannot fail");
    let calls_before = client.calls;
    init.generate_articles(&mut client, &mut rs).expect("mocked success");
    assert_eq!(init.articles.len(), 10);
    assert_eq!(client.calls, calls_before + 10);
    for (i, slug) in init.articles.iter().enumerate() {
        assert_eq!(*slug, format!("slug-{}", calls_before + i + 1));
    }
    for url in client.urls.iter().skip(calls_before) {
        assert_eq!(url, "http://localhost:3000/api/articles");
    }
    // each article body carries exactly three tags, all drawn from the run's list
    for body in client.bodies.iter().skip(calls_before) {
        let body = body.as_ref().expect("article creation carries a body");
        let tags_part = body.split("\"tagList\":[").nth(1).expect("tag list present");
        let tags_part = tags_part.split(']').next().expect("tag list closed");
        let picked: Vec<&str> = tags_part.split(',').collect();
        assert_eq!(picked.len(), 3);
        for t in picked {
            let t = t.trim_matches('"');
            assert!(init.tags.iter().any(|tag| tag == t), "tag {} not from the run", t);
        }
    }
}

#[test]
fn generate_articles_fails_on_empty_tag_or_user_list() {
    let mut client = CountingClient::new();
    let mut rs = RandomSource::from_seed(5);

    // users present, no tags
    let mut init = Initializer::new();
    init.generate_users(&mut client, &mut rs, 2).expect("mocked success");
    let calls_before: usize = client.calls;
    assert_eq!(init.generate_articles(&mut client, &mut rs), Err(ApiError::RequestFailed));
    assert_eq!(client.calls, calls_before, "an empty tag list must make no request");
    assert!(init.articles.is_empty());

    // tags present, no users
    let mut init = Initializer::new();
    init.generate_tags(&mut rs, 3).expect("tag generation cannot fail");
    assert_eq!(init.generate_articles(&mut client, &mut rs), Err(ApiError::RequestFailed));
    assert_eq!(client.calls, calls_before, "an empty user list must make no request");
    assert!(init.articles.is_empty());
}

#[test]
fn favoriting_and_following_succeed_with_nothing_to_do() {
    let mut client = CountingClient::new();
    let mut rs = RandomSource::from_seed(9);
    let mut init = Initializer::new();
    // only the privileged account, no articles
    init.generate_users(&mut client, &mut rs, 0).expect("mocked success");
    assert_eq!(init.users_tokens.len(), 1);
    let calls_before: usize = client.calls;
    assert_eq!(init.favorite_articles(&mut client), Ok(()));
    assert_eq!(init.follow_users(&mut client), Ok(()));
    assert_eq!(client.calls, calls_before, "nothing to favorite or follow, so no request");
}

#[test]
fn seed_runs_all_stages_and_stops_on_first_failure() {
    let mut client = CountingClient::new();
    let mut rs = RandomSource::from_seed(21);
    let mut init = Initializer::new();
    init.seed(&mut client, &mut rs).expect("mocked success");
    assert!(init.users_tokens.len() >= 1 && init.users_tokens.len() <= 11);
    assert_eq!(init.tags.len(), 10);
    assert_eq!(init.articles.len(), 10);
    // favorites: one per article; follows: one per non-privileged user
    let registrations = init.users_tokens.len();
    let expected = registrations + 10 + 10 + (registrations - 1);
    assert_eq!(client.calls, expected);
    let favorite_calls = client
        .urls
        .iter()
        .filter(|u| u.starts_with("http://localhost:3000/api/articles/") && u.ends_with("/favorite"))
        .count();
    assert_eq!(favorite_calls, 10);
    let follow_calls = client
        .urls
        .iter()
        .filter(|u| u.starts_with("http://localhost:3000/api/profiles/") && u.ends_with("/follow"))
        .count();
    assert_eq!(follow_calls, registrations - 1);

    let mut failing = FixedStatusClient { status: 500, calls: 0 };
    let mut init2 = Initializer::new();
    let r = init2.seed(&mut failing, &mut rs);
    assert_eq!(r, Err(ApiError::RequestFailed));
    assert_eq!(failing.calls, 1, "the run must abort on the first failure");
}

#[test]
fn favorite_article_propagates_non_success_and_does_not_retry() {
    let mut client = FixedStatusClient { status: 404, calls: 0 };
    let r = favorite_article(&mut client, "tok-1", "some-slug");
    assert_eq!(r, Err(ApiError::RequestFailed));
    assert_eq!(client.calls, 1);
}

#[test]
fn zipf_indices_stay_in_range_and_favor_early_items() {
    let mut rs = RandomSource::from_seed(42);
    #[allow(deprecated)]
    let d = zipf::ZipfDistribution::new(7, 1.05).unwrap();
    let mut counts = [0usize; 7];
    for _ in 0..20000 {
        let i = zipf_index(&d, &mut rs);
        assert!(i < 7);
        counts[i] += 1;
    }
    assert!(
        counts[0] > counts[6],
        "earliest item must dominate: {:?}",
        counts
    );
    assert!(counts[0] > counts[3], "popularity must skew to index 0: {:?}", counts);
}

#[test]
fn request_builders_produce_exact_urls_and_bodies() {
    assert_eq!(endpoint_url("users"), "http://localhost:3000/api/users");
    assert_eq!(favorite_url("a-slug"), "http://localhost:3000/api/articles/a-slug/favorite");
    assert_eq!(follow_url("bob"), "http://localhost:3000/api/profiles/bob/follow");
    assert_eq!(
        register_body("a@mail.com", "password", "alice"),
        "{\"user\":{\"username\":\"alice\",\"email\":\"a@mail.com\",\"password\":\"password\"}}"
    );
    assert_eq!(
        login_body("a@mail.com", "pw"),
        "{\"user\":{\"email\":\"a@mail.com\",\"password\":\"pw\"}}"
    );
    let tags = vec!["t1".to_owned(), "t2".to_owned(), "t3".to_owned()];
    assert_eq!(
        article_body("Title", "Desc", "Body", &tags),
        "{\"article\":{\"title\":\"Title\",\"description\":\"Desc\",\"body\":\"Body\",\
         \"tagList\":[\"t1\",\"t2\",\"t3\"]}}"
    );
    let req = register_request("a@mail.com", "password", "alice");
    assert_eq!(req.url, "http://localhost:3000/api/users");
    assert!(req.bearer.is_none());
}

#[test]
fn json_string_values_are_escaped() {
    assert_eq!(
        register_body("a\"b", "c\\d", "e\nf"),
        "{\"user\":{\"username\":\"e\\u000af\",\"email\":\"a\\\"b\",\"password\":\"c\\\\d\"}}"
    );
    let tags = vec!["x\"y".to_owned()];
    let body = article_body("t", "d", "b", &tags);
    assert!(body.contains("\"tagList\":[\"x\\\"y\"]"), "unexpected body: {}", body);
}
