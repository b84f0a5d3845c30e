use url_shortener::reply::{resolve_reply, short_url, shorten_reply, Reply, Status};
use url_shortener::resolve::{resolve_at, ResolveError};
use url_shortener::shorten::{shorten_at, ShortenError};
use url_shortener::store::LinkStore;

#[test]
fn status_codes() {
    assert_eq!(Status::Success.code(), 200);
    assert_eq!(Status::Found.code(), 302);
    assert_eq!(Status::BadRequest.code(), 400);
    assert_eq!(Status::NotFound.code(), 404);
    assert_eq!(Status::Gone.code(), 410);
    assert_eq!(Status::InternalServerError.code(), 500);
    assert_eq!(Status::ServiceUnavailable.code(), 503);
}

#[test]
fn short_url_puts_the_code_behind_the_base() {
    assert_eq!(short_url("http://localhost:8081", "Ab3dE9"), "http://localhost:8081/Ab3dE9");
    assert_eq!(short_url("", "Ab3dE9"), "/Ab3dE9");
    assert_eq!(short_url("https://sho.rt", ""), "https://sho.rt/");
}

#[test]
fn stored_link_is_answered_with_its_short_url() {
    assert_eq!(
        shorten_reply("http://localhost:8081", Ok("Ab3dE9".to_string())),
        Reply::ShortUrl("http://localhost:8081/Ab3dE9".to_string())
    );
}

#[test]
fn failed_shorten_requests_are_answered_each_in_its_way() {
    assert_eq!(
        shorten_reply("http://localhost:8081", Err(ShortenError::InvalidRequest)),
        Reply::Failure(Status::BadRequest, "Invalid request")
    );
    assert_eq!(
        shorten_reply("http://localhost:8081", Err(ShortenError::GenerationExhausted)),
        Reply::Failure(Status::ServiceUnavailable, "No free short code found")
    );
    assert_eq!(
        shorten_reply("http://localhost:8081", Err(ShortenError::StorageFailure)),
        Reply::Failure(Status::InternalServerError, "Error storing URL")
    );
}

#[test]
fn resolved_code_is_answered_with_a_redirect() {
    assert_eq!(
        resolve_reply(Ok("https://example.com".to_string())),
        Reply::Redirect("https://example.com".to_string())
    );
}

#[test]
fn failed_resolutions_are_answered_each_in_its_way() {
    assert_eq!(
        resolve_reply(Err(ResolveError::NotFound)),
        Reply::Failure(Status::NotFound, "URL not found")
    );
    assert_eq!(
        resolve_reply(Err(ResolveError::Expired)),
        Reply::Failure(Status::Gone, "This short URL has expired!")
    );
    assert_eq!(
        resolve_reply(Err(ResolveError::StorageFailure)),
        Reply::Failure(Status::InternalServerError, "Error reading URL")
    );
}

#[test]
fn request_answers_from_shorten_to_reclamation() {
    let base = "http://localhost:8081";
    let now = 1_700_000_000;
    let mut store = LinkStore::new();
    let outcome = shorten_at(&mut store, "https://example.com", Some(60), now);
    let code = outcome.clone().unwrap();
    assert_eq!(shorten_reply(base, outcome), Reply::ShortUrl(format!("{}/{}", base, code)));
    assert_eq!(
        resolve_reply(resolve_at(&store, &code, now + 59)),
        Reply::Redirect("https://example.com".to_string())
    );
    assert_eq!(
        resolve_reply(resolve_at(&store, &code, now + 60)),
        Reply::Failure(Status::Gone, "This short URL has expired!")
    );
    assert_eq!(store.delete_expired(now + 60), 1);
    assert_eq!(
        resolve_reply(resolve_at(&store, &code, now + 60)),
        Reply::Failure(Status::NotFound, "URL not found")
    );
    assert_eq!(
        shorten_reply(base, shorten_at(&mut store, "", None, now)),
        Reply::Failure(Status::BadRequest, "Invalid request")
    );
}
