use schedule_mirror::key::DateKey;
use schedule_mirror::upstream::{url_for, FetchOutcome, STATUS_NOT_FOUND, STATUS_OK};

#[test]
fn no_answer_is_unreachable() {
    assert_eq!(FetchOutcome::classify(None, vec![]), FetchOutcome::UpstreamUnreachable);
    assert_eq!(FetchOutcome::classify(None, vec![1, 2]), FetchOutcome::UpstreamUnreachable);
}

#[test]
fn status_200_is_success_with_the_body() {
    assert_eq!(STATUS_OK, 200);
    assert_eq!(
        FetchOutcome::classify(Some(200), vec![37, 80, 68, 70]),
        FetchOutcome::Success(vec![37, 80, 68, 70])
    );
    assert_eq!(FetchOutcome::classify(Some(200), vec![]), FetchOutcome::Success(vec![]));
}

#[test]
fn status_404_is_not_yet_published() {
    assert_eq!(STATUS_NOT_FOUND, 404);
    assert_eq!(FetchOutcome::classify(Some(404), vec![9]), FetchOutcome::NotYetPublished);
}

#[test]
fn any_other_status_is_an_error_with_its_code() {
    for code in [0u16, 100, 201, 204, 301, 403, 405, 418, 500, 503, 999, u16::MAX] {
        assert_eq!(FetchOutcome::classify(Some(code), vec![1]), FetchOutcome::UpstreamError(code));
    }
}

#[test]
fn url_is_base_then_file_name() {
    let key = DateKey::from_components(5, 3, 2024).unwrap();
    assert_eq!(
        url_for("https://zastepstwa.zschie.pl/pliki/", &key),
        "https://zastepstwa.zschie.pl/pliki/05.03.2024.pdf"
    );
    assert_eq!(url_for("", &key), "05.03.2024.pdf");
}
