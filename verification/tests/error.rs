use questionnaire_rs::error::{authorization, Db, Oauth};
use questionnaire_rs::oauth_error::OauthError;

#[test]
fn database_failure_is_an_internal_error() {
    assert_eq!(Db.status_code(), 500);
    assert_eq!(Db.message(), "Db");
    assert_eq!(questionnaire_rs::error::db::Db::FailedTransaction.status_code(), 500);
    assert_eq!(questionnaire_rs::error::db::Db::FailedTransaction.message(), "failed transaction");
}

#[test]
fn bad_request_is_status_400() {
    assert_eq!(Oauth::BadRequest.status_code(), 400);
    assert_eq!(Oauth::BadRequest.message(), "bad request");
    assert_eq!(OauthError::BadRequest.status_code(), 400);
    assert_eq!(OauthError::BadRequest.message(), "bad request");
}

#[test]
fn authorization_header_gives_the_bearer() {
    assert_eq!(authorization(Some(Some(String::from("token abc")))), Ok(String::from("token abc")));
    assert_eq!(authorization(Some(None)), Err(Oauth::BadRequest));
    assert_eq!(authorization(None), Err(Oauth::BadRequest));
}
