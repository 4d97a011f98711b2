use questionnaire_rs::middleware::GitHubUserId;
use questionnaire_rs::session::is_logged_in;
use questionnaire_rs::GH_USER_SESSION_ID_KEY;

#[test]
fn login_state_bodies() {
    assert_eq!(is_logged_in(true), r#"{"result": true}"#);
    assert_eq!(is_logged_in(false), r#"{"result": false}"#);
}

#[test]
fn default_github_user_is_nobody() {
    assert_eq!(GitHubUserId::default().id, -1);
}

#[test]
fn session_key_name() {
    assert_eq!(GH_USER_SESSION_ID_KEY, "gh_user_id");
}
