use repo_health::github::GitHubError;

#[test]
fn test_github_error_display() {
    let auth_error = GitHubError::AuthenticationFailed;
    assert_eq!(auth_error.message(), "GitHub authentication failed");

    let rate_limit_error = GitHubError::RateLimitExceeded;
    assert_eq!(rate_limit_error.message(), "GitHub API rate limit exceeded");
}

#[test]
fn test_error_messages_with_payload() {
    assert_eq!(
        GitHubError::NetworkError("timed out".to_string()).message(),
        "Network error: timed out"
    );
    assert_eq!(
        GitHubError::RepositoryNotFound("me/tool".to_string()).message(),
        "Repository not found: me/tool"
    );
    assert_eq!(
        GitHubError::ApiError("boom".to_string()).message(),
        "GitHub API error: boom"
    );
}

#[test]
fn test_api_message_classification() {
    assert!(matches!(
        GitHubError::from_api_message("API rate limit exceeded for user".to_string()),
        GitHubError::RateLimitExceeded
    ));
    assert!(matches!(
        GitHubError::from_api_message("Bad credentials: authentication required".to_string()),
        GitHubError::AuthenticationFailed
    ));
    assert!(matches!(
        GitHubError::from_api_message("HTTP 401 Unauthorized".to_string()),
        GitHubError::AuthenticationFailed
    ));
    match GitHubError::from_api_message("Validation failed".to_string()) {
        GitHubError::ApiError(m) => assert_eq!(m, "Validation failed"),
        _ => panic!("expected a general provider error"),
    }
    // Rate limiting wins over an authentication mention.
    assert!(matches!(
        GitHubError::from_api_message("rate limit hit during authentication".to_string()),
        GitHubError::RateLimitExceeded
    ));
}
