use focus_router::repo_uri::{arg_to_parts, is_known_repository, known_repos, to_repository_uri};

#[test]
fn test_getting_path_from_argument_only_repo_name() {
    let user = "user";
    let result = to_repository_uri("repo-name", user);

    assert_eq!(
        result,
        format!("git@{}:{}/{}", "github.com", user, "repo-name")
    );
}

#[test]
fn test_getting_path_from_argument_vendor_slsh_repo_name() {
    let result = to_repository_uri("someone/repo-name", "user");

    assert_eq!(
        result,
        format!("git@{}:{}/{}", "github.com", "someone", "repo-name")
    );
}

#[test]
fn test_getting_path_from_argument_domain_vendor_slsh_repo_name() {
    let result = to_repository_uri("gitlab.com/someone/repo-name", "user");

    assert_eq!(
        result,
        format!("git@{}:{}/{}", "gitlab.com", "someone", "repo-name")
    );
}

#[test]
fn test_getting_path_from_argument_full_uri_with_schema() {
    let result = to_repository_uri("https://gitlab.com/someone/repo-name", "user");

    assert_eq!(
        result,
        format!("git@{}:{}/{}", "gitlab.com", "someone", "repo-name")
    );
}

#[test]
fn test_getting_path_from_argument_full_uri_without_schema_with_user() {
    let result = to_repository_uri("me@mylab.com/someone/repo-name", "user");

    assert_eq!(result, "me@mylab.com/someone/repo-name");
}

#[test]
fn test_getting_folder_from_personal_git_url_with_no_vendor() {
    let result = to_repository_uri("https://my.git.com/repo-name", "user");

    assert_eq!(result, "https://my.git.com/repo-name");
}

#[test]
fn known_repositories_are_the_three_hosting_domains() {
    assert_eq!(known_repos(), vec!["github.com", "gitlab.com", "bitbucket.com"]);
}

#[test]
fn known_repository_check_reads_schemes_and_users() {
    assert!(is_known_repository("github.com/a/b"));
    assert!(is_known_repository("https://gitlab.com/a/b"));
    assert!(is_known_repository("http://bitbucket.com/a/b"));
    assert!(is_known_repository("repo-name"), "a bare name defaults to known");
    assert!(!is_known_repository("https://my.git.com/repo-name"));
    assert!(!is_known_repository("me@mylab.com/a/b"));
}

#[test]
fn arguments_break_into_domain_vendor_and_name() {
    let (domain, vendor, repo) = arg_to_parts("gitlab.com/someone/repo-name", "user");
    assert_eq!((domain.as_str(), vendor.as_str(), repo.as_str()),
        ("gitlab.com", "someone", "repo-name"));

    let (domain, vendor, repo) = arg_to_parts("repo-name", "someone");
    assert_eq!((domain.as_str(), vendor.as_str(), repo.as_str()),
        ("github.com", "someone", "repo-name"));

    let (domain, vendor, repo) = arg_to_parts("https://host.com:4443/v/r", "user");
    assert_eq!((domain.as_str(), vendor.as_str(), repo.as_str()), ("4443", "v", "r"));
}
