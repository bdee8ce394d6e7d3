use atlas::remote::{
    other_remotes, parse_github_url, parse_repo, try_remote, well_known_remotes, RepoError,
};

#[test]
fn test_parse_repo_valid() {
    let (owner, repo) = parse_repo("octocat/hello-world").unwrap();
    assert_eq!(owner, "octocat");
    assert_eq!(repo, "hello-world");
}

#[test]
fn test_parse_repo_invalid_no_slash() {
    assert!(parse_repo("invalid").is_err());
}

#[test]
fn test_parse_repo_invalid_empty_parts() {
    assert!(parse_repo("/repo").is_err());
    assert!(parse_repo("owner/").is_err());
    assert!(parse_repo("/").is_err());
}

#[test]
fn test_parse_repo_too_many_slashes() {
    assert!(parse_repo("a/b/c").is_err());
}

#[test]
fn test_parse_github_url_ssh() {
    let (owner, repo) = parse_github_url("git@github.com:octocat/hello-world.git").unwrap();
    assert_eq!(owner, "octocat");
    assert_eq!(repo, "hello-world");
}

#[test]
fn test_parse_github_url_ssh_no_suffix() {
    let (owner, repo) = parse_github_url("git@github.com:octocat/hello-world").unwrap();
    assert_eq!(owner, "octocat");
    assert_eq!(repo, "hello-world");
}

#[test]
fn test_parse_github_url_https() {
    let (owner, repo) = parse_github_url("https://github.com/octocat/hello-world.git").unwrap();
    assert_eq!(owner, "octocat");
    assert_eq!(repo, "hello-world");
}

#[test]
fn test_parse_github_url_https_no_suffix() {
    let (owner, repo) = parse_github_url("https://github.com/octocat/hello-world").unwrap();
    assert_eq!(owner, "octocat");
    assert_eq!(repo, "hello-world");
}

#[test]
fn test_parse_github_url_invalid() {
    assert!(parse_github_url("https://gitlab.com/foo/bar").is_err());
    assert!(parse_github_url("not-a-url").is_err());
}

#[test]
fn parse_repo_edge_cases() {
    assert!(parse_repo("").is_err());
    assert!(parse_repo("a//b").is_err());
    assert!(parse_repo("/a/b").is_err());
    assert!(parse_repo("a/b/").is_err());
    let (owner, repo) = parse_repo("a/b").unwrap();
    assert_eq!((owner.as_str(), repo.as_str()), ("a", "b"));
    let (owner, repo) = parse_repo("größe/naïve").unwrap();
    assert_eq!((owner.as_str(), repo.as_str()), ("größe", "naïve"));
}

#[test]
fn parse_repo_error_message() {
    match parse_repo("invalid") {
        Err(error) => {
            assert!(matches!(&error, RepoError::InvalidRepo { input } if input == "invalid"));
            assert_eq!(
                error.message(),
                "Invalid repo format: 'invalid'. Expected 'owner/repo'"
            );
        }
        Ok(_) => panic!("accepted a text without a slash"),
    }
}

#[test]
fn url_errors_tell_the_two_failures_apart() {
    match parse_github_url("https://gitlab.com/foo/bar") {
        Err(error) => {
            assert!(matches!(&error, RepoError::UnknownUrl { .. }));
            assert_eq!(
                error.message(),
                "Could not parse GitHub URL: https://gitlab.com/foo/bar"
            );
        }
        Ok(_) => panic!("accepted another host"),
    }
    match parse_github_url("https://github.com/only-owner.git") {
        Err(error) => {
            assert!(matches!(&error, RepoError::InvalidRepo { input } if input == "only-owner"));
        }
        Ok(_) => panic!("accepted an address without a repository"),
    }
    match parse_github_url("git@github.com:a/b/c") {
        Err(error) => {
            assert!(matches!(&error, RepoError::InvalidRepo { input } if input == "a/b/c"));
        }
        Ok(_) => panic!("accepted three parts"),
    }
}

#[test]
fn url_edge_cases() {
    let (owner, repo) = parse_github_url("git@github.com:o/r.git.git").unwrap();
    assert_eq!((owner.as_str(), repo.as_str()), ("o", "r"));
    let (owner, repo) = parse_github_url("ssh://git@github.com/o/r").unwrap();
    assert_eq!((owner.as_str(), repo.as_str()), ("o", "r"));
    assert!(matches!(
        parse_github_url("https://github.com/github.com/x"),
        Err(RepoError::UnknownUrl { .. })
    ));
    assert!(matches!(
        parse_github_url("https://github.com"),
        Err(RepoError::UnknownUrl { .. })
    ));
    assert!(matches!(parse_github_url(""), Err(RepoError::UnknownUrl { .. })));
    assert!(matches!(
        parse_github_url("git@github.com:.git"),
        Err(RepoError::InvalidRepo { .. })
    ));
    let (owner, repo) = parse_github_url("https://github.com/o/r.gitx").unwrap();
    assert_eq!((owner.as_str(), repo.as_str()), ("o", "r.gitx"));
}

#[test]
fn well_known_remotes_come_first() {
    assert_eq!(well_known_remotes(), vec!["origin", "upstream", "github"]);
}

#[test]
fn other_remotes_are_read_from_the_listing() {
    assert_eq!(other_remotes("origin\nfork\nupstream\nmirror\n"), vec!["fork", "mirror"]);
    assert_eq!(other_remotes("  fork  \r\n\n \ngithub\nlast"), vec!["fork", "last"]);
    assert!(other_remotes("").is_empty());
    assert!(other_remotes("origin\n").is_empty());
    assert_eq!(other_remotes("Origin\norigin2"), vec!["Origin", "origin2"]);
}

#[test]
fn remote_output_is_trimmed_before_it_is_read() {
    let (owner, repo) = try_remote("https://github.com/octocat/hello-world.git\n").unwrap();
    assert_eq!((owner.as_str(), repo.as_str()), ("octocat", "hello-world"));
    let (owner, repo) = try_remote("  git@github.com:o/r  \r\n").unwrap();
    assert_eq!((owner.as_str(), repo.as_str()), ("o", "r"));
    assert!(matches!(try_remote("\n"), Err(RepoError::UnknownUrl { url }) if url.is_empty()));
}
