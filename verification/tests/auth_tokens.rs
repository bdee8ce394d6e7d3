use atlas::auth::{
    auth_center, auth_strip_ansi_len, get_stored_token, login_choice, mask_token, pasted_token,
    poll_interval_secs, poll_step, resolve_token, LoginChoice, PollStep,
};

fn some(text: &str) -> Option<String> {
    Some(text.to_string())
}

#[test]
fn visible_length_skips_escape_sequences() {
    assert_eq!(auth_strip_ansi_len(""), 0);
    assert_eq!(auth_strip_ansi_len("plain"), 5);
    assert_eq!(auth_strip_ansi_len("\x1b[1mbold\x1b[0m"), 4);
    assert_eq!(auth_strip_ansi_len("\x1b[38;2;190;80;250mAtlas\x1b[0m v1"), 8);
    assert_eq!(auth_strip_ansi_len("\x1b[31"), 0);
    assert_eq!(auth_strip_ansi_len("\x1b\x1b[0mx"), 1);
    assert_eq!(auth_strip_ansi_len("a\x1bZb"), 2);
    assert_eq!(auth_strip_ansi_len("██╗ ◆"), 5);
}

#[test]
fn centering_pads_by_half_the_free_columns() {
    assert_eq!(auth_center("abcd", 10), "   abcd");
    assert_eq!(auth_center("abcd", 11), "   abcd");
    assert_eq!(auth_center("abcd", 12), "    abcd");
    assert_eq!(auth_center("abcd", 5), "abcd");
    assert_eq!(auth_center("abcd", 4), "abcd");
    assert_eq!(auth_center("abcd", 3), "abcd");
    assert_eq!(auth_center("abcd", 0), "abcd");
    assert_eq!(auth_center("", 4), "  ");
    assert_eq!(auth_center("\x1b[1mab\x1b[0m", 6), "  \x1b[1mab\x1b[0m");
}

#[test]
fn tokens_are_masked() {
    assert_eq!(mask_token(""), "****");
    assert_eq!(mask_token("12345678"), "****");
    assert_eq!(mask_token("123456789"), "1234...6789");
    assert_eq!(mask_token("first four and last four bytes"), "firs...ytes");
    assert_eq!(mask_token("ééééé"), "éé...éé");
}

#[test]
fn command_line_token_wins() {
    assert_eq!(resolve_token(some("cli"), some("env"), some("gh"), some("stored")), some("cli"));
    assert_eq!(resolve_token(some(""), some("env"), some("gh"), some("stored")), some(""));
}

#[test]
fn environment_comes_before_the_keychain() {
    assert_eq!(resolve_token(None, some("env"), some("gh"), some("stored")), some("env"));
    assert_eq!(resolve_token(None, some(""), some("gh"), some("stored")), some("gh"));
    assert_eq!(resolve_token(None, None, some("gh"), some("stored")), some("gh"));
    assert_eq!(resolve_token(None, some(""), some(""), some("stored")), some("stored"));
    assert_eq!(resolve_token(None, None, None, some("stored")), some("stored"));
}

#[test]
fn no_token_anywhere_means_sign_in() {
    assert_eq!(resolve_token(None, None, None, None), None);
    assert_eq!(resolve_token(None, some(""), some(""), some("")), None);
}

#[test]
fn empty_keychain_entry_is_no_token() {
    assert_eq!(get_stored_token(some("tok")), some("tok"));
    assert_eq!(get_stored_token(some("")), None);
    assert_eq!(get_stored_token(None), None);
}

#[test]
fn poll_answers() {
    assert!(matches!(
        poll_step(some("tok"), some("slow_down"), None),
        PollStep::Authorized { token } if token == "tok"
    ));
    assert!(matches!(poll_step(None, some("authorization_pending"), None), PollStep::Pending));
    assert!(matches!(poll_step(None, some("slow_down"), None), PollStep::SlowDown));
    assert!(matches!(poll_step(None, some("expired_token"), None), PollStep::Expired));
    assert!(matches!(poll_step(None, some("access_denied"), None), PollStep::Denied));
    assert!(matches!(poll_step(None, None, some("ignored")), PollStep::Silent));
    match poll_step(None, some("unsupported_grant_type"), some("wrong grant")) {
        PollStep::Rejected { error, description } => {
            assert_eq!(error, "unsupported_grant_type");
            assert_eq!(description, "wrong grant");
        }
        other => panic!("expected a rejection, got {:?}", other),
    }
    match poll_step(None, some("odd"), None) {
        PollStep::Rejected { error, description } => {
            assert_eq!(error, "odd");
            assert_eq!(description, "");
        }
        other => panic!("expected a rejection, got {:?}", other),
    }
}

#[test]
fn poll_interval_is_five_seconds_at_least() {
    assert_eq!(poll_interval_secs(0), 5);
    assert_eq!(poll_interval_secs(4), 5);
    assert_eq!(poll_interval_secs(5), 5);
    assert_eq!(poll_interval_secs(6), 6);
    assert_eq!(poll_interval_secs(u64::MAX), u64::MAX);
}

#[test]
fn menu_answers() {
    assert_eq!(login_choice("1"), LoginChoice::Browser);
    assert_eq!(login_choice("1\n"), LoginChoice::Browser);
    assert_eq!(login_choice("  2 \r\n"), LoginChoice::Paste);
    assert_eq!(login_choice(""), LoginChoice::Invalid);
    assert_eq!(login_choice("\n"), LoginChoice::Invalid);
    assert_eq!(login_choice("3"), LoginChoice::Invalid);
    assert_eq!(login_choice("12"), LoginChoice::Invalid);
    assert_eq!(login_choice("1 2"), LoginChoice::Invalid);
    assert_eq!(login_choice("one"), LoginChoice::Invalid);
}

#[test]
fn pasted_tokens_lose_the_space_around_them() {
    assert_eq!(pasted_token("pasted-text\n"), some("pasted-text"));
    assert_eq!(pasted_token("  pasted text \r\n"), some("pasted text"));
    assert_eq!(pasted_token("\n"), None);
    assert_eq!(pasted_token(""), None);
    assert_eq!(pasted_token(" \t "), None);
}
