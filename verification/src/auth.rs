//! What the sign-in commands compute: which token is used, how one is shown,
//! how banner lines are centred, and how a device authorization goes on.
//!
//! Reading the keychain, the environment and the terminal is the caller's
//! part; the functions here take what was read.

use vstd::prelude::*;
use vstd::string::{StringExecFns, StringSliceAdditionalSpecFns};
use vstd::utf8::{
    decode_utf8, encode_utf8, encode_utf8_decode_utf8, encode_utf8_valid_utf8, is_char_boundary,
};
use crate::models::opt_text;
use crate::text::{chars_of, owned, push_char, spells, string_of, trim_bounds, trimmed};

verus! {

/// The character that starts an escape sequence.
pub const ESCAPE: char = '\x1b';

/// Seconds between two polls of a device authorization, at the least.
pub const MIN_POLL_INTERVAL_SECS: u64 = 5;

/// Seconds of extra wait when the service asks to slow down.
pub const SLOW_DOWN_SECS: u64 = 5;

/// Whether `c` is an ASCII letter.
pub open spec fn is_ascii_letter(c: char) -> bool {
    ('a' <= c && c <= 'z') || ('A' <= c && c <= 'Z')
}

/// The number of characters of `s` that a terminal shows, given whether `s`
/// starts inside an escape sequence. An escape sequence runs from an escape
/// character to the next ASCII letter, both included, and shows nothing.
pub open spec fn visible_len_from(s: Seq<char>, in_escape: bool) -> nat
    decreases s.len(),
{
    if s.len() == 0 {
        0
    } else if in_escape {
        visible_len_from(s.drop_first(), !is_ascii_letter(s[0]))
    } else if s[0] == ESCAPE {
        visible_len_from(s.drop_first(), true)
    } else {
        1 + visible_len_from(s.drop_first(), false)
    }
}

/// The number of characters of `s` that a terminal shows.
pub open spec fn visible_len(s: Seq<char>) -> nat {
    visible_len_from(s, false)
}

/// `text` moved to the middle of a line of `width` columns by spaces in
/// front of it; `text` itself where it fills the line.
pub open spec fn centered(text: Seq<char>, width: nat) -> Seq<char> {
    if visible_len(text) >= width {
        text
    } else {
        Seq::new(((width - visible_len(text)) / 2) as nat, |i: int| ' ') + text
    }
}

/// The number of characters of `s` that a terminal shows: all but those of
/// its escape sequences.
pub fn auth_strip_ansi_len(s: &str) -> (len: usize)
    ensures
        len == visible_len(s@),
{
    let chars = chars_of(s);
    let mut len: usize = 0;
    let mut in_escape = false;
    let mut i: usize = 0;
    proof {
        assert(chars@.subrange(0, chars.len() as int) == chars@);
    }
    while i < chars.len()
        invariant
            i <= chars.len(),
            len <= i,
            visible_len(chars@) == len + visible_len_from(
                chars@.subrange(i as int, chars.len() as int),
                in_escape,
            ),
        decreases chars.len() - i,
    {
        let c = chars[i];
        proof {
            let rest = chars@.subrange(i as int, chars.len() as int);
            assert(rest[0] == c);
            assert(rest.drop_first() == chars@.subrange(i + 1, chars.len() as int));
        }
        if in_escape {
            if ('a' <= c && c <= 'z') || ('A' <= c && c <= 'Z') {
                in_escape = false;
            }
        } else if c == ESCAPE {
            in_escape = true;
        } else {
            len += 1;
        }
        i += 1;
    }
    len
}

/// Centres `text` in a line of `width` columns.
pub fn auth_center(text: &str, width: usize) -> (line: String)
    ensures
        line@ == centered(text@, width as nat),
{
    let shown = auth_strip_ansi_len(text);
    let mut line = String::new();
    if shown < width {
        let pad = (width - shown) / 2;
        let mut i: usize = 0;
        while i < pad
            invariant
                i <= pad,
                line@ == Seq::new(i as nat, |k: int| ' '),
            decreases pad - i,
        {
            push_char(&mut line, ' ');
            proof {
                assert(Seq::new(i as nat, |k: int| ' ').push(' ') =~= Seq::new(
                    (i + 1) as nat,
                    |k: int| ' ',
                ));
            }
            i += 1;
        }
    }
    line.append(text);
    line
}

/// A token as it may be shown: its first and last four bytes around three
/// dots, or four stars for a token of eight bytes or fewer.
pub open spec fn masked(bytes: Seq<u8>) -> Seq<char> {
    if bytes.len() <= 8 {
        "****"@
    } else {
        decode_utf8(bytes.subrange(0, 4)) + "..."@ + decode_utf8(
            bytes.subrange(bytes.len() - 4, bytes.len() as int),
        )
    }
}

/// Masks a token for display.
pub fn mask_token(token: &str) -> (shown: String)
    requires
        token.spec_bytes().len() > 8 ==> is_char_boundary(token.spec_bytes(), 4)
            && is_char_boundary(token.spec_bytes(), token.spec_bytes().len() - 4),
    ensures
        shown@ == masked(token.spec_bytes()),
{
    let n = token.as_bytes().len();
    if n <= 8 {
        owned("****")
    } else {
        let (head, _) = token.split_at(4);
        let (_, tail) = token.split_at(n - 4);
        let mut shown = owned(head);
        shown.append("...");
        shown.append(tail);
        proof {
            encode_utf8_decode_utf8(head@);
            encode_utf8_decode_utf8(tail@);
        }
        shown
    }
}

/// A token that is set: `None` for none and for an empty one.
pub open spec fn set_token(token: Option<Seq<char>>) -> Option<Seq<char>> {
    match token {
        Some(t) => if t.len() > 0 {
            Some(t)
        } else {
            None
        },
        None => None,
    }
}

/// The token to use: the one given on the command line, whatever it is; else
/// the first that is set among the two environment variables and the
/// keychain, in this order.
pub open spec fn resolved(
    cli: Option<Seq<char>>,
    github_token: Option<Seq<char>>,
    gh_token: Option<Seq<char>>,
    stored: Option<Seq<char>>,
) -> Option<Seq<char>> {
    if cli is Some {
        cli
    } else if set_token(github_token) is Some {
        github_token
    } else if set_token(gh_token) is Some {
        gh_token
    } else {
        set_token(stored)
    }
}

fn is_set(token: &Option<String>) -> (set: bool)
    ensures
        set == set_token(opt_text(*token)) is Some,
{
    match token {
        Some(t) => !t.as_str().is_empty(),
        None => false,
    }
}

/// The token read from the keychain, where it is one: an empty entry counts
/// as none.
pub fn get_stored_token(entry: Option<String>) -> (token: Option<String>)
    ensures
        opt_text(token) == set_token(opt_text(entry)),
{
    if is_set(&entry) {
        entry
    } else {
        None
    }
}

/// Picks the token to use among the four places a token may come from.
/// `None` says that the user has to sign in.
pub fn resolve_token(
    cli_token: Option<String>,
    github_token: Option<String>,
    gh_token: Option<String>,
    stored: Option<String>,
) -> (token: Option<String>)
    ensures
        opt_text(token) == resolved(
            opt_text(cli_token),
            opt_text(github_token),
            opt_text(gh_token),
            opt_text(stored),
        ),
{
    if cli_token.is_some() {
        cli_token
    } else if is_set(&github_token) {
        github_token
    } else if is_set(&gh_token) {
        gh_token
    } else {
        get_stored_token(stored)
    }
}

/// How a device authorization goes on after one poll.
#[derive(Debug)]
pub enum PollStep {
    /// The user has authorized: here is the token.
    Authorized { token: String },
    /// Not yet; poll again after the interval.
    Pending,
    /// Polling too fast; wait [`SLOW_DOWN_SECS`] more, then poll again.
    SlowDown,
    /// The device code is no longer valid.
    Expired,
    /// The user refused.
    Denied,
    /// The service reported another error.
    Rejected { error: String, description: String },
    /// The answer said nothing; poll again after the interval.
    Silent,
}

/// A [`PollStep`] as plain values.
pub enum PollModel {
    Authorized { token: Seq<char> },
    Pending,
    SlowDown,
    Expired,
    Denied,
    Rejected { error: Seq<char>, description: Seq<char> },
    Silent,
}

impl View for PollStep {
    type V = PollModel;

    open spec fn view(&self) -> PollModel {
        match *self {
            PollStep::Authorized { token } => PollModel::Authorized { token: token@ },
            PollStep::Pending => PollModel::Pending,
            PollStep::SlowDown => PollModel::SlowDown,
            PollStep::Expired => PollModel::Expired,
            PollStep::Denied => PollModel::Denied,
            PollStep::Rejected { error, description } => PollModel::Rejected {
                error: error@,
                description: description@,
            },
            PollStep::Silent => PollModel::Silent,
        }
    }
}

/// What an answer to a poll means. A token settles it; else the error word
/// decides.
pub open spec fn poll_meaning(
    access_token: Option<Seq<char>>,
    error: Option<Seq<char>>,
    description: Option<Seq<char>>,
) -> PollModel {
    match access_token {
        Some(token) => PollModel::Authorized { token },
        None => match error {
            Some(word) => if word == "authorization_pending"@ {
                PollModel::Pending
            } else if word == "slow_down"@ {
                PollModel::SlowDown
            } else if word == "expired_token"@ {
                PollModel::Expired
            } else if word == "access_denied"@ {
                PollModel::Denied
            } else {
                PollModel::Rejected {
                    error: word,
                    description: match description {
                        Some(d) => d,
                        None => Seq::empty(),
                    },
                }
            },
            None => PollModel::Silent,
        },
    }
}

/// Reads the answer to one poll of a device authorization.
pub fn poll_step(
    access_token: Option<String>,
    error: Option<String>,
    description: Option<String>,
) -> (step: PollStep)
    ensures
        step@ == poll_meaning(opt_text(access_token), opt_text(error), opt_text(description)),
{
    match access_token {
        Some(token) => PollStep::Authorized { token },
        None => match error {
            Some(word) => {
                let w = chars_of(word.as_str());
                if spells(&w, "authorization_pending") {
                    PollStep::Pending
                } else if spells(&w, "slow_down") {
                    PollStep::SlowDown
                } else if spells(&w, "expired_token") {
                    PollStep::Expired
                } else if spells(&w, "access_denied") {
                    PollStep::Denied
                } else {
                    PollStep::Rejected {
                        error: word,
                        description: match description {
                            Some(d) => d,
                            None => String::new(),
                        },
                    }
                }
            },
            None => PollStep::Silent,
        },
    }
}

/// Seconds between two polls, given the interval the service asks for.
pub fn poll_interval_secs(asked: u64) -> (secs: u64)
    ensures
        secs == (if asked >= MIN_POLL_INTERVAL_SECS {
            asked
        } else {
            MIN_POLL_INTERVAL_SECS
        }),
{
    if asked >= MIN_POLL_INTERVAL_SECS {
        asked
    } else {
        MIN_POLL_INTERVAL_SECS
    }
}

/// How the user wants to sign in.
#[derive(Clone, Copy, Debug, PartialEq, Eq, Structural)]
pub enum LoginChoice {
    /// Create a token in the browser, then paste it.
    Browser,
    /// Paste a token that exists.
    Paste,
    /// Anything but one of the two.
    Invalid,
}

/// The choice that an answer to the sign-in menu stands for.
pub open spec fn choice_of(answer: Seq<char>) -> LoginChoice {
    if trimmed(answer) == "1"@ {
        LoginChoice::Browser
    } else if trimmed(answer) == "2"@ {
        LoginChoice::Paste
    } else {
        LoginChoice::Invalid
    }
}

/// Reads the answer to the sign-in menu: `1` or `2`, white space around it
/// aside.
pub fn login_choice(answer: &str) -> (choice: LoginChoice)
    ensures
        choice == choice_of(answer@),
{
    let chars = chars_of(answer);
    let (start, end) = trim_bounds(&chars);
    if end - start != 1 {
        proof {
            reveal_strlit("1");
            reveal_strlit("2");
        }
        return LoginChoice::Invalid;
    }
    proof {
        reveal_strlit("1");
        reveal_strlit("2");
        let inner = chars@.subrange(start as int, end as int);
        assert(inner[0] == chars@[start as int]);
        assert("1"@ =~= seq!['1']);
        assert("2"@ =~= seq!['2']);
        assert(inner =~= seq![chars@[start as int]]);
    }
    if chars[start] == '1' {
        LoginChoice::Browser
    } else if chars[start] == '2' {
        LoginChoice::Paste
    } else {
        LoginChoice::Invalid
    }
}

/// The token in a line that the user pasted: the line without the white
/// space around it; `None` where nothing is left.
pub fn pasted_token(line: &str) -> (token: Option<String>)
    ensures
        match token {
            Some(t) => t@ == trimmed(line@) && t@.len() > 0,
            None => trimmed(line@).len() == 0,
        },
{
    let chars = chars_of(line);
    let (start, end) = trim_bounds(&chars);
    if start == end {
        None
    } else {
        Some(string_of(&chars, start, end))
    }
}

} // verus!
