//! Small text helpers: the split of a command's payload, a participant's
//! display line, and the two tests that a title is put to.

use crate::constants::{ISSUE_ID_REGEX, URL_REGEX};
use vstd::prelude::*;
use vstd::string::*;

verus! {

/// Whether `k` is where the first line of `s` ends: at its first line feed,
/// or at its end where it has none.
pub open spec fn is_title_end(s: Seq<char>, k: int) -> bool {
    &&& 0 <= k <= s.len()
    &&& forall|j: int| 0 <= j < k ==> s[j] != '\n'
    &&& k < s.len() ==> s[k] == '\n'
}

/// The length of the first line of `s`.
pub open spec fn title_len(s: Seq<char>) -> int
    decreases s.len(),
{
    if s.len() == 0 || s[0] == '\n' {
        0
    } else {
        1 + title_len(s.subrange(1, s.len() as int))
    }
}

/// The first line of a payload.
pub open spec fn title_of(s: Seq<char>) -> Seq<char> {
    s.subrange(0, title_len(s))
}

/// What follows the first line feed of a payload; empty where it has none.
pub open spec fn description_of(s: Seq<char>) -> Seq<char> {
    if title_len(s) < s.len() {
        s.subrange(title_len(s) + 1, s.len() as int)
    } else {
        Seq::empty()
    }
}

/// The first line ends at the one place that `is_title_end` accepts.
pub proof fn lemma_title_len(s: Seq<char>, k: int)
    requires
        is_title_end(s, k),
    ensures
        title_len(s) == k,
    decreases s.len(),
{
    if k > 0 {
        assert(s[0] != '\n');
        let t = s.subrange(1, s.len() as int);
        assert forall|j: int| 0 <= j < k - 1 implies t[j] != '\n' by {
            assert(t[j] == s[j + 1]);
        }
        lemma_title_len(t, k - 1);
    }
}

/// Splits a payload at its first line feed into title and description. The
/// line feed itself belongs to neither; without one the description is empty.
pub fn parse_title_and_description(payload: &String) -> (r: (String, String))
    ensures
        r.0@ == title_of(payload@),
        r.1@ == description_of(payload@),
{
    let text = payload.as_str();
    let n: usize = text.unicode_len();
    let mut k: usize = 0;
    while k < n && text.get_char(k) != '\n'
        invariant
            n == text@.len(),
            k <= n,
            forall|j: int| 0 <= j < k ==> text@[j] != '\n',
        decreases n - k,
    {
        k += 1;
    }
    proof {
        lemma_title_len(text@, k as int);
    }
    let title = String::from_str(text.substring_char(0, k));
    let description = if k < n {
        String::from_str(text.substring_char(k + 1, n))
    } else {
        String::new()
    };
    (title, description)
}

/// A participant's display line: the first name, then the last name after a
/// space, then the handle after " (@" and before ")", each only where it is
/// not empty.
pub open spec fn username_line(first_name: Seq<char>, last_name: Seq<char>, username: Seq<char>) -> Seq<char> {
    first_name + (if last_name.len() > 0 {
        seq![' '] + last_name
    } else {
        Seq::empty()
    }) + (if username.len() > 0 {
        seq![' ', '(', '@'] + username + seq![')']
    } else {
        Seq::empty()
    })
}

/// Builds a participant's display line.
pub fn make_username_line(first_name: &String, last_name: &String, username: &String) -> (line: String)
    ensures
        line@ == username_line(first_name@, last_name@, username@),
{
    let mut line = String::from_str(first_name.as_str());
    proof {
        reveal_strlit(" ");
        reveal_strlit(" (@");
        reveal_strlit(")");
    }
    if !last_name.as_str().is_empty() {
        line.append(" ");
        line.append(last_name.as_str());
    }
    if !username.as_str().is_empty() {
        line.append(" (@");
        line.append(username.as_str());
        line.append(")");
    }
    assert(line@ =~= username_line(first_name@, last_name@, username@));
    line
}

/// What matching a pattern against the whole of a text gives: `None` where
/// the pattern is no regular expression, else whether some part of the text
/// matches it.
pub uninterp spec fn pattern_is_match(pattern: Seq<char>, text: Seq<char>) -> Option<bool>;

/// What searching a text for a pattern gives: `None` where the pattern is no
/// regular expression or nothing matches, else the text of the leftmost match.
pub uninterp spec fn pattern_find(pattern: Seq<char>, text: Seq<char>) -> Option<Seq<char>>;

/// `regex::Regex::new` followed by `regex::Regex::is_match`. Nothing is proved
/// of it: the contract only gives the outcome its name, on the grounds that a
/// regular expression search depends on the pattern and the text alone.
#[verifier::external_body]
fn regex_is_match(pattern: &str, text: &str) -> (r: Option<bool>)
    ensures
        r == pattern_is_match(pattern@, text@),
{
    match regex::Regex::new(pattern) {
        Ok(re) => Some(re.is_match(text)),
        Err(_) => None,
    }
}

/// `regex::Regex::new` followed by `regex::Regex::find`, the match handed out
/// as its text. Nothing is proved of it: the contract only gives the outcome
/// its name.
#[verifier::external_body]
fn regex_find(pattern: &str, text: &str) -> (r: Option<String>)
    ensures
        r.is_some() == pattern_find(pattern@, text@).is_some(),
        r.is_some() ==> r.unwrap()@ == pattern_find(pattern@, text@).unwrap(),
{
    match regex::Regex::new(pattern) {
        Ok(re) => re.find(text).map(|m| m.as_str().to_string()),
        Err(_) => None,
    }
}

/// Whether a text holds a well-formed link.
pub open spec fn url_is_valid(text: Seq<char>) -> bool {
    pattern_is_match(URL_REGEX@, text) == Some(true)
}

/// The first short issue identifier in a text.
pub open spec fn issue_id_of(text: Seq<char>) -> Option<Seq<char>> {
    pattern_find(ISSUE_ID_REGEX@, text)
}

/// Tests whether a text holds a well-formed link.
pub fn is_url_valid(url: &str) -> (r: bool)
    ensures
        r == url_is_valid(url@),
{
    match regex_is_match(URL_REGEX, url) {
        Some(found) => found,
        None => false,
    }
}

/// Finds the first short issue identifier in a text: capital letters, a
/// hyphen, digits.
pub fn extract_issue_id(url: &str) -> (r: Option<String>)
    ensures
        r.is_some() == issue_id_of(url@).is_some(),
        r.is_some() ==> r.unwrap()@ == issue_id_of(url@).unwrap(),
{
    regex_find(ISSUE_ID_REGEX, url)
}

} // verus!
