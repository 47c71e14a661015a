//! What the chat shows of a session: its text, and the rows of buttons under
//! it.

use crate::constants::{
    default_seq, seq_value, symbol, symbols, FINISH, FINISH_LABEL, RESTART, RESTART_LABEL,
    ROW_WIDTH, SEQ_LEN, SYMBOL_COUNT,
};
use crate::db::EstimationWithUser;
use crate::helpers::{
    extract_issue_id, is_url_valid, issue_id_of, make_username_line, url_is_valid, username_line,
};
use crate::markup::{escape, escaped, italic, italic_of, link, link_of};
use vstd::prelude::*;
use vstd::string::*;

verus! {

/// One button: what it shows, and the token that a press of it sends back.
#[derive(Debug)]
pub struct Button {
    pub label: String,
    pub data: String,
}

/// A button as plain text: its label, then its token.
pub type ButtonText = (Seq<char>, Seq<char>);

/// The rows of a keyboard as plain text.
pub open spec fn keyboard_view(rows: Seq<Vec<Button>>) -> Seq<Seq<ButtonText>> {
    Seq::new(rows.len(), |r: int| row_view(rows[r]@))
}

/// One row of a keyboard as plain text.
pub open spec fn row_view(row: Seq<Button>) -> Seq<ButtonText> {
    Seq::new(row.len(), |j: int| (row[j].label@, row[j].data@))
}

/// The buttons for the values of the sequence from place `from` up to, not
/// including, place `to`: each shows its value and sends it back.
pub open spec fn value_row(from: int, to: int) -> Seq<ButtonText> {
    Seq::new((to - from) as nat, |j: int| (default_seq()[from + j], default_seq()[from + j]))
}

/// Where the value row that begins at `from` ends.
pub open spec fn row_end(from: int) -> int {
    if from + ROW_WIDTH <= SEQ_LEN {
        from + ROW_WIDTH
    } else {
        SEQ_LEN as int
    }
}

/// The first `n` value rows.
pub open spec fn value_rows(n: int) -> Seq<Seq<ButtonText>> {
    Seq::new(n as nat, |r: int| value_row(r * ROW_WIDTH, row_end(r * ROW_WIDTH)))
}

/// The restart button as plain text.
pub open spec fn restart_button() -> ButtonText {
    (RESTART_LABEL@, RESTART@)
}

/// The finish button as plain text.
pub open spec fn finish_button() -> ButtonText {
    (FINISH_LABEL@, FINISH@)
}

/// The keyboard of a session. While votes are taken: the values of the
/// sequence in rows of four, then a row with restart and finish. Once the
/// session is finished: restart alone.
pub open spec fn keyboard_of(voting: bool) -> Seq<Seq<ButtonText>> {
    if voting {
        value_rows(3).push(seq![restart_button(), finish_button()])
    } else {
        seq![seq![restart_button()]]
    }
}

fn make_button(label: &str, data: &str) -> (b: Button)
    ensures
        b.label@ == label@,
        b.data@ == data@,
{
    Button { label: String::from_str(label), data: String::from_str(data) }
}

fn make_value_row(from: usize, to: usize) -> (row: Vec<Button>)
    requires
        from <= to <= SEQ_LEN,
    ensures
        row_view(row@) == value_row(from as int, to as int),
{
    let mut row: Vec<Button> = Vec::new();
    let mut i: usize = from;
    while i < to
        invariant
            from <= i <= to <= SEQ_LEN,
            row@.len() == i - from,
            row_view(row@) =~= value_row(from as int, i as int),
        decreases to - i,
    {
        let value = seq_value(i);
        let ghost before = row@;
        row.push(make_button(value, value));
        proof {
            assert forall|j: int| 0 <= j < row@.len() implies row_view(row@)[j] == value_row(
                from as int,
                i + 1,
            )[j] by {
                if j < before.len() {
                    assert(row@[j] == before[j]);
                    assert(row_view(before)[j] == value_row(from as int, i as int)[j]);
                }
            }
        }
        i += 1;
    }
    row
}

/// Builds the keyboard of a session: the full one while votes are taken, that
/// is while the session is not finished or is being restarted, else the one
/// with restart alone.
pub fn make_keyboard(finished: u8, is_restart: bool) -> (keyboard: Vec<Vec<Button>>)
    ensures
        keyboard_view(keyboard@) == keyboard_of(finished == 0 || is_restart),
{
    let mut keyboard: Vec<Vec<Button>> = Vec::new();
    if finished == 0 || is_restart {
        let mut from: usize = 0;
        while from < SEQ_LEN
            invariant
                from == keyboard@.len() * ROW_WIDTH || (from == SEQ_LEN && keyboard@.len() == 3),
                from <= SEQ_LEN,
                keyboard@.len() <= 3,
                keyboard_view(keyboard@) =~= value_rows(keyboard@.len() as int),
            decreases SEQ_LEN - from,
        {
            let to: usize = if from + ROW_WIDTH <= SEQ_LEN {
                from + ROW_WIDTH
            } else {
                SEQ_LEN
            };
            let row = make_value_row(from, to);
            let ghost before = keyboard@;
            keyboard.push(row);
            proof {
                assert forall|r: int| 0 <= r < keyboard@.len() implies keyboard_view(keyboard@)[r]
                    == value_rows(keyboard@.len() as int)[r] by {
                    if r < before.len() {
                        assert(keyboard@[r] == before[r]);
                        assert(keyboard_view(before)[r] == value_rows(before.len() as int)[r]);
                    }
                }
            }
            from = to;
        }
        let mut last: Vec<Button> = Vec::new();
        last.push(make_button(RESTART_LABEL, RESTART));
        last.push(make_button(FINISH_LABEL, FINISH));
        assert(row_view(last@) =~= seq![restart_button(), finish_button()]);
        keyboard.push(last);
        assert(keyboard_view(keyboard@) =~= keyboard_of(true));
    } else {
        let mut last: Vec<Button> = Vec::new();
        last.push(make_button(RESTART_LABEL, RESTART));
        assert(row_view(last@) =~= seq![restart_button()]);
        keyboard.push(last);
        assert(keyboard_view(keyboard@) =~= keyboard_of(false));
    }
    keyboard
}

/// The votes that a rendering is given, as a sequence: none where it is
/// given no list.
pub open spec fn votes_of(votes: Option<Vec<EstimationWithUser>>) -> Seq<EstimationWithUser> {
    match votes {
        Some(list) => list@,
        None => Seq::empty(),
    }
}

/// Whether `picks` names one masking symbol for each of `n` votes.
pub open spec fn picks_fit(picks: Seq<usize>, n: nat) -> bool {
    &&& picks.len() == n
    &&& forall|i: int| 0 <= i < n ==> picks[i] < SYMBOL_COUNT
}

/// What stands in front of a participant's name: the value once votes are
/// revealed, before that the masking symbol that was picked.
pub open spec fn vote_mark(reveal: bool, value: Seq<char>, pick: usize) -> Seq<char> {
    if reveal {
        value
    } else {
        symbols()[pick as int]
    }
}

/// One participant's line: the mark, " - ", the display line, a line feed.
pub open spec fn vote_line(reveal: bool, vote: EstimationWithUser, pick: usize) -> Seq<char> {
    vote_mark(reveal, vote.value@, pick) + seq![' ', '-', ' '] + username_line(
        vote.first_name@,
        vote.last_name@,
        vote.username@,
    ) + seq!['\n']
}

/// The lines of the first `n` votes, in the order of the list.
pub open spec fn vote_lines(
    reveal: bool,
    votes: Seq<EstimationWithUser>,
    picks: Seq<usize>,
    n: int,
) -> Seq<char>
    decreases n,
{
    if n <= 0 {
        Seq::empty()
    } else {
        vote_lines(reveal, votes, picks, n - 1) + vote_line(reveal, votes[n - 1], picks[n - 1])
    }
}

/// The title as it is shown. A title that is a well-formed link and holds an
/// issue identifier becomes a link: its label is the escaped title, its
/// target the identifier. Any other title is shown escaped.
pub open spec fn title_text(title: Seq<char>, url_valid: bool, issue: Option<Seq<char>>) -> Seq<char> {
    if url_valid && issue.is_some() {
        link_of(issue.unwrap(), escaped(title))
    } else {
        escaped(title)
    }
}

/// The description as it is shown: nothing where it is empty, else a line
/// feed and the description, escaped and in italics.
pub open spec fn description_text(description: Seq<char>) -> Seq<char> {
    if description.len() == 0 {
        Seq::empty()
    } else {
        italic_of(escaped(seq!['\n'] + description))
    }
}

/// The initiator's paragraph, escaped.
pub open spec fn initiator_text(first_name: Seq<char>, last_name: Seq<char>, username: Seq<char>) -> Seq<char> {
    escaped("\nИнициатор: "@ + username_line(first_name, last_name, username) + seq!['\n'])
}

/// The votes' paragraph: nothing where there are no lines, else a heading
/// and the escaped lines.
pub open spec fn votes_text(lines: Seq<char>) -> Seq<char> {
    if lines.len() == 0 {
        Seq::empty()
    } else {
        "Оценки:\n\n"@ + escaped(lines)
    }
}

/// The whole text of a session: heading and title, description, initiator,
/// votes. Votes are revealed exactly where `session_finished` is 1.
pub open spec fn session_text(
    title: Seq<char>,
    description: Seq<char>,
    first_name: Seq<char>,
    last_name: Seq<char>,
    username: Seq<char>,
    session_finished: u8,
    votes: Seq<EstimationWithUser>,
    url_valid: bool,
    issue: Option<Seq<char>>,
    picks: Seq<usize>,
) -> Seq<char> {
    "Оценка задачи: "@ + title_text(title, url_valid, issue) + description_text(description)
        + seq!['\n'] + initiator_text(first_name, last_name, username) + seq!['\n'] + votes_text(
        vote_lines(session_finished == 1, votes, picks, votes.len() as int),
    )
}

/// Whether two lists name the same participants in the same order,
/// whatever each has voted.
pub open spec fn same_voters(a: Seq<EstimationWithUser>, b: Seq<EstimationWithUser>) -> bool {
    &&& a.len() == b.len()
    &&& forall|i: int|
        0 <= i < a.len() ==> (#[trigger] a[i]).first_name@ == b[i].first_name@ && a[i].last_name@
            == b[i].last_name@ && a[i].username@ == b[i].username@
}

/// While votes are hidden, the text does not depend on what anybody voted:
/// two lists of the same participants give the same text for the same
/// picks, so no value can be read from it.
pub proof fn lemma_hidden_votes_leave_no_trace(
    title: Seq<char>,
    description: Seq<char>,
    first_name: Seq<char>,
    last_name: Seq<char>,
    username: Seq<char>,
    session_finished: u8,
    votes: Seq<EstimationWithUser>,
    others: Seq<EstimationWithUser>,
    url_valid: bool,
    issue: Option<Seq<char>>,
    picks: Seq<usize>,
)
    requires
        session_finished != 1,
        same_voters(votes, others),
    ensures
        session_text(
            title,
            description,
            first_name,
            last_name,
            username,
            session_finished,
            votes,
            url_valid,
            issue,
            picks,
        ) == session_text(
            title,
            description,
            first_name,
            last_name,
            username,
            session_finished,
            others,
            url_valid,
            issue,
            picks,
        ),
{
    lemma_hidden_lines(votes, others, picks, votes.len() as int);
}

proof fn lemma_hidden_lines(
    votes: Seq<EstimationWithUser>,
    others: Seq<EstimationWithUser>,
    picks: Seq<usize>,
    n: int,
)
    requires
        same_voters(votes, others),
        0 <= n <= votes.len(),
    ensures
        vote_lines(false, votes, picks, n) == vote_lines(false, others, picks, n),
    decreases n,
{
    if n > 0 {
        lemma_hidden_lines(votes, others, picks, n - 1);
        assert(votes[n - 1].first_name@ == others[n - 1].first_name@);
    }
}

/// The view of an optional text.
pub open spec fn text_of(text: Option<String>) -> Option<Seq<char>> {
    match text {
        Some(t) => Some(t@),
        None => None,
    }
}

fn render_votes(session_finished: u8, votes: &Option<Vec<EstimationWithUser>>, picks: &Vec<usize>) -> (lines: String)
    requires
        session_finished != 1 ==> picks_fit(picks@, votes_of(*votes).len()),
    ensures
        lines@ == vote_lines(
            session_finished == 1,
            votes_of(*votes),
            picks@,
            votes_of(*votes).len() as int,
        ),
{
    let mut lines = String::new();
    if let Some(list) = votes {
        let mut i: usize = 0;
        while i < list.len()
            invariant
                i <= list@.len(),
                session_finished != 1 ==> picks_fit(picks@, list@.len()),
                lines@ == vote_lines(session_finished == 1, list@, picks@, i as int),
            decreases list@.len() - i,
        {
            let vote = &list[i];
            let before = Ghost(lines@);
            if session_finished == 1 {
                lines.append(vote.value.as_str());
            } else {
                lines.append(symbol(picks[i]));
            }
            lines.append(" - ");
            let name = make_username_line(&vote.first_name, &vote.last_name, &vote.username);
            lines.append(name.as_str());
            lines.append("\n");
            proof {
                reveal_strlit(" - ");
                reveal_strlit("\n");
                assert(" - "@ =~= seq![' ', '-', ' ']);
                assert("\n"@ =~= seq!['\n']);
                assert(lines@ =~= before@ + vote_line(
                    session_finished == 1,
                    list@[i as int],
                    picks@[i as int],
                ));
            }
            i += 1;
        }
    }
    lines
}

/// Renders a session's text from what was found out about its title and the
/// masking symbols that were picked, one for each vote. The symbols are read
/// only while votes are hidden.
pub fn render_text_with(
    title: &str,
    description: &str,
    initiator_first_name: &str,
    initiator_last_name: &str,
    initiator_username: &str,
    session_finished: u8,
    votes: &Option<Vec<EstimationWithUser>>,
    url_valid: bool,
    issue: &Option<String>,
    picks: &Vec<usize>,
) -> (text: String)
    requires
        session_finished != 1 ==> picks_fit(picks@, votes_of(*votes).len()),
    ensures
        text@ == session_text(
            title@,
            description@,
            initiator_first_name@,
            initiator_last_name@,
            initiator_username@,
            session_finished,
            votes_of(*votes),
            url_valid,
            text_of(*issue),
            picks@,
        ),
{
    let mut text = String::from_str("Оценка задачи: ");
    let shown_title = escape(title);
    match issue {
        Some(id) => {
            if url_valid {
                let linked = link(id.as_str(), shown_title.as_str());
                text.append(linked.as_str());
            } else {
                text.append(shown_title.as_str());
            }
        },
        None => {
            text.append(shown_title.as_str());
        },
    }
    if !description.is_empty() {
        let mut paragraph = String::from_str("\n");
        paragraph.append(description);
        proof {
            reveal_strlit("\n");
            assert(paragraph@ =~= seq!['\n'] + description@);
        }
        let shown = italic(escape(paragraph.as_str()).as_str());
        text.append(shown.as_str());
    }
    text.append("\n");
    let first_name = String::from_str(initiator_first_name);
    let last_name = String::from_str(initiator_last_name);
    let username = String::from_str(initiator_username);
    let mut initiator = String::from_str("\nИнициатор: ");
    initiator.append(make_username_line(&first_name, &last_name, &username).as_str());
    initiator.append("\n");
    text.append(escape(initiator.as_str()).as_str());
    text.append("\n");
    let lines = render_votes(session_finished, votes, picks);
    if !lines.as_str().is_empty() {
        text.append("Оценки:\n\n");
        text.append(escape(lines.as_str()).as_str());
    }
    proof {
        reveal_strlit("\n");
        assert(initiator@ =~= "\nИнициатор: "@ + username_line(
            initiator_first_name@,
            initiator_last_name@,
            initiator_username@,
        ) + seq!['\n']);
        assert(text@ =~= session_text(
            title@,
            description@,
            initiator_first_name@,
            initiator_last_name@,
            initiator_username@,
            session_finished,
            votes_of(*votes),
            url_valid,
            text_of(*issue),
            picks@,
        ));
    }
    text
}

/// `rand::Rng::gen_range` on `rand::thread_rng()`, over the numbers below
/// `n`. Believed, not proved: what comes back is below `n`. Which number it
/// is depends on chance, and nothing is said of that.
#[verifier::external_body]
fn random_below(n: usize) -> (i: usize)
    requires
        n > 0,
    ensures
        i < n,
{
    rand::Rng::gen_range(&mut rand::thread_rng(), 0..n)
}

/// Picks one masking symbol at random for each of `n` votes.
pub fn draw_picks(n: usize) -> (picks: Vec<usize>)
    ensures
        picks_fit(picks@, n as nat),
{
    let mut picks: Vec<usize> = Vec::new();
    while picks.len() < n
        invariant
            picks@.len() <= n,
            forall|i: int| 0 <= i < picks@.len() ==> picks@[i] < SYMBOL_COUNT,
        decreases n - picks@.len(),
    {
        picks.push(random_below(SYMBOL_COUNT));
    }
    picks
}

/// Renders a session's text. The title is tested for a link and an issue
/// identifier; while votes are hidden, each gets a masking symbol picked at
/// random for this one rendering, so the text is the one that
/// `render_text_with` gives for some fitting picks.
pub fn render_text(
    title: &str,
    description: &str,
    initiator_first_name: &str,
    initiator_last_name: &str,
    initiator_username: &str,
    session_finished: u8,
    votes: Option<Vec<EstimationWithUser>>,
) -> (text: String)
    ensures
        exists|picks: Seq<usize>|
            picks_fit(picks, votes_of(votes).len()) && text@ == #[trigger] session_text(
                title@,
                description@,
                initiator_first_name@,
                initiator_last_name@,
                initiator_username@,
                session_finished,
                votes_of(votes),
                url_is_valid(title@),
                issue_id_of(title@),
                picks,
            ),
{
    let url_valid = is_url_valid(title);
    let issue = extract_issue_id(title);
    let n: usize = match &votes {
        Some(list) => list.len(),
        None => 0,
    };
    let picks = draw_picks(n);
    let text = render_text_with(
        title,
        description,
        initiator_first_name,
        initiator_last_name,
        initiator_username,
        session_finished,
        &votes,
        url_valid,
        &issue,
        &picks,
    );
    assert(text_of(issue) == issue_id_of(title@));
    text
}

} // verus!
