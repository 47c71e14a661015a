//! The session engine: what a command and a pressed button do to the store,
//! and what, if anything, the chat is shown afterwards.

use crate::constants::{FINISH, RESTART};
use crate::db::{
    find_estimations, find_or_insert_user, find_session_with_initiator, finish_session,
    insert_update_estimation, restart_session, save_session, EstimationWithUser, Store, StoreError,
    StoreView, SubmitOutcome,
};
use crate::helpers::{
    description_of, issue_id_of, parse_title_and_description, title_of, url_is_valid,
};
use crate::render::{
    keyboard_of, keyboard_view, make_keyboard, picks_fit, render_text, session_text, votes_of, Button,
};
use vstd::prelude::*;
use vstd::string::*;

verus! {

/// What the chat is shown: a text, and the rows of buttons under it.
#[derive(Debug)]
pub struct DisplayPayload {
    pub text: String,
    pub keyboard: Vec<Vec<Button>>,
}

/// What a pressed button asks for.
#[derive(Debug, Clone, Copy, PartialEq, Eq, Structural)]
pub enum ButtonAction {
    Restart,
    Finish,
    Estimate,
}

/// Why a session was not started.
#[derive(Debug, Clone, Copy, PartialEq, Eq, Structural)]
pub enum StartError {
    /// The command came without a title.
    MissingTitle,
    /// The store refused.
    Store(StoreError),
}

/// What a button's token asks for: the two lifecycle tokens ask for their
/// transition, every other token is an estimation.
pub open spec fn action_of(value: Seq<char>) -> ButtonAction {
    if value == RESTART@ {
        ButtonAction::Restart
    } else if value == FINISH@ {
        ButtonAction::Finish
    } else {
        ButtonAction::Estimate
    }
}

/// Reads a button's token.
pub fn classify_button(value: &str) -> (action: ButtonAction)
    ensures
        action == action_of(value@),
{
    let token = String::from_str(value);
    if token == String::from_str(RESTART) {
        ButtonAction::Restart
    } else if token == String::from_str(FINISH) {
        ButtonAction::Finish
    } else {
        ButtonAction::Estimate
    }
}

/// Whether what an action did may be shown: an estimation from anybody, a
/// restart or a finish only from the session's initiator.
pub open spec fn broadcast_allowed(actor_id: usize, initiator_id: usize, action: ButtonAction) -> bool {
    action == ButtonAction::Estimate || actor_id == initiator_id
}

/// Decides whether what an action did may be shown.
pub fn may_broadcast(actor_id: usize, initiator_id: usize, action: ButtonAction) -> (allowed: bool)
    ensures
        allowed == broadcast_allowed(actor_id, initiator_id, action),
{
    match action {
        ButtonAction::Estimate => true,
        _ => actor_id == initiator_id,
    }
}

/// Whether `display` shows a session with these texts, this lifecycle state
/// and these votes: its text is the session's text for some fitting choice
/// of masking symbols, its keyboard the one of that state.
pub open spec fn shows(
    display: DisplayPayload,
    title: Seq<char>,
    description: Seq<char>,
    first_name: Seq<char>,
    last_name: Seq<char>,
    username: Seq<char>,
    finished: u8,
    votes: Seq<EstimationWithUser>,
    is_restart: bool,
) -> bool {
    &&& exists|picks: Seq<usize>|
        picks_fit(picks, votes.len()) && display.text@ == #[trigger] session_text(
            title,
            description,
            first_name,
            last_name,
            username,
            finished,
            votes,
            url_is_valid(title),
            issue_id_of(title),
            picks,
        )
    &&& keyboard_view(display.keyboard@) == keyboard_of(finished == 0 || is_restart)
}

/// Builds what the chat is shown of a session: its text and its keyboard.
pub fn response_message(
    title: &str,
    description: &str,
    initiator_first_name: &str,
    initiator_last_name: &str,
    initiator_username: &str,
    finished: u8,
    estimations: Option<Vec<EstimationWithUser>>,
    is_restart: bool,
) -> (display: DisplayPayload)
    ensures
        shows(
            display,
            title@,
            description@,
            initiator_first_name@,
            initiator_last_name@,
            initiator_username@,
            finished,
            votes_of(estimations),
            is_restart,
        ),
{
    let text = render_text(
        title,
        description,
        initiator_first_name,
        initiator_last_name,
        initiator_username,
        finished,
        estimations,
    );
    let keyboard = make_keyboard(finished, is_restart);
    DisplayPayload { text, keyboard }
}

/// Whether `after` is `before` with one open session more, at this place
/// and with these texts.
pub open spec fn opened(
    before: StoreView,
    after: StoreView,
    chat_id: i64,
    message_id: i32,
    title: Seq<char>,
    description: Seq<char>,
    initiator_id: usize,
) -> bool {
    let n = before.sessions.len() as int;
    &&& after.users == before.users
    &&& after.estimations == before.estimations
    &&& after.next_estimation_id == before.next_estimation_id
    &&& after.sessions.len() == n + 1
    &&& after.sessions.subrange(0, n) == before.sessions
    &&& after.sessions[n].id == n + 1
    &&& after.sessions[n].tg_chat_id == chat_id
    &&& after.sessions[n].tg_message_id == message_id
    &&& after.sessions[n].title@ == title
    &&& after.sessions[n].description@ == description
    &&& after.sessions[n].finished == 0
    &&& after.sessions[n].initiator_id == initiator_id
}

/// What the start command leaves behind and answers, given the store
/// `seen` in which the sender has been resolved.
pub open spec fn started(
    before: StoreView,
    seen: StoreView,
    after: StoreView,
    r: Result<DisplayPayload, StartError>,
    payload: Seq<char>,
    user_id: u64,
    first_name: Seq<char>,
    last_name: Seq<char>,
    username: Seq<char>,
    chat_id: i64,
    message_id: i32,
) -> bool {
    if title_of(payload).len() == 0 {
        after == before && r == Err::<DisplayPayload, StartError>(StartError::MissingTitle)
    } else if before.resolve_result(user_id) is Err || message_id == i32::MAX {
        after == seen && r == Err::<DisplayPayload, StartError>(StartError::Store(StoreError::Full))
    } else {
        let initiator = before.resolve_result(user_id)->Ok_0;
        let anchor = (message_id + 1) as i32;
        match seen.create_result(chat_id, anchor, initiator) {
            Err(e) => after == seen && r == Err::<DisplayPayload, StartError>(StartError::Store(e)),
            Ok(_) => opened(
                seen,
                after,
                chat_id,
                anchor,
                title_of(payload),
                description_of(payload),
                initiator,
            ) && r is Ok && shows(
                r->Ok_0,
                title_of(payload),
                description_of(payload),
                first_name,
                last_name,
                username,
                0,
                Seq::empty(),
                false,
            ),
        }
    }
}

/// Handles the start command. A payload whose first line is empty has no
/// title: it is refused and changes nothing. Otherwise the sender is
/// resolved, and a session is opened for the message that follows the
/// command, with the payload's first line as title and the rest as
/// description; the answer shows the open session without votes.
pub fn message_handler(
    store: &mut Store,
    payload: &String,
    user_id: u64,
    first_name: String,
    last_name: String,
    username: String,
    chat_id: i64,
    message_id: i32,
) -> (r: Result<DisplayPayload, StartError>)
    requires
        old(store)@.wf(),
    ensures
        final(store)@.wf(),
        started(
            old(store)@,
            old(store)@.resolve(user_id, first_name, last_name, username),
            final(store)@,
            r,
            payload@,
            user_id,
            first_name@,
            last_name@,
            username@,
            chat_id,
            message_id,
        ),
{
    let (title, description) = parse_title_and_description(payload);
    if title.as_str().is_empty() {
        return Err(StartError::MissingTitle);
    }
    let shown_first = first_name.clone();
    let shown_last = last_name.clone();
    let shown_username = username.clone();
    let initiator = match find_or_insert_user(store, user_id, first_name, last_name, username) {
        Ok(id) => id,
        Err(_) => {
            return Err(StartError::Store(StoreError::Full));
        },
    };
    if message_id == i32::MAX {
        return Err(StartError::Store(StoreError::Full));
    }
    let shown_title = title.clone();
    let shown_description = description.clone();
    let ghost seen = store@;
    match save_session(store, chat_id, message_id + 1, title, description, initiator) {
        Ok(_) => {
            assert(store@.sessions.subrange(0, seen.sessions.len() as int) =~= seen.sessions);
            Ok(
                response_message(
                    shown_title.as_str(),
                    shown_description.as_str(),
                    shown_first.as_str(),
                    shown_last.as_str(),
                    shown_username.as_str(),
                    0,
                    None,
                    false,
                ),
            )
        },
        Err(e) => Err(StartError::Store(e)),
    }
}

/// The store after a pressed button, given the store `seen` in which the
/// presser has been resolved under the identifier `actor`.
pub open spec fn pressed_store(
    seen: StoreView,
    actor: Result<usize, StoreError>,
    chat_id: i64,
    message_id: i32,
    value: Option<String>,
) -> StoreView {
    if actor is Err || !seen.has_anchor(chat_id, message_id) || value is None {
        seen
    } else {
        let session = seen.sessions[seen.anchor_place(chat_id, message_id)].id;
        match action_of(value->Some_0@) {
            ButtonAction::Restart => seen.restart(session),
            ButtonAction::Finish => seen.finish(session),
            ButtonAction::Estimate => seen.submit(actor->Ok_0, session, value->Some_0),
        }
    }
}

/// Whether `r` is the right answer to a pressed button. A failure of the
/// store is handed on. A restart or a finish is shown only where the presser
/// is the initiator; an estimation is shown unless it was no operation.
pub open spec fn pressed_answer(
    seen: StoreView,
    actor: Result<usize, StoreError>,
    chat_id: i64,
    message_id: i32,
    value: Option<String>,
    r: Result<Option<DisplayPayload>, StoreError>,
) -> bool {
    if actor is Err {
        r == Err::<Option<DisplayPayload>, StoreError>(actor->Err_0)
    } else if !seen.has_anchor(chat_id, message_id) {
        r == Err::<Option<DisplayPayload>, StoreError>(StoreError::NotFound)
    } else if value is None {
        r == Ok::<Option<DisplayPayload>, StoreError>(None)
    } else {
        let s = seen.session_entry(seen.anchor_place(chat_id, message_id));
        let action = action_of(value->Some_0@);
        match action {
            ButtonAction::Restart => r is Ok && (r->Ok_0 is Some <==> broadcast_allowed(
                actor->Ok_0,
                s.initiator_db_id,
                action,
            )) && (r->Ok_0 is Some ==> shows_session(r->Ok_0->Some_0, s, s.finished, Seq::empty(), true)),
            ButtonAction::Finish => r is Ok && (r->Ok_0 is Some <==> broadcast_allowed(
                actor->Ok_0,
                s.initiator_db_id,
                action,
            )) && (r->Ok_0 is Some ==> shows_session(
                r->Ok_0->Some_0,
                s,
                1,
                seen.list(s.session_id),
                false,
            )),
            ButtonAction::Estimate => match seen.submit_result(actor->Ok_0, s.session_id, value->Some_0@) {
                Err(e) => r == Err::<Option<DisplayPayload>, StoreError>(e),
                Ok(SubmitOutcome::NoOp) => r == Ok::<Option<DisplayPayload>, StoreError>(None),
                Ok(SubmitOutcome::Applied) => r is Ok && r->Ok_0 is Some && shows_session(
                    r->Ok_0->Some_0,
                    s,
                    s.finished,
                    seen.submit(actor->Ok_0, s.session_id, value->Some_0).list(s.session_id),
                    false,
                ),
            },
        }
    }
}

/// `shows`, with the texts taken from a session.
pub open spec fn shows_session(
    display: DisplayPayload,
    s: crate::db::SessionWithInitiator,
    finished: u8,
    votes: Seq<EstimationWithUser>,
    is_restart: bool,
) -> bool {
    shows(
        display,
        s.title@,
        s.description@,
        s.initiator_first_name@,
        s.initiator_last_name@,
        s.initiator_username@,
        finished,
        votes,
        is_restart,
    )
}

/// Handles a pressed button. The presser is resolved, the session is found
/// by its place in the chat, and the button's token decides: a restart
/// clears the session, a finish closes it and reveals the votes, any other
/// token is the presser's estimation. The answer is what the chat is to be
/// shown in place of the session's message, or `None` where nothing is to
/// be shown.
pub fn callback_handler(
    store: &mut Store,
    user_id: u64,
    first_name: String,
    last_name: String,
    username: String,
    chat_id: i64,
    message_id: i32,
    button_value: Option<String>,
) -> (r: Result<Option<DisplayPayload>, StoreError>)
    requires
        old(store)@.wf(),
    ensures
        final(store)@.wf(),
        final(store)@ == pressed_store(
            old(store)@.resolve(user_id, first_name, last_name, username),
            old(store)@.resolve_result(user_id),
            chat_id,
            message_id,
            button_value,
        ),
        pressed_answer(
            old(store)@.resolve(user_id, first_name, last_name, username),
            old(store)@.resolve_result(user_id),
            chat_id,
            message_id,
            button_value,
            r,
        ),
{
    let actor = match find_or_insert_user(store, user_id, first_name, last_name, username) {
        Ok(id) => id,
        Err(e) => {
            return Err(e);
        },
    };
    let session = match find_session_with_initiator(store, chat_id, message_id) {
        Ok(found) => found,
        Err(e) => {
            return Err(e);
        },
    };
    let value = match button_value {
        Some(token) => token,
        None => {
            return Ok(None);
        },
    };
    let action = classify_button(value.as_str());
    match action {
        ButtonAction::Restart => {
            restart_session(store, session.session_id);
            if may_broadcast(actor, session.initiator_db_id, action) {
                Ok(Some(show_session(&session, session.finished, None, true)))
            } else {
                Ok(None)
            }
        },
        ButtonAction::Finish => {
            let estimations = finish_session(store, session.session_id);
            if may_broadcast(actor, session.initiator_db_id, action) {
                Ok(Some(show_session(&session, 1, Some(estimations), false)))
            } else {
                Ok(None)
            }
        },
        ButtonAction::Estimate => {
            match insert_update_estimation(store, actor, session.session_id, value) {
                Err(e) => Err(e),
                Ok(SubmitOutcome::NoOp) => Ok(None),
                Ok(SubmitOutcome::Applied) => {
                    let estimations = find_estimations(store, session.session_id);
                    Ok(Some(show_session(&session, session.finished, Some(estimations), false)))
                },
            }
        },
    }
}

fn show_session(
    session: &crate::db::SessionWithInitiator,
    finished: u8,
    estimations: Option<Vec<EstimationWithUser>>,
    is_restart: bool,
) -> (display: DisplayPayload)
    ensures
        shows_session(display, *session, finished, votes_of(estimations), is_restart),
{
    response_message(
        session.title.as_str(),
        session.description.as_str(),
        session.initiator_first_name.as_str(),
        session.initiator_last_name.as_str(),
        session.initiator_username.as_str(),
        finished,
        estimations,
        is_restart,
    )
}

} // verus!
