//! The store of participants, sessions and estimations, and the operations
//! that the ritual performs on it. The store is a value in memory; each
//! operation is one step, and says exactly which rows it leaves behind.

use vstd::prelude::*;

verus! {

/// A session together with the participant who opened it.
#[derive(Debug)]
pub struct SessionWithInitiator {
    pub session_id: usize,
    pub title: String,
    pub description: String,
    pub finished: u8,
    pub initiator_first_name: String,
    pub initiator_last_name: String,
    pub initiator_username: String,
    pub initiator_db_id: usize,
}

/// One participant's estimation together with the participant's names.
#[derive(Debug)]
pub struct EstimationWithUser {
    pub id: usize,
    pub value: String,
    pub first_name: String,
    pub last_name: String,
    pub username: String,
}

/// A participant as the store keeps them.
#[derive(Debug)]
pub struct UserRow {
    pub id: usize,
    pub tg_id: u64,
    pub first_name: String,
    pub last_name: String,
    pub username: String,
}

/// A session as the store keeps it.
#[derive(Debug)]
pub struct SessionRow {
    pub id: usize,
    pub tg_chat_id: i64,
    pub tg_message_id: i32,
    pub title: String,
    pub description: String,
    pub finished: u8,
    pub initiator_id: usize,
}

/// An estimation as the store keeps it.
#[derive(Debug)]
pub struct EstimationRow {
    pub id: usize,
    pub value: String,
    pub session_id: usize,
    pub user_id: usize,
}

/// Why the store did not do what it was asked.
#[derive(Debug, Clone, Copy, PartialEq, Eq, Structural)]
pub enum StoreError {
    /// A session already stands at that place in that chat.
    Conflict,
    /// No such session, or no such participant.
    NotFound,
    /// The store has run out of identifiers.
    Full,
}

/// What a submission did.
#[derive(Debug, Clone, Copy, PartialEq, Eq, Structural)]
pub enum SubmitOutcome {
    /// The estimation was written: what is shown has to be drawn again.
    Applied,
    /// The participant had submitted this very value before: nothing changed.
    NoOp,
}

/// The three relations, and the identifier that the next estimation gets.
#[derive(Debug)]
pub struct Store {
    pub users: Vec<UserRow>,
    pub sessions: Vec<SessionRow>,
    pub estimations: Vec<EstimationRow>,
    pub next_estimation_id: usize,
}

/// The store as mathematics: its rows in the order in which they came.
pub struct StoreView {
    pub users: Seq<UserRow>,
    pub sessions: Seq<SessionRow>,
    pub estimations: Seq<EstimationRow>,
    pub next_estimation_id: usize,
}

impl View for Store {
    type V = StoreView;

    open spec fn view(&self) -> StoreView {
        StoreView {
            users: self.users@,
            sessions: self.sessions@,
            estimations: self.estimations@,
            next_estimation_id: self.next_estimation_id,
        }
    }
}

impl StoreView {
    /// Whether a participant with this identifier is in the store.
    pub open spec fn known_user(self, id: usize) -> bool {
        1 <= id <= self.users.len()
    }

    /// Whether a session with this identifier is in the store.
    pub open spec fn known_session(self, id: usize) -> bool {
        1 <= id <= self.sessions.len()
    }

    /// Whether the participant from outside with this identifier was seen.
    pub open spec fn has_user(self, tg_id: u64) -> bool {
        exists|i: int| 0 <= i < self.users.len() && self.users[i].tg_id == tg_id
    }

    /// Where the participant from outside with this identifier stands.
    pub open spec fn user_place(self, tg_id: u64) -> int {
        choose|i: int| 0 <= i < self.users.len() && self.users[i].tg_id == tg_id
    }

    /// Whether a session stands at this place in this chat.
    pub open spec fn has_anchor(self, chat_id: i64, message_id: i32) -> bool {
        exists|i: int| 0 <= i < self.sessions.len() && #[trigger] self.sessions[i].tg_chat_id == chat_id
            && self.sessions[i].tg_message_id == message_id
    }

    /// Where the session of this place in this chat stands.
    pub open spec fn anchor_place(self, chat_id: i64, message_id: i32) -> int {
        choose|i: int| 0 <= i < self.sessions.len() && #[trigger] self.sessions[i].tg_chat_id == chat_id
            && self.sessions[i].tg_message_id == message_id
    }

    /// Whether this participant has an estimation in this session.
    pub open spec fn has_row(self, session_id: usize, user_id: usize) -> bool {
        exists|i: int| 0 <= i < self.estimations.len() && #[trigger] self.estimations[i].session_id == session_id
            && self.estimations[i].user_id == user_id
    }

    /// Where this participant's estimation in this session stands.
    pub open spec fn row_place(self, session_id: usize, user_id: usize) -> int {
        choose|i: int| 0 <= i < self.estimations.len() && #[trigger] self.estimations[i].session_id == session_id
            && self.estimations[i].user_id == user_id
    }

    /// The value that this participant has submitted in this session.
    pub open spec fn value_of(self, session_id: usize, user_id: usize) -> Option<Seq<char>> {
        if self.has_row(session_id, user_id) {
            Some(self.estimations[self.row_place(session_id, user_id)].value@)
        } else {
            None
        }
    }

    /// What the store holds at all times: identifiers count the rows from 1,
    /// no participant from outside stands twice, no place in a chat has two
    /// sessions, every session has its initiator, every estimation has its
    /// session and its participant, and no participant has two estimations
    /// in one session.
    pub open spec fn wf(self) -> bool {
        &&& forall|i: int| 0 <= i < self.users.len() ==> #[trigger] self.users[i].id == i + 1
        &&& forall|i: int, j: int|
            0 <= i < j < self.users.len() ==> #[trigger] self.users[i].tg_id != #[trigger] self.users[j].tg_id
        &&& forall|i: int| 0 <= i < self.sessions.len() ==> #[trigger] self.sessions[i].id == i + 1
        &&& forall|i: int|
            0 <= i < self.sessions.len() ==> self.known_user(#[trigger] self.sessions[i].initiator_id)
        &&& forall|i: int, j: int|
            0 <= i < j < self.sessions.len() ==> !(#[trigger] self.sessions[i].tg_chat_id
                == #[trigger] self.sessions[j].tg_chat_id && self.sessions[i].tg_message_id
                == self.sessions[j].tg_message_id)
        &&& forall|i: int|
            0 <= i < self.estimations.len() ==> self.known_session(
                #[trigger] self.estimations[i].session_id,
            ) && self.known_user(self.estimations[i].user_id)
        &&& forall|i: int, j: int|
            0 <= i < j < self.estimations.len() ==> !(#[trigger] self.estimations[i].session_id
                == #[trigger] self.estimations[j].session_id && self.estimations[i].user_id
                == self.estimations[j].user_id)
    }

    /// The store after a participant from outside was seen: a known one has
    /// the display fields overwritten, a new one is added at the end.
    pub open spec fn resolve(
        self,
        tg_id: u64,
        first_name: String,
        last_name: String,
        username: String,
    ) -> StoreView {
        if self.has_user(tg_id) {
            let i = self.user_place(tg_id);
            StoreView {
                users: self.users.update(
                    i,
                    UserRow { id: self.users[i].id, tg_id, first_name, last_name, username },
                ),
                ..self
            }
        } else if self.users.len() < usize::MAX {
            StoreView {
                users: self.users.push(
                    UserRow { id: (self.users.len() + 1) as usize, tg_id, first_name, last_name, username },
                ),
                ..self
            }
        } else {
            self
        }
    }

    /// The identifier under which a participant from outside is known once
    /// seen.
    pub open spec fn resolve_result(self, tg_id: u64) -> Result<usize, StoreError> {
        if self.has_user(tg_id) {
            Ok(self.users[self.user_place(tg_id)].id)
        } else if self.users.len() < usize::MAX {
            Ok((self.users.len() + 1) as usize)
        } else {
            Err(StoreError::Full)
        }
    }

    /// What opening a session answers: its identifier, or why it was refused.
    pub open spec fn create_result(self, chat_id: i64, message_id: i32, initiator_id: usize) -> Result<
        usize,
        StoreError,
    > {
        if self.has_anchor(chat_id, message_id) {
            Err(StoreError::Conflict)
        } else if !self.known_user(initiator_id) {
            Err(StoreError::NotFound)
        } else if self.sessions.len() >= usize::MAX {
            Err(StoreError::Full)
        } else {
            Ok((self.sessions.len() + 1) as usize)
        }
    }

    /// The store after a session was opened: one open session more, where it
    /// was not refused.
    pub open spec fn create(
        self,
        chat_id: i64,
        message_id: i32,
        title: String,
        description: String,
        initiator_id: usize,
    ) -> StoreView {
        if self.create_result(chat_id, message_id, initiator_id) is Ok {
            StoreView {
                sessions: self.sessions.push(
                    SessionRow {
                        id: (self.sessions.len() + 1) as usize,
                        tg_chat_id: chat_id,
                        tg_message_id: message_id,
                        title,
                        description,
                        finished: 0,
                        initiator_id,
                    },
                ),
                ..self
            }
        } else {
            self
        }
    }

    /// What a submission answers. The same value again is no operation; a
    /// first or another value is applied.
    pub open spec fn submit_result(self, user_id: usize, session_id: usize, value: Seq<char>) -> Result<
        SubmitOutcome,
        StoreError,
    > {
        if !self.known_user(user_id) || !self.known_session(session_id) {
            Err(StoreError::NotFound)
        } else if self.has_row(session_id, user_id) {
            if self.estimations[self.row_place(session_id, user_id)].value@ == value {
                Ok(SubmitOutcome::NoOp)
            } else {
                Ok(SubmitOutcome::Applied)
            }
        } else if self.next_estimation_id == usize::MAX {
            Err(StoreError::Full)
        } else {
            Ok(SubmitOutcome::Applied)
        }
    }

    /// The store after a submission. Where it was applied, the participant's
    /// row holds the new value, in its old place or, if it is new, at the
    /// end. In every other case nothing has changed.
    pub open spec fn submit(self, user_id: usize, session_id: usize, value: String) -> StoreView {
        if self.submit_result(user_id, session_id, value@) != Ok::<SubmitOutcome, StoreError>(
            SubmitOutcome::Applied,
        ) {
            self
        } else if self.has_row(session_id, user_id) {
            let i = self.row_place(session_id, user_id);
            StoreView {
                estimations: self.estimations.update(
                    i,
                    EstimationRow { id: self.estimations[i].id, value, session_id, user_id },
                ),
                ..self
            }
        } else {
            StoreView {
                estimations: self.estimations.push(
                    EstimationRow { id: self.next_estimation_id, value, session_id, user_id },
                ),
                next_estimation_id: (self.next_estimation_id + 1) as usize,
                ..self
            }
        }
    }

    /// A session's row with another lifecycle state.
    pub open spec fn with_state(row: SessionRow, finished: u8) -> SessionRow {
        SessionRow {
            id: row.id,
            tg_chat_id: row.tg_chat_id,
            tg_message_id: row.tg_message_id,
            title: row.title,
            description: row.description,
            finished,
            initiator_id: row.initiator_id,
        }
    }

    /// The sessions with one of them, if it is known, in another state.
    pub open spec fn sessions_with(self, session_id: usize, finished: u8) -> Seq<SessionRow> {
        if self.known_session(session_id) {
            self.sessions.update(
                session_id - 1,
                Self::with_state(self.sessions[session_id - 1], finished),
            )
        } else {
            self.sessions
        }
    }

    /// The store after a session was finished.
    pub open spec fn finish(self, session_id: usize) -> StoreView {
        StoreView { sessions: self.sessions_with(session_id, 1), ..self }
    }

    /// The first `n` estimations without those of one session, in order.
    pub open spec fn others(self, session_id: usize, n: int) -> Seq<EstimationRow>
        decreases n,
    {
        if n <= 0 {
            Seq::empty()
        } else if self.estimations[n - 1].session_id == session_id {
            self.others(session_id, n - 1)
        } else {
            self.others(session_id, n - 1).push(self.estimations[n - 1])
        }
    }

    /// The store after a session was restarted: its estimations are gone,
    /// and it is open again.
    pub open spec fn restart(self, session_id: usize) -> StoreView {
        StoreView {
            sessions: self.sessions_with(session_id, 0),
            estimations: self.others(session_id, self.estimations.len() as int),
            ..self
        }
    }

    /// An estimation with the names of the participant who gave it.
    pub open spec fn entry(self, row: EstimationRow) -> EstimationWithUser {
        EstimationWithUser {
            id: row.id,
            value: row.value,
            first_name: self.users[row.user_id - 1].first_name,
            last_name: self.users[row.user_id - 1].last_name,
            username: self.users[row.user_id - 1].username,
        }
    }

    /// The estimations of one session among the first `n`, in the order in
    /// which they were first submitted.
    pub open spec fn listing(self, session_id: usize, n: int) -> Seq<EstimationWithUser>
        decreases n,
    {
        if n <= 0 {
            Seq::empty()
        } else if self.estimations[n - 1].session_id == session_id {
            self.listing(session_id, n - 1).push(self.entry(self.estimations[n - 1]))
        } else {
            self.listing(session_id, n - 1)
        }
    }

    /// All estimations of one session.
    pub open spec fn list(self, session_id: usize) -> Seq<EstimationWithUser> {
        self.listing(session_id, self.estimations.len() as int)
    }

    /// A session with its initiator's names.
    pub open spec fn session_entry(self, i: int) -> SessionWithInitiator {
        let row = self.sessions[i];
        let user = self.users[row.initiator_id - 1];
        SessionWithInitiator {
            session_id: row.id,
            title: row.title,
            description: row.description,
            finished: row.finished,
            initiator_first_name: user.first_name,
            initiator_last_name: user.last_name,
            initiator_username: user.username,
            initiator_db_id: user.id,
        }
    }
}


impl Store {
    /// An empty store.
    pub fn new() -> (store: Store)
        ensures
            store@.wf(),
            store@.users.len() == 0,
            store@.sessions.len() == 0,
            store@.estimations.len() == 0,
            store@.next_estimation_id == 1,
    {
        Store { users: Vec::new(), sessions: Vec::new(), estimations: Vec::new(), next_estimation_id: 1 }
    }

    fn find_user(&self, tg_id: u64) -> (r: Option<usize>)
        requires
            self@.wf(),
        ensures
            r is Some == self@.has_user(tg_id),
            r is Some ==> r.unwrap() == self@.user_place(tg_id) && r.unwrap() < self.users@.len(),
    {
        let mut i: usize = 0;
        while i < self.users.len()
            invariant
                self@.wf(),
                i <= self.users@.len(),
                forall|k: int| 0 <= k < i ==> self.users@[k].tg_id != tg_id,
            decreases self.users@.len() - i,
        {
            if self.users[i].tg_id == tg_id {
                proof {
                    self@.lemma_user_place(i as int);
                }
                return Some(i);
            }
            i += 1;
        }
        None
    }

    fn find_anchor(&self, chat_id: i64, message_id: i32) -> (r: Option<usize>)
        requires
            self@.wf(),
        ensures
            r is Some == self@.has_anchor(chat_id, message_id),
            r is Some ==> r.unwrap() == self@.anchor_place(chat_id, message_id) && r.unwrap()
                < self.sessions@.len(),
    {
        let mut i: usize = 0;
        while i < self.sessions.len()
            invariant
                self@.wf(),
                i <= self.sessions@.len(),
                forall|k: int|
                    0 <= k < i ==> !(#[trigger] self.sessions@[k].tg_chat_id == chat_id
                        && self.sessions@[k].tg_message_id == message_id),
            decreases self.sessions@.len() - i,
        {
            if self.sessions[i].tg_chat_id == chat_id && self.sessions[i].tg_message_id == message_id {
                proof {
                    self@.lemma_anchor_place(i as int);
                }
                return Some(i);
            }
            i += 1;
        }
        None
    }

    fn find_row(&self, session_id: usize, user_id: usize) -> (r: Option<usize>)
        requires
            self@.wf(),
        ensures
            r is Some == self@.has_row(session_id, user_id),
            r is Some ==> r.unwrap() == self@.row_place(session_id, user_id) && r.unwrap()
                < self.estimations@.len(),
    {
        let mut i: usize = 0;
        while i < self.estimations.len()
            invariant
                self@.wf(),
                i <= self.estimations@.len(),
                forall|k: int|
                    0 <= k < i ==> !(#[trigger] self.estimations@[k].session_id == session_id
                        && self.estimations@[k].user_id == user_id),
            decreases self.estimations@.len() - i,
        {
            if self.estimations[i].session_id == session_id && self.estimations[i].user_id == user_id {
                proof {
                    self@.lemma_row_place(i as int);
                }
                return Some(i);
            }
            i += 1;
        }
        None
    }
}

/// Resolves a participant from outside to the identifier under which the
/// store knows them. A first sighting adds the participant; every later one
/// overwrites the display fields and answers the same identifier.
pub fn find_or_insert_user(
    store: &mut Store,
    user_id: u64,
    first_name: String,
    last_name: String,
    username: String,
) -> (r: Result<usize, StoreError>)
    requires
        old(store)@.wf(),
    ensures
        final(store)@.wf(),
        final(store)@ == old(store)@.resolve(user_id, first_name, last_name, username),
        r == old(store)@.resolve_result(user_id),
{
    proof {
        old(store)@.lemma_resolve_wf(user_id, first_name, last_name, username);
    }
    match store.find_user(user_id) {
        Some(i) => {
            let id = store.users[i].id;
            store.users.set(i, UserRow { id, tg_id: user_id, first_name, last_name, username });
            Ok(id)
        },
        None => {
            let n = store.users.len();
            if n < usize::MAX {
                store.users.push(UserRow { id: n + 1, tg_id: user_id, first_name, last_name, username });
                Ok(n + 1)
            } else {
                Err(StoreError::Full)
            }
        },
    }
}

/// Opens a session at a place in a chat. A place that has a session already
/// is refused with `Conflict`, an initiator whom the store does not know
/// with `NotFound`. The new session is open and gets the next identifier.
pub fn save_session(
    store: &mut Store,
    tg_chat_id: i64,
    tg_message_id: i32,
    title: String,
    description: String,
    initiator_id: usize,
) -> (r: Result<usize, StoreError>)
    requires
        old(store)@.wf(),
    ensures
        final(store)@.wf(),
        final(store)@ == old(store)@.create(tg_chat_id, tg_message_id, title, description, initiator_id),
        r == old(store)@.create_result(tg_chat_id, tg_message_id, initiator_id),
{
    proof {
        old(store)@.lemma_create_wf(tg_chat_id, tg_message_id, title, description, initiator_id);
    }
    if store.find_anchor(tg_chat_id, tg_message_id).is_some() {
        return Err(StoreError::Conflict);
    }
    if initiator_id < 1 || initiator_id > store.users.len() {
        return Err(StoreError::NotFound);
    }
    let n = store.sessions.len();
    if n >= usize::MAX {
        return Err(StoreError::Full);
    }
    store.sessions.push(
        SessionRow { id: n + 1, tg_chat_id, tg_message_id, title, description, finished: 0, initiator_id },
    );
    Ok(n + 1)
}

/// Finds the session at a place in a chat, with its initiator's names;
/// `NotFound` where no session stands there.
pub fn find_session_with_initiator(store: &Store, chat_id: i64, message_id: i32) -> (r: Result<
    SessionWithInitiator,
    StoreError,
>)
    requires
        store@.wf(),
    ensures
        store@.has_anchor(chat_id, message_id) ==> r == Ok::<SessionWithInitiator, StoreError>(
            store@.session_entry(store@.anchor_place(chat_id, message_id)),
        ),
        !store@.has_anchor(chat_id, message_id) ==> r == Err::<SessionWithInitiator, StoreError>(
            StoreError::NotFound,
        ),
{
    match store.find_anchor(chat_id, message_id) {
        Some(i) => {
            let row = &store.sessions[i];
            assert(store@.known_user(store.sessions@[i as int].initiator_id));
            let user = &store.users[row.initiator_id - 1];
            Ok(
                SessionWithInitiator {
                    session_id: row.id,
                    title: row.title.clone(),
                    description: row.description.clone(),
                    finished: row.finished,
                    initiator_first_name: user.first_name.clone(),
                    initiator_last_name: user.last_name.clone(),
                    initiator_username: user.username.clone(),
                    initiator_db_id: user.id,
                },
            )
        },
        None => Err(StoreError::NotFound),
    }
}

/// Decides what a submission does, from the value that the participant holds
/// in the session so far: the same value again is no operation, anything
/// else is applied.
pub fn decide_submission(existing: Option<&String>, value: &String) -> (outcome: SubmitOutcome)
    ensures
        outcome == (if existing is Some && existing->Some_0@ == value@ {
            SubmitOutcome::NoOp
        } else {
            SubmitOutcome::Applied
        }),
{
    match existing {
        Some(held) => {
            if *held == *value {
                SubmitOutcome::NoOp
            } else {
                SubmitOutcome::Applied
            }
        },
        None => SubmitOutcome::Applied,
    }
}

/// Takes a participant's estimation for a session. The value that the
/// participant holds already is answered with `NoOp` and changes nothing; a
/// first value adds a row, another value replaces the old one in its place;
/// both are answered with `Applied`. An unknown participant or session is
/// refused with `NotFound`.
pub fn insert_update_estimation(store: &mut Store, user_id: usize, session_id: usize, value: String) -> (r:
    Result<SubmitOutcome, StoreError>)
    requires
        old(store)@.wf(),
    ensures
        final(store)@.wf(),
        final(store)@ == old(store)@.submit(user_id, session_id, value),
        r == old(store)@.submit_result(user_id, session_id, value@),
{
    if user_id < 1 || user_id > store.users.len() || session_id < 1 || session_id > store.sessions.len() {
        return Err(StoreError::NotFound);
    }
    match store.find_row(session_id, user_id) {
        Some(i) => {
            proof {
                old(store)@.lemma_submit_value(user_id, session_id, value);
            }
            match decide_submission(Some(&store.estimations[i].value), &value) {
                SubmitOutcome::NoOp => Ok(SubmitOutcome::NoOp),
                SubmitOutcome::Applied => {
                    let id = store.estimations[i].id;
                    store.estimations.set(i, EstimationRow { id, value, session_id, user_id });
                    Ok(SubmitOutcome::Applied)
                },
            }
        },
        None => {
            if store.next_estimation_id == usize::MAX {
                return Err(StoreError::Full);
            }
            proof {
                old(store)@.lemma_submit_value(user_id, session_id, value);
            }
            let id = store.next_estimation_id;
            store.estimations.push(EstimationRow { id, value, session_id, user_id });
            store.next_estimation_id = id + 1;
            Ok(SubmitOutcome::Applied)
        },
    }
}

/// Lists a session's estimations with the participants' names, in the order
/// in which the participants first submitted.
pub fn find_estimations(store: &Store, session_id: usize) -> (list: Vec<EstimationWithUser>)
    requires
        store@.wf(),
    ensures
        list@ == store@.list(session_id),
{
    let mut list: Vec<EstimationWithUser> = Vec::new();
    let mut i: usize = 0;
    while i < store.estimations.len()
        invariant
            store@.wf(),
            i <= store.estimations@.len(),
            list@ == store@.listing(session_id, i as int),
        decreases store.estimations@.len() - i,
    {
        let row = &store.estimations[i];
        if row.session_id == session_id {
            assert(store@.known_session(store@.estimations[i as int].session_id));
            let user = &store.users[row.user_id - 1];
            list.push(
                EstimationWithUser {
                    id: row.id,
                    value: row.value.clone(),
                    first_name: user.first_name.clone(),
                    last_name: user.last_name.clone(),
                    username: user.username.clone(),
                },
            );
        }
        i += 1;
    }
    list
}

/// Restarts a session: its estimations are deleted and it is open again,
/// whatever state it was in. Answers how many sessions that touched: 1, or 0
/// where the store knows no such session.
pub fn restart_session(store: &mut Store, session_id: usize) -> (changed: usize)
    requires
        old(store)@.wf(),
    ensures
        final(store)@.wf(),
        final(store)@ == old(store)@.restart(session_id),
        final(store)@.list(session_id) == Seq::<EstimationWithUser>::empty(),
        old(store)@.known_session(session_id) ==> final(store)@.sessions[session_id - 1].finished == 0,
        changed == (if old(store)@.known_session(session_id) { 1usize } else { 0usize }),
{
    let mut kept: Vec<EstimationRow> = Vec::new();
    let mut i: usize = 0;
    while i < store.estimations.len()
        invariant
            *store == *old(store),
            i <= store.estimations@.len(),
            kept@ == store@.others(session_id, i as int),
        decreases store.estimations@.len() - i,
    {
        let row = &store.estimations[i];
        if row.session_id != session_id {
            kept.push(
                EstimationRow {
                    id: row.id,
                    value: row.value.clone(),
                    session_id: row.session_id,
                    user_id: row.user_id,
                },
            );
        }
        i += 1;
    }
    store.estimations = kept;
    let changed = set_state(store, session_id, 0);
    proof {
        old(store)@.lemma_restart_clears(session_id);
    }
    changed
}

/// Finishes a session and answers the estimations that it holds at that
/// moment. Finishing a finished session changes nothing and answers the same
/// list.
pub fn finish_session(store: &mut Store, session_id: usize) -> (snapshot: Vec<EstimationWithUser>)
    requires
        old(store)@.wf(),
    ensures
        final(store)@.wf(),
        final(store)@ == old(store)@.finish(session_id),
        snapshot@ == old(store)@.list(session_id),
        snapshot@ == final(store)@.list(session_id),
        old(store)@.known_session(session_id) ==> final(store)@.sessions[session_id - 1].finished == 1,
{
    proof {
        old(store)@.lemma_finish_idempotent(session_id);
    }
    set_state(store, session_id, 1);
    find_estimations(store, session_id)
}

fn set_state(store: &mut Store, session_id: usize, finished: u8) -> (changed: usize)
    ensures
        final(store)@ == (StoreView {
            sessions: old(store)@.sessions_with(session_id, finished),
            ..old(store)@
        }),
        changed == (if old(store)@.known_session(session_id) { 1usize } else { 0usize }),
{
    if session_id < 1 || session_id > store.sessions.len() {
        return 0;
    }
    let row = &store.sessions[session_id - 1];
    let next = SessionRow {
        id: row.id,
        tg_chat_id: row.tg_chat_id,
        tg_message_id: row.tg_message_id,
        title: row.title.clone(),
        description: row.description.clone(),
        finished,
        initiator_id: row.initiator_id,
    };
    store.sessions.set(session_id - 1, next);
    1
}

} // verus!
