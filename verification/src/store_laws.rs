//! What holds of the store whatever is done to it: every operation keeps it
//! well formed, a participant has one estimation in a session at most, the
//! value submitted last is the one that stays, a restart leaves nothing
//! behind, and finishing twice is finishing once.

use crate::db::{EstimationWithUser, StoreError, StoreView, SubmitOutcome};
use vstd::prelude::*;

verus! {

impl StoreView {
    /// A participant from outside stands at one place only.
    pub proof fn lemma_user_place(self, i: int)
        requires
            self.wf(),
            0 <= i < self.users.len(),
        ensures
            self.has_user(self.users[i].tg_id),
            self.user_place(self.users[i].tg_id) == i,
    {
        let j = self.user_place(self.users[i].tg_id);
        assert(self.users[j].tg_id == self.users[i].tg_id);
    }

    /// A place in a chat has one session only.
    pub proof fn lemma_anchor_place(self, i: int)
        requires
            self.wf(),
            0 <= i < self.sessions.len(),
        ensures
            self.has_anchor(self.sessions[i].tg_chat_id, self.sessions[i].tg_message_id),
            self.anchor_place(self.sessions[i].tg_chat_id, self.sessions[i].tg_message_id) == i,
    {
        let j = self.anchor_place(self.sessions[i].tg_chat_id, self.sessions[i].tg_message_id);
        assert(self.sessions[j].tg_chat_id == self.sessions[i].tg_chat_id);
    }

    /// A participant's estimation in a session stands at one place only.
    pub proof fn lemma_row_place(self, i: int)
        requires
            self.wf(),
            0 <= i < self.estimations.len(),
        ensures
            self.has_row(self.estimations[i].session_id, self.estimations[i].user_id),
            self.row_place(self.estimations[i].session_id, self.estimations[i].user_id) == i,
    {
        let j = self.row_place(self.estimations[i].session_id, self.estimations[i].user_id);
        assert(self.estimations[j].session_id == self.estimations[i].session_id);
    }

    /// What is left when a session's estimations are taken out: rows that
    /// were there, none of that session.
    pub proof fn lemma_others(self, session_id: usize, n: int)
        requires
            self.wf(),
            0 <= n <= self.estimations.len(),
        ensures
            forall|i: int|
                0 <= i < self.others(session_id, n).len() ==> (#[trigger] self.others(
                    session_id,
                    n,
                )[i]).session_id != session_id,
            forall|i: int|
                0 <= i < self.others(session_id, n).len() ==> exists|k: int|
                    0 <= k < n && self.estimations[k] == #[trigger] self.others(session_id, n)[i],
            forall|i: int, j: int|
                0 <= i < j < self.others(session_id, n).len() ==> !((#[trigger] self.others(
                    session_id,
                    n,
                )[i]).session_id == (#[trigger] self.others(session_id, n)[j]).session_id
                    && self.others(session_id, n)[i].user_id == self.others(session_id, n)[j].user_id),
        decreases n,
    {
        if n > 0 {
            self.lemma_others(session_id, n - 1);
            let before = self.others(session_id, n - 1);
            let now = self.others(session_id, n);
            if self.estimations[n - 1].session_id != session_id {
                assert forall|i: int| 0 <= i < now.len() implies exists|k: int|
                    0 <= k < n && self.estimations[k] == #[trigger] now[i] by {
                    if i < before.len() {
                        let k = choose|k: int| 0 <= k < n - 1 && self.estimations[k] == before[i];
                        assert(self.estimations[k] == now[i]);
                    } else {
                        assert(self.estimations[n - 1] == now[i]);
                    }
                }
                assert forall|i: int, j: int| 0 <= i < j < now.len() implies !((#[trigger] now[i]).session_id
                    == (#[trigger] now[j]).session_id && now[i].user_id == now[j].user_id) by {
                    if j == before.len() {
                        let k = choose|k: int| 0 <= k < n - 1 && self.estimations[k] == before[i];
                        assert(self.estimations[k].session_id == now[i].session_id);
                        assert(self.estimations[n - 1].session_id == now[j].session_id);
                    } else {
                        assert(before[i] == now[i] && before[j] == now[j]);
                    }
                }
            }
        }
    }

    /// A session of which no estimation is left has an empty list.
    pub proof fn lemma_listing_empty(self, session_id: usize, n: int)
        requires
            0 <= n <= self.estimations.len(),
            forall|i: int| 0 <= i < n ==> (#[trigger] self.estimations[i]).session_id != session_id,
        ensures
            self.listing(session_id, n).len() == 0,
        decreases n,
    {
        if n > 0 {
            self.lemma_listing_empty(session_id, n - 1);
        }
    }

    /// A session's list reads the participants and the estimations, and
    /// nothing else.
    pub proof fn lemma_listing_frame(self, other: StoreView, session_id: usize, n: int)
        requires
            self.users == other.users,
            self.estimations == other.estimations,
        ensures
            self.listing(session_id, n) == other.listing(session_id, n),
        decreases n,
    {
        if n > 0 {
            self.lemma_listing_frame(other, session_id, n - 1);
        }
    }

    /// Seeing a participant keeps the store well formed.
    pub proof fn lemma_resolve_wf(
        self,
        tg_id: u64,
        first_name: String,
        last_name: String,
        username: String,
    )
        requires
            self.wf(),
        ensures
            self.resolve(tg_id, first_name, last_name, username).wf(),
    {
        let after = self.resolve(tg_id, first_name, last_name, username);
        let n = self.users.len() as int;
        if self.has_user(tg_id) {
            let p = self.user_place(tg_id);
            assert forall|a: int| 0 <= a < n implies (#[trigger] after.users[a]).tg_id
                == self.users[a].tg_id && after.users[a].id == self.users[a].id by {}
            assert forall|a: int, b: int| 0 <= a < b < after.users.len() implies #[trigger] after.users[a].tg_id
                != #[trigger] after.users[b].tg_id by {
                assert(self.users[a].tg_id == after.users[a].tg_id);
                assert(self.users[b].tg_id == after.users[b].tg_id);
            }
            assert(after.users.len() == n);
            assert forall|a: int| 0 <= a < after.sessions.len() implies after.known_user(
                #[trigger] after.sessions[a].initiator_id,
            ) by {
                assert(self.known_user(self.sessions[a].initiator_id));
            }
            assert forall|a: int| 0 <= a < after.estimations.len() implies after.known_session(
                #[trigger] after.estimations[a].session_id,
            ) && after.known_user(after.estimations[a].user_id) by {
                assert(self.known_session(self.estimations[a].session_id));
            }
            assert(after.wf());
        } else if n < usize::MAX {
            assert forall|a: int| 0 <= a < n implies #[trigger] after.users[a] == self.users[a] by {}
            assert forall|a: int| 0 <= a < after.users.len() implies #[trigger] after.users[a].id == a + 1 by {
                if a < n {
                    assert(self.users[a].id == a + 1);
                }
            }
            assert forall|a: int, b: int| 0 <= a < b < after.users.len() implies #[trigger] after.users[a].tg_id
                != #[trigger] after.users[b].tg_id by {
                assert(self.users[a].tg_id == after.users[a].tg_id);
                if b < n {
                    assert(self.users[b].tg_id == after.users[b].tg_id);
                }
            }
            assert forall|a: int| 0 <= a < after.sessions.len() implies after.known_user(
                #[trigger] after.sessions[a].initiator_id,
            ) by {
                assert(self.known_user(self.sessions[a].initiator_id));
            }
            assert forall|a: int| 0 <= a < after.estimations.len() implies after.known_session(
                #[trigger] after.estimations[a].session_id,
            ) && after.known_user(after.estimations[a].user_id) by {
                assert(self.known_session(self.estimations[a].session_id));
            }
            assert(after.wf());
        }
    }

    /// Opening a session keeps the store well formed.
    pub proof fn lemma_create_wf(
        self,
        chat_id: i64,
        message_id: i32,
        title: String,
        description: String,
        initiator_id: usize,
    )
        requires
            self.wf(),
        ensures
            self.create(chat_id, message_id, title, description, initiator_id).wf(),
    {
        let after = self.create(chat_id, message_id, title, description, initiator_id);
        let n = self.sessions.len() as int;
        if self.create_result(chat_id, message_id, initiator_id) is Ok {
            assert forall|a: int| 0 <= a < n implies #[trigger] after.sessions[a] == self.sessions[a] by {}
            assert forall|a: int| 0 <= a < after.sessions.len() implies #[trigger] after.sessions[a].id
                == a + 1 by {
                if a < n {
                    assert(self.sessions[a].id == a + 1);
                }
            }
            assert forall|a: int| 0 <= a < after.sessions.len() implies after.known_user(
                #[trigger] after.sessions[a].initiator_id,
            ) by {
                if a < n {
                    assert(self.known_user(self.sessions[a].initiator_id));
                }
            }
            assert forall|a: int, b: int| 0 <= a < b < after.sessions.len() implies !(
            #[trigger] after.sessions[a].tg_chat_id == #[trigger] after.sessions[b].tg_chat_id
                && after.sessions[a].tg_message_id == after.sessions[b].tg_message_id) by {
                assert(self.sessions[a].tg_chat_id == after.sessions[a].tg_chat_id);
                if b < n {
                    assert(self.sessions[b].tg_chat_id == after.sessions[b].tg_chat_id);
                }
            }
            assert forall|a: int| 0 <= a < after.estimations.len() implies after.known_session(
                #[trigger] after.estimations[a].session_id,
            ) && after.known_user(after.estimations[a].user_id) by {
                assert(self.known_session(self.estimations[a].session_id));
            }
            assert(after.wf());
        }
    }

    /// Another lifecycle state for one session leaves the sessions as well
    /// formed as they were.
    pub proof fn lemma_state_keeps_wf(self, session_id: usize, finished: u8)
        requires
            self.wf(),
        ensures
            (StoreView { sessions: self.sessions_with(session_id, finished), ..self }).wf(),
    {
        let after = StoreView { sessions: self.sessions_with(session_id, finished), ..self };
        assert(after.sessions.len() == self.sessions.len());
        assert forall|i: int| 0 <= i < after.estimations.len() implies after.known_session(
            #[trigger] after.estimations[i].session_id,
        ) && after.known_user(after.estimations[i].user_id) by {
            assert(self.known_session(self.estimations[i].session_id));
        }
        assert forall|i: int| 0 <= i < after.sessions.len() implies (#[trigger] after.sessions[i]).id
            == self.sessions[i].id && after.sessions[i].tg_chat_id == self.sessions[i].tg_chat_id
            && after.sessions[i].tg_message_id == self.sessions[i].tg_message_id
            && after.sessions[i].initiator_id == self.sessions[i].initiator_id by {}
        assert forall|i: int, j: int| 0 <= i < j < after.sessions.len() implies !(
        #[trigger] after.sessions[i].tg_chat_id == #[trigger] after.sessions[j].tg_chat_id
            && after.sessions[i].tg_message_id == after.sessions[j].tg_message_id) by {
            assert(self.sessions[i].tg_chat_id == after.sessions[i].tg_chat_id);
            assert(self.sessions[j].tg_chat_id == after.sessions[j].tg_chat_id);
        }
    }

    /// After a restart the session has no estimation and is open, whatever
    /// state it was in; the rest of the store holds as before.
    pub proof fn lemma_restart_clears(self, session_id: usize)
        requires
            self.wf(),
        ensures
            self.restart(session_id).wf(),
            self.restart(session_id).list(session_id) == Seq::<EstimationWithUser>::empty(),
            self.known_session(session_id) ==> self.restart(session_id).sessions[session_id - 1].finished
                == 0,
    {
        let after = self.restart(session_id);
        self.lemma_state_keeps_wf(session_id, 0);
        self.lemma_others(session_id, self.estimations.len() as int);
        after.lemma_listing_empty(session_id, after.estimations.len() as int);
        assert(after.list(session_id) =~= Seq::<EstimationWithUser>::empty());
        assert forall|i: int| 0 <= i < after.estimations.len() implies after.known_session(
            #[trigger] after.estimations[i].session_id,
        ) && after.known_user(after.estimations[i].user_id) by {
            let k = choose|k: int|
                0 <= k < self.estimations.len() && self.estimations[k] == after.estimations[i];
            assert(self.known_session(self.estimations[k].session_id));
        }
    }

    /// Finishing a finished session changes nothing, and finishing changes
    /// no list: the snapshot of a second call is that of the first.
    pub proof fn lemma_finish_idempotent(self, session_id: usize)
        requires
            self.wf(),
        ensures
            self.finish(session_id).wf(),
            self.finish(session_id).finish(session_id) == self.finish(session_id),
            self.finish(session_id).list(session_id) == self.list(session_id),
            self.known_session(session_id) ==> self.finish(session_id).sessions[session_id - 1].finished
                == 1,
    {
        let once = self.finish(session_id);
        self.lemma_state_keeps_wf(session_id, 1);
        self.lemma_listing_frame(once, session_id, self.estimations.len() as int);
        assert(once.finish(session_id).sessions =~= once.sessions);
    }

    /// After a submission that the store accepted, the participant's row in
    /// that session holds the submitted value, every other participant's
    /// value is what it was, and still nobody has two rows.
    pub proof fn lemma_submit_value(self, user_id: usize, session_id: usize, value: String)
        requires
            self.wf(),
            self.submit_result(user_id, session_id, value@) is Ok,
        ensures
            self.submit(user_id, session_id, value).wf(),
            self.submit(user_id, session_id, value).value_of(session_id, user_id) == Some(value@),
            forall|s: usize, u: usize|
                !(s == session_id && u == user_id) ==> #[trigger] self.submit(
                    user_id,
                    session_id,
                    value,
                ).value_of(s, u) == self.value_of(s, u),
            self.submit(user_id, session_id, value).users == self.users,
            self.submit(user_id, session_id, value).sessions == self.sessions,
    {
        let after = self.submit(user_id, session_id, value);
        if self.has_row(session_id, user_id) {
            let i = self.row_place(session_id, user_id);
            if self.estimations[i].value@ != value@ {
                assert(after.estimations[i].session_id == session_id);
                assert forall|k: int| 0 <= k < after.estimations.len() implies (
                #[trigger] after.estimations[k]).session_id == self.estimations[k].session_id
                    && after.estimations[k].user_id == self.estimations[k].user_id by {}
                assert forall|k: int, j: int| 0 <= k < j < after.estimations.len() implies !(
                #[trigger] after.estimations[k].session_id == #[trigger] after.estimations[j].session_id
                    && after.estimations[k].user_id == after.estimations[j].user_id) by {
                    assert(self.estimations[k].session_id == after.estimations[k].session_id);
                    assert(self.estimations[j].session_id == after.estimations[j].session_id);
                }
                assert(after.wf());
                after.lemma_row_place(i);
                assert forall|s: usize, u: usize| !(s == session_id && u == user_id) implies #[trigger] after.value_of(
                    s,
                    u,
                ) == self.value_of(s, u) by {
                    self.lemma_submit_frame(after, s, u, i);
                }
            }
        } else if self.next_estimation_id != usize::MAX {
            let i = self.estimations.len() as int;
            assert(after.estimations[i].session_id == session_id);
            assert forall|k: int| 0 <= k < i implies #[trigger] after.estimations[k]
                == self.estimations[k] by {}
            assert forall|k: int| 0 <= k < after.estimations.len() implies after.known_session(
                #[trigger] after.estimations[k].session_id,
            ) && after.known_user(after.estimations[k].user_id) by {
                if k < i {
                    assert(self.known_session(self.estimations[k].session_id));
                }
            }
            assert forall|k: int, j: int| 0 <= k < j < after.estimations.len() implies !(
            #[trigger] after.estimations[k].session_id == #[trigger] after.estimations[j].session_id
                && after.estimations[k].user_id == after.estimations[j].user_id) by {
                assert(self.estimations[k].session_id == after.estimations[k].session_id);
                if j < i {
                    assert(self.estimations[j].session_id == after.estimations[j].session_id);
                }
            }
            assert(after.wf());
            after.lemma_row_place(i);
            assert forall|s: usize, u: usize| !(s == session_id && u == user_id) implies #[trigger] after.value_of(
                s,
                u,
            ) == self.value_of(s, u) by {
                self.lemma_submit_frame(after, s, u, i);
            }
        }
    }

    /// Two stores that differ in one row at most agree on every other key.
    proof fn lemma_submit_frame(self, after: StoreView, s: usize, u: usize, i: int)
        requires
            self.wf(),
            after.wf(),
            0 <= i < after.estimations.len(),
            self.estimations.len() == after.estimations.len() || (self.estimations.len() == i
                && after.estimations.len() == i + 1),
            forall|k: int|
                0 <= k < self.estimations.len() && k != i ==> self.estimations[k] == after.estimations[k],
            i < self.estimations.len() ==> self.estimations[i].session_id == after.estimations[i].session_id
                && self.estimations[i].user_id == after.estimations[i].user_id,
            !(after.estimations[i].session_id == s && after.estimations[i].user_id == u),
        ensures
            after.value_of(s, u) == self.value_of(s, u),
    {
        if self.has_row(s, u) {
            let k = self.row_place(s, u);
            assert(after.estimations[k].session_id == s);
            after.lemma_row_place(k);
        } else if after.has_row(s, u) {
            let k = after.row_place(s, u);
            assert(self.estimations[k].session_id == s);
        }
    }

    /// The store after the first `n` of a run of submissions to one session,
    /// each by a participant and with a value, taken one after the other.
    pub open spec fn submit_all(self, session_id: usize, run: Seq<(usize, String)>, n: int) -> StoreView
        decreases n,
    {
        if n <= 0 {
            self
        } else {
            self.submit_all(session_id, run, n - 1).submit(run[n - 1].0, session_id, run[n - 1].1)
        }
    }

    /// Whether the store accepts each of the first `n` submissions of a run.
    pub open spec fn all_accepted(self, session_id: usize, run: Seq<(usize, String)>, n: int) -> bool
        decreases n,
    {
        n <= 0 || (self.all_accepted(session_id, run, n - 1) && self.submit_all(
            session_id,
            run,
            n - 1,
        ).submit_result(run[n - 1].0, session_id, run[n - 1].1@) is Ok)
    }

    /// The value that a participant submitted last among the first `n`
    /// submissions of a run.
    pub open spec fn last_value(run: Seq<(usize, String)>, user_id: usize, n: int) -> Option<Seq<char>>
        decreases n,
    {
        if n <= 0 {
            None
        } else if run[n - 1].0 == user_id {
            Some(run[n - 1].1@)
        } else {
            Self::last_value(run, user_id, n - 1)
        }
    }

    /// Whatever the order in which the submissions of several participants
    /// to one session reach the store, it ends well formed, so with one row
    /// for a participant at most; a participant who submitted holds the value
    /// submitted last, and one who did not holds what they held before, which
    /// is no row where they had none.
    pub proof fn lemma_last_submission_wins(
        self,
        session_id: usize,
        run: Seq<(usize, String)>,
        n: int,
        user_id: usize,
    )
        requires
            self.wf(),
            0 <= n <= run.len(),
            self.all_accepted(session_id, run, n),
        ensures
            self.submit_all(session_id, run, n).wf(),
            self.submit_all(session_id, run, n).value_of(session_id, user_id) == (match Self::last_value(
                run,
                user_id,
                n,
            ) {
                Some(value) => Some(value),
                None => self.value_of(session_id, user_id),
            }),
        decreases n,
    {
        if n > 0 {
            self.lemma_last_submission_wins(session_id, run, n - 1, user_id);
            self.submit_all(session_id, run, n - 1).lemma_submit_value(
                run[n - 1].0,
                session_id,
                run[n - 1].1,
            );
        }
    }

    /// How long a session's list is depends only on which session each
    /// estimation belongs to.
    proof fn lemma_listing_len(self, other: StoreView, session_id: usize, n: int)
        requires
            0 <= n <= self.estimations.len(),
            n <= other.estimations.len(),
            forall|k: int|
                0 <= k < n ==> (#[trigger] self.estimations[k]).session_id == other.estimations[k].session_id,
        ensures
            self.listing(session_id, n).len() == other.listing(session_id, n).len(),
        decreases n,
    {
        if n > 0 {
            self.lemma_listing_len(other, session_id, n - 1);
            assert(self.estimations[n - 1].session_id == other.estimations[n - 1].session_id);
        }
    }

    /// A submission that the store accepted makes the session's list one
    /// longer where the participant had no row there, and leaves its length
    /// alone where they had one; the list of any other session keeps its
    /// length.
    pub proof fn lemma_submit_count(self, user_id: usize, session_id: usize, value: String, listed: usize)
        requires
            self.wf(),
            self.submit_result(user_id, session_id, value@) is Ok,
        ensures
            self.submit(user_id, session_id, value).list(listed).len() == self.list(listed).len() + (if listed
                == session_id && !self.has_row(session_id, user_id) {
                1int
            } else {
                0int
            }),
    {
        let after = self.submit(user_id, session_id, value);
        let n = self.estimations.len() as int;
        if self.has_row(session_id, user_id) {
            let i = self.row_place(session_id, user_id);
            if self.estimations[i].value@ != value@ {
                assert forall|k: int| 0 <= k < n implies (#[trigger] self.estimations[k]).session_id
                    == after.estimations[k].session_id by {}
                self.lemma_listing_len(after, listed, n);
            }
        } else {
            assert forall|k: int| 0 <= k < n implies (#[trigger] self.estimations[k]).session_id
                == after.estimations[k].session_id by {}
            self.lemma_listing_len(after, listed, n);
            assert(after.estimations[n].session_id == session_id);
        }
    }

    /// How many different participants stand among the first `n`
    /// submissions of a run.
    pub open spec fn participants(run: Seq<(usize, String)>, n: int) -> int
        decreases n,
    {
        if n <= 0 {
            0
        } else {
            Self::participants(run, n - 1) + (if Self::last_value(run, run[n - 1].0, n - 1) is None {
                1int
            } else {
                0int
            })
        }
    }

    /// A session that had no estimation has, after a run of submissions
    /// that the store accepted, as many as there are different participants
    /// in the run: one row each, in whatever order and however often they
    /// submitted.
    pub proof fn lemma_one_row_per_participant(self, session_id: usize, run: Seq<(usize, String)>, n: int)
        requires
            self.wf(),
            0 <= n <= run.len(),
            self.all_accepted(session_id, run, n),
            forall|u: usize| !self.has_row(session_id, u),
        ensures
            self.submit_all(session_id, run, n).list(session_id).len() == self.list(session_id).len()
                + Self::participants(run, n),
        decreases n,
    {
        if n > 0 {
            let before = self.submit_all(session_id, run, n - 1);
            self.lemma_one_row_per_participant(session_id, run, n - 1);
            self.lemma_last_submission_wins(session_id, run, n - 1, run[n - 1].0);
            before.lemma_submit_count(run[n - 1].0, session_id, run[n - 1].1, session_id);
            assert(!self.has_row(session_id, run[n - 1].0));
        }
    }

    /// The same value again from the same participant is no operation: it
    /// is answered so, and the store stays as it is.
    pub proof fn lemma_resubmit_is_no_op(self, user_id: usize, session_id: usize, value: String, again: String)
        requires
            self.wf(),
            self.submit_result(user_id, session_id, value@) is Ok,
            again@ == value@,
        ensures
            self.submit(user_id, session_id, value).submit_result(user_id, session_id, again@) == Ok::<
                SubmitOutcome,
                StoreError,
            >(SubmitOutcome::NoOp),
            self.submit(user_id, session_id, value).submit(user_id, session_id, again) == self.submit(
                user_id,
                session_id,
                value,
            ),
    {
        self.lemma_submit_value(user_id, session_id, value);
    }
}

} // verus!
