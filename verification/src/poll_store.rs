//! The poll tables: polls, their options, and the votes cast on them.
//!
//! This models the poll service's persistent rows; persisting them is the
//! caller's business. Each operation is the compute half of one storage
//! call: it states exactly which rows change, and every failure is
//! reported rather than swallowed, so an operation either fully happened
//! or was reported as failed.

use vstd::prelude::*;

use crate::errors::Error;

verus! {

/// One poll: identity, owner, display fields, whether it still accepts
/// votes, and its creation time in seconds since the epoch.
#[derive(Debug)]
pub struct Poll {
    pub id: u128,
    pub user_id: u128,
    pub title: String,
    pub description: String,
    pub is_active: bool,
    pub created_at: i64,
}

impl Clone for Poll {
    fn clone(&self) -> (r: Self)
        ensures
            poll_agree(r, *self),
    {
        Poll {
            id: self.id,
            user_id: self.user_id,
            title: self.title.clone(),
            description: self.description.clone(),
            is_active: self.is_active,
            created_at: self.created_at,
        }
    }
}

/// One poll option and its denormalized vote count.
#[derive(Debug)]
pub struct PollOption {
    pub id: u128,
    pub poll_id: u128,
    pub option_text: String,
    pub votes_count: i32,
}

impl Clone for PollOption {
    fn clone(&self) -> (r: Self)
        ensures
            option_agree(r, *self),
    {
        PollOption {
            id: self.id,
            poll_id: self.poll_id,
            option_text: self.option_text.clone(),
            votes_count: self.votes_count,
        }
    }
}

/// One vote: who voted for which option.
#[derive(Clone, Copy, Debug, PartialEq, Eq, Structural)]
pub struct Vote {
    pub id: u128,
    pub user_id: u128,
    pub poll_option_id: u128,
}

/// Two polls agree field for field.
pub open spec fn poll_agree(a: Poll, b: Poll) -> bool {
    &&& a.id == b.id
    &&& a.user_id == b.user_id
    &&& a.title@ == b.title@
    &&& a.description@ == b.description@
    &&& a.is_active == b.is_active
    &&& a.created_at == b.created_at
}

/// Two options agree field for field.
pub open spec fn option_agree(a: PollOption, b: PollOption) -> bool {
    &&& a.id == b.id
    &&& a.poll_id == b.poll_id
    &&& a.option_text@ == b.option_text@
    &&& a.votes_count == b.votes_count
}

/// Two poll sequences agree entry for entry.
pub open spec fn polls_agree(a: Seq<Poll>, b: Seq<Poll>) -> bool {
    a.len() == b.len() && forall|i: int| 0 <= i < a.len() ==> poll_agree(#[trigger] a[i], b[i])
}

/// Two option sequences agree entry for entry.
pub open spec fn options_agree(a: Seq<PollOption>, b: Seq<PollOption>) -> bool {
    a.len() == b.len() && forall|i: int| 0 <= i < a.len() ==> option_agree(#[trigger] a[i], b[i])
}

/// Does an option with this id belong to this poll?
pub open spec fn option_in(options: Seq<PollOption>, option_id: u128, poll_id: u128) -> bool {
    exists|k: int|
        0 <= k < options.len() && options[k].id == option_id && (#[trigger] options[k]).poll_id
            == poll_id
}

/// The poll tables.
#[derive(Debug)]
pub struct PollStore {
    pub polls: Vec<Poll>,
    pub options: Vec<PollOption>,
    pub votes: Vec<Vote>,
}

impl PollStore {
    /// Is a poll with this id stored?
    pub open spec fn has_poll(self, id: u128) -> bool {
        exists|i: int| 0 <= i < self.polls@.len() && self.polls@[i].id == id
    }

    /// The index of the poll with this id.
    pub open spec fn poll_index(self, id: u128) -> int {
        choose|i: int| 0 <= i < self.polls@.len() && self.polls@[i].id == id
    }

    /// Is an option with this id stored?
    pub open spec fn has_option(self, id: u128) -> bool {
        exists|i: int| 0 <= i < self.options@.len() && self.options@[i].id == id
    }

    /// The index of the option with this id.
    pub open spec fn option_index(self, id: u128) -> int {
        choose|i: int| 0 <= i < self.options@.len() && self.options@[i].id == id
    }

    /// Has this user voted on any option of this poll?
    pub open spec fn user_voted(self, user_id: u128, poll_id: u128) -> bool {
        exists|i: int|
            0 <= i < self.votes@.len() && (#[trigger] self.votes@[i]).user_id == user_id
                && option_in(self.options@, self.votes@[i].poll_option_id, poll_id)
    }

    /// Well-formedness: poll ids and option ids are unique.
    pub open spec fn wf(self) -> bool {
        &&& forall|i: int, j: int|
            0 <= i < j < self.polls@.len() ==> #[trigger] self.polls@[i].id != #[trigger] self.polls@[j].id
        &&& forall|i: int, j: int|
            0 <= i < j < self.options@.len() ==> #[trigger] self.options@[i].id
                != #[trigger] self.options@[j].id
    }

    /// Empty tables.
    pub fn new() -> (r: PollStore)
        ensures
            r.wf(),
            r.polls@.len() == 0,
            r.options@.len() == 0,
            r.votes@.len() == 0,
    {
        PollStore { polls: Vec::new(), options: Vec::new(), votes: Vec::new() }
    }

    /// The index of the poll row with this id, if any.
    pub(crate) fn find_poll(&self, id: u128) -> (r: Option<usize>)
        ensures
            match r {
                Some(i) => i < self.polls@.len() && self.polls@[i as int].id == id,
                None => !self.has_poll(id),
            },
    {
        let n = self.polls.len();
        for i in 0..n
            invariant
                n == self.polls@.len(),
                forall|k: int| 0 <= k < i ==> self.polls@[k].id != id,
        {
            if self.polls[i].id == id {
                return Some(i);
            }
        }
        None
    }

    /// The index of the option row with this id, if any.
    pub(crate) fn find_option(&self, id: u128) -> (r: Option<usize>)
        ensures
            match r {
                Some(i) => i < self.options@.len() && self.options@[i as int].id == id,
                None => !self.has_option(id),
            },
    {
        let n = self.options.len();
        for i in 0..n
            invariant
                n == self.options@.len(),
                forall|k: int| 0 <= k < i ==> self.options@[k].id != id,
        {
            if self.options[i].id == id {
                return Some(i);
            }
        }
        None
    }

    /// Does an option with this id belong to this poll?
    fn option_belongs(&self, option_id: u128, poll_id: u128) -> (r: bool)
        ensures
            r == option_in(self.options@, option_id, poll_id),
    {
        let n = self.options.len();
        for i in 0..n
            invariant
                n == self.options@.len(),
                forall|k: int|
                    0 <= k < i ==> !(self.options@[k].id == option_id
                        && (#[trigger] self.options@[k]).poll_id == poll_id),
        {
            if self.options[i].id == option_id && self.options[i].poll_id == poll_id {
                return true;
            }
        }
        false
    }

    /// Inserts a new poll row, active and empty of options. Fails with
    /// `DatabaseError` exactly when the id is already taken.
    pub fn create_poll(
        &mut self,
        poll_id: u128,
        user_id: u128,
        poll_name: &str,
        poll_description: &str,
        created_at: i64,
    ) -> (r: Result<(), Error>)
        requires
            old(self).wf(),
        ensures
            final(self).wf(),
            final(self).options == old(self).options,
            final(self).votes == old(self).votes,
            r is Ok <==> !old(self).has_poll(poll_id),
            r is Err ==> r == Err::<(), Error>(Error::DatabaseError) && *final(self) == *old(self),
            r is Ok ==> {
                &&& final(self).polls@.len() == old(self).polls@.len() + 1
                &&& forall|k: int|
                    0 <= k < old(self).polls@.len() ==> final(self).polls@[k] == old(
                        self,
                    ).polls@[k]
                &&& final(self).polls@.last().id == poll_id
                &&& final(self).polls@.last().user_id == user_id
                &&& final(self).polls@.last().title@ == poll_name@
                &&& final(self).polls@.last().description@ == poll_description@
                &&& final(self).polls@.last().is_active == true
                &&& final(self).polls@.last().created_at == created_at
            },
    {
        if self.find_poll(poll_id).is_some() {
            return Err(Error::DatabaseError);
        }
        let poll = Poll {
            id: poll_id,
            user_id,
            title: poll_name.to_owned(),
            description: poll_description.to_owned(),
            is_active: true,
            created_at,
        };
        self.polls.push(poll);
        proof {
            assert forall|i: int, j: int|
                0 <= i < j < self.polls@.len() implies #[trigger] self.polls@[i].id
                != #[trigger] self.polls@[j].id by {
                if j == self.polls@.len() - 1 {
                    assert(!old(self).has_poll(poll_id));
                }
            }
        }
        Ok(())
    }

    /// Inserts a new option row for an existing poll, with no votes yet.
    /// Fails with `DatabaseError` exactly when the option id is already
    /// taken or the poll does not exist.
    pub fn create_option(&mut self, option_id: u128, poll_id: u128, option_text: &str) -> (r:
        Result<(), Error>)
        requires
            old(self).wf(),
        ensures
            final(self).wf(),
            final(self).polls == old(self).polls,
            final(self).votes == old(self).votes,
            r is Ok <==> !old(self).has_option(option_id) && old(self).has_poll(poll_id),
            r is Err ==> r == Err::<(), Error>(Error::DatabaseError) && *final(self) == *old(self),
            r is Ok ==> {
                &&& final(self).options@.len() == old(self).options@.len() + 1
                &&& forall|k: int|
                    0 <= k < old(self).options@.len() ==> final(self).options@[k] == old(
                        self,
                    ).options@[k]
                &&& final(self).options@.last().id == option_id
                &&& final(self).options@.last().poll_id == poll_id
                &&& final(self).options@.last().option_text@ == option_text@
                &&& final(self).options@.last().votes_count == 0
            },
    {
        if self.find_option(option_id).is_some() {
            return Err(Error::DatabaseError);
        }
        if self.find_poll(poll_id).is_none() {
            return Err(Error::DatabaseError);
        }
        let option = PollOption {
            id: option_id,
            poll_id,
            option_text: option_text.to_owned(),
            votes_count: 0,
        };
        self.options.push(option);
        proof {
            assert forall|i: int, j: int|
                0 <= i < j < self.options@.len() implies #[trigger] self.options@[i].id
                != #[trigger] self.options@[j].id by {
                if j == self.options@.len() - 1 {
                    assert(!old(self).has_option(option_id));
                }
            }
        }
        Ok(())
    }

    /// Marks a poll as no longer accepting votes. A missing poll id leaves
    /// the tables unchanged, as an update matching no row does.
    pub fn close_poll(&mut self, poll_id: u128) -> (r: Result<(), Error>)
        requires
            old(self).wf(),
        ensures
            final(self).wf(),
            r is Ok,
            final(self).options == old(self).options,
            final(self).votes == old(self).votes,
            !old(self).has_poll(poll_id) ==> final(self).polls == old(self).polls,
            old(self).has_poll(poll_id) ==> poll_deactivated(*old(self), *final(self), poll_id),
    {
        let i = match self.find_poll(poll_id) {
            Some(i) => i,
            None => {
                return Ok(());
            },
        };
        proof {
            let k = self.poll_index(poll_id);
            assert(self.polls@[k].id == poll_id);
            assert(k == i);
        }
        let updated = Poll {
            id: self.polls[i].id,
            user_id: self.polls[i].user_id,
            title: self.polls[i].title.clone(),
            description: self.polls[i].description.clone(),
            is_active: false,
            created_at: self.polls[i].created_at,
        };
        self.polls.set(i, updated);
        proof {
            assert forall|a: int, b: int|
                0 <= a < b < self.polls@.len() implies #[trigger] self.polls@[a].id
                != #[trigger] self.polls@[b].id by {
                assert(old(self).polls@[a].id != old(self).polls@[b].id);
            }
        }
        Ok(())
    }

    /// Retrieves a copy of the poll row. Fails with `PollNotFound` exactly
    /// when the id resolves to no poll.
    pub fn get_poll(&self, poll_id: u128) -> (r: Result<Poll, Error>)
        requires
            self.wf(),
        ensures
            r is Ok <==> self.has_poll(poll_id),
            r matches Ok(p) ==> poll_agree(p, self.polls@[self.poll_index(poll_id)]),
            r is Err ==> r == Err::<Poll, Error>(Error::PollNotFound),
    {
        match self.find_poll(poll_id) {
            Some(i) => {
                proof {
                    let k = self.poll_index(poll_id);
                    assert(self.polls@[k].id == poll_id);
                    assert(k == i);
                }
                Ok(self.polls[i].clone())
            },
            None => Err(Error::PollNotFound),
        }
    }

    /// Is the poll still accepting votes? Fails with `PollNotFound` exactly
    /// when the id resolves to no poll.
    pub fn is_poll_active(&self, poll_id: u128) -> (r: Result<bool, Error>)
        requires
            self.wf(),
        ensures
            r is Ok <==> self.has_poll(poll_id),
            r matches Ok(b) ==> b == self.polls@[self.poll_index(poll_id)].is_active,
            r is Err ==> r == Err::<bool, Error>(Error::PollNotFound),
    {
        match self.find_poll(poll_id) {
            Some(i) => {
                proof {
                    let k = self.poll_index(poll_id);
                    assert(self.polls@[k].id == poll_id);
                    assert(k == i);
                }
                Ok(self.polls[i].is_active)
            },
            None => Err(Error::PollNotFound),
        }
    }

    /// The owner of the poll, if it exists. Fails with `PollNotFound`
    /// exactly when the id resolves to no poll.
    pub fn does_poll_exist(&self, poll_id: u128) -> (r: Result<u128, Error>)
        requires
            self.wf(),
        ensures
            r is Ok <==> self.has_poll(poll_id),
            r matches Ok(owner) ==> owner == self.polls@[self.poll_index(poll_id)].user_id,
            r is Err ==> r == Err::<u128, Error>(Error::PollNotFound),
    {
        match self.find_poll(poll_id) {
            Some(i) => {
                proof {
                    let k = self.poll_index(poll_id);
                    assert(self.polls@[k].id == poll_id);
                    assert(k == i);
                }
                Ok(self.polls[i].user_id)
            },
            None => Err(Error::PollNotFound),
        }
    }

    /// Has this user already voted on this poll? The check spans the whole
    /// poll, not just the presented option.
    pub fn has_user_voted(&self, _poll_option_id: u128, user_id: u128, poll_id: u128) -> (r: bool)
        ensures
            r == self.user_voted(user_id, poll_id),
    {
        let n = self.votes.len();
        for i in 0..n
            invariant
                n == self.votes@.len(),
                forall|k: int|
                    0 <= k < i ==> !((#[trigger] self.votes@[k]).user_id == user_id && option_in(
                        self.options@,
                        self.votes@[k].poll_option_id,
                        poll_id,
                    )),
        {
            if self.votes[i].user_id == user_id {
                if self.option_belongs(self.votes[i].poll_option_id, poll_id) {
                    return true;
                }
            }
        }
        false
    }

    /// Records a vote for an option. Fails with `DatabaseError` exactly
    /// when the option does not exist.
    pub fn vote(&mut self, poll_option_id: u128, user_id: u128, vote_id: u128) -> (r: Result<
        (),
        Error,
    >)
        requires
            old(self).wf(),
        ensures
            final(self).wf(),
            final(self).polls == old(self).polls,
            final(self).options == old(self).options,
            r is Ok <==> old(self).has_option(poll_option_id),
            r is Err ==> r == Err::<(), Error>(Error::DatabaseError) && *final(self) == *old(self),
            r is Ok ==> final(self).votes@ == old(self).votes@.push(
                Vote { id: vote_id, user_id, poll_option_id },
            ),
    {
        if self.find_option(poll_option_id).is_none() {
            return Err(Error::DatabaseError);
        }
        self.votes.push(Vote { id: vote_id, user_id, poll_option_id });
        Ok(())
    }

    /// Deletes this user's votes for this option.
    #[verifier::loop_isolation(false)]
    pub fn delete_vote(&mut self, poll_option_id: u128, user_id: u128) -> (r: Result<(), Error>)
        requires
            old(self).wf(),
        ensures
            final(self).wf(),
            r is Ok,
            final(self).polls == old(self).polls,
            final(self).options == old(self).options,
            final(self).votes@ == old(self).votes@.filter(vote_kept_for(user_id, poll_option_id)),
    {
        let ghost pred = vote_kept_for(user_id, poll_option_id);
        let mut kept: Vec<Vote> = Vec::new();
        let n = self.votes.len();
        proof {
            reveal(Seq::filter);
            assert(self.votes@.subrange(0, 0).filter(pred) =~= Seq::<Vote>::empty());
        }
        for i in 0..n
            invariant
                kept@ == self.votes@.subrange(0, i as int).filter(pred),
        {
            let v = self.votes[i];
            proof {
                reveal(Seq::filter);
                assert(self.votes@.subrange(0, i + 1).drop_last() =~= self.votes@.subrange(
                    0,
                    i as int,
                ));
                assert(self.votes@.subrange(0, i + 1).last() == self.votes@[i as int]);
            }
            if !(v.user_id == user_id && v.poll_option_id == poll_option_id) {
                kept.push(v);
            }
        }
        proof {
            assert(self.votes@.subrange(0, n as int) =~= self.votes@);
        }
        self.votes = kept;
        Ok(())
    }

    /// Deletes every vote cast on any option of this poll.
    #[verifier::loop_isolation(false)]
    pub fn delete_votes(&mut self, poll_id: u128) -> (r: Result<(), Error>)
        requires
            old(self).wf(),
        ensures
            final(self).wf(),
            r is Ok,
            final(self).polls == old(self).polls,
            final(self).options == old(self).options,
            final(self).votes@ == old(self).votes@.filter(
                vote_kept_outside(old(self).options@, poll_id),
            ),
    {
        let ghost pred = vote_kept_outside(self.options@, poll_id);
        let mut kept: Vec<Vote> = Vec::new();
        let n = self.votes.len();
        proof {
            reveal(Seq::filter);
            assert(self.votes@.subrange(0, 0).filter(pred) =~= Seq::<Vote>::empty());
        }
        for i in 0..n
            invariant
                kept@ == self.votes@.subrange(0, i as int).filter(pred),
        {
            let v = self.votes[i];
            let belongs = self.option_belongs(v.poll_option_id, poll_id);
            proof {
                reveal(Seq::filter);
                assert(self.votes@.subrange(0, i + 1).drop_last() =~= self.votes@.subrange(
                    0,
                    i as int,
                ));
                assert(self.votes@.subrange(0, i + 1).last() == self.votes@[i as int]);
            }
            if !belongs {
                kept.push(v);
            }
        }
        proof {
            assert(self.votes@.subrange(0, n as int) =~= self.votes@);
        }
        self.votes = kept;
        Ok(())
    }

    /// Resets the vote count of every option of this poll to zero.
    #[verifier::loop_isolation(false)]
    pub fn reset_votes_count(&mut self, poll_id: u128) -> (r: Result<(), Error>)
        requires
            old(self).wf(),
        ensures
            final(self).wf(),
            r is Ok,
            final(self).polls == old(self).polls,
            final(self).votes == old(self).votes,
            final(self).options@.len() == old(self).options@.len(),
            forall|k: int|
                0 <= k < old(self).options@.len() && old(self).options@[k].poll_id != poll_id
                    ==> final(self).options@[k] == old(self).options@[k],
            forall|k: int|
                0 <= k < old(self).options@.len() && (#[trigger] old(self).options@[k]).poll_id
                    == poll_id ==> option_agree(
                    final(self).options@[k],
                    PollOption {
                        id: old(self).options@[k].id,
                        poll_id: old(self).options@[k].poll_id,
                        option_text: old(self).options@[k].option_text,
                        votes_count: 0,
                    },
                ),
    {
        let n = self.options.len();
        for i in 0..n
            invariant
                n == self.options@.len() == old(self).options@.len(),
                self.polls == old(self).polls,
                self.votes == old(self).votes,
                forall|k: int|
                    i <= k < n ==> #[trigger] self.options@[k] == old(self).options@[k],
                forall|k: int|
                    0 <= k < i && old(self).options@[k].poll_id != poll_id ==> #[trigger] self.options@[k]
                        == old(self).options@[k],
                forall|k: int|
                    0 <= k < i && (#[trigger] old(self).options@[k]).poll_id == poll_id
                        ==> option_agree(
                        self.options@[k],
                        PollOption {
                            id: old(self).options@[k].id,
                            poll_id: old(self).options@[k].poll_id,
                            option_text: old(self).options@[k].option_text,
                            votes_count: 0,
                        },
                    ),
        {
            if self.options[i].poll_id == poll_id {
                let updated = PollOption {
                    id: self.options[i].id,
                    poll_id: self.options[i].poll_id,
                    option_text: self.options[i].option_text.clone(),
                    votes_count: 0,
                };
                self.options.set(i, updated);
            }
        }
        proof {
            assert forall|a: int, b: int|
                0 <= a < b < self.options@.len() implies #[trigger] self.options@[a].id
                != #[trigger] self.options@[b].id by {
                assert(self.options@[a].id == old(self).options@[a].id);
                assert(self.options@[b].id == old(self).options@[b].id);
            }
        }
        Ok(())
    }

    /// Deletes every option of this poll.
    #[verifier::loop_isolation(false)]
    pub fn delete_poll_options(&mut self, poll_id: u128) -> (r: Result<(), Error>)
        requires
            old(self).wf(),
        ensures
            final(self).wf(),
            r is Ok,
            final(self).polls == old(self).polls,
            final(self).votes == old(self).votes,
            options_agree(
                final(self).options@,
                old(self).options@.filter(option_kept_outside(poll_id)),
            ),
    {
        let ghost pred = option_kept_outside(poll_id);
        let mut kept: Vec<PollOption> = Vec::new();
        let n = self.options.len();
        proof {
            reveal(Seq::filter);
            assert(self.options@.subrange(0, 0).filter(pred) =~= Seq::<PollOption>::empty());
        }
        for i in 0..n
            invariant
                options_agree(kept@, self.options@.subrange(0, i as int).filter(pred)),
        {
            proof {
                reveal(Seq::filter);
                assert(self.options@.subrange(0, i + 1).drop_last() =~= self.options@.subrange(
                    0,
                    i as int,
                ));
                assert(self.options@.subrange(0, i + 1).last() == self.options@[i as int]);
            }
            if self.options[i].poll_id != poll_id {
                kept.push(self.options[i].clone());
            }
        }
        proof {
            assert(self.options@.subrange(0, n as int) =~= self.options@);
        }
        self.options = kept;
        proof {
            lemma_filter_keeps_distinct_ids(old(self).options@, pred);
            let filtered = old(self).options@.filter(pred);
            assert forall|a: int, b: int|
                0 <= a < b < self.options@.len() implies #[trigger] self.options@[a].id
                != #[trigger] self.options@[b].id by {
                assert(self.options@[a].id == filtered[a].id);
                assert(self.options@[b].id == filtered[b].id);
            }
        }
        Ok(())
    }

    /// Deletes the poll row itself.
    pub fn delete_poll(&mut self, poll_id: u128) -> (r: Result<(), Error>)
        requires
            old(self).wf(),
        ensures
            final(self).wf(),
            r is Ok,
            final(self).options == old(self).options,
            final(self).votes == old(self).votes,
            !old(self).has_poll(poll_id) ==> final(self).polls == old(self).polls,
            old(self).has_poll(poll_id) ==> final(self).polls@ == old(self).polls@.remove(
                old(self).poll_index(poll_id),
            ),
    {
        let i = match self.find_poll(poll_id) {
            Some(i) => i,
            None => {
                return Ok(());
            },
        };
        proof {
            let k = self.poll_index(poll_id);
            assert(self.polls@[k].id == poll_id);
            assert(k == i);
        }
        self.polls.remove(i);
        proof {
            assert forall|a: int, b: int|
                0 <= a < b < self.polls@.len() implies #[trigger] self.polls@[a].id
                != #[trigger] self.polls@[b].id by {
                let a0: int = if a < i { a } else { a + 1 };
                let b0: int = if b < i { b } else { b + 1 };
                assert(self.polls@[a] == old(self).polls@[a0]);
                assert(self.polls@[b] == old(self).polls@[b0]);
            }
        }
        Ok(())
    }

    /// Raises the denormalized vote count of an option by one. An id that
    /// matches no option changes nothing, as an update matching no row
    /// does; a count at its maximum fails with `DatabaseError`.
    pub fn increase_vote_count(&mut self, poll_option_id: u128) -> (r: Result<(), Error>)
        requires
            old(self).wf(),
        ensures
            final(self).wf(),
            final(self).polls == old(self).polls,
            final(self).votes == old(self).votes,
            !old(self).has_option(poll_option_id) ==> r is Ok && *final(self) == *old(self),
            old(self).has_option(poll_option_id) ==> {
                let k = old(self).option_index(poll_option_id);
                if old(self).options@[k].votes_count == i32::MAX {
                    r == Err::<(), Error>(Error::DatabaseError) && *final(self) == *old(self)
                } else {
                    r is Ok && counts_shifted(*old(self), *final(self), k, 1)
                }
            },
    {
        let i = match self.find_option(poll_option_id) {
            Some(i) => i,
            None => {
                return Ok(());
            },
        };
        proof {
            let k = self.option_index(poll_option_id);
            assert(self.options@[k].id == poll_option_id);
            assert(k == i);
        }
        if self.options[i].votes_count == i32::MAX {
            return Err(Error::DatabaseError);
        }
        let updated = PollOption {
            id: self.options[i].id,
            poll_id: self.options[i].poll_id,
            option_text: self.options[i].option_text.clone(),
            votes_count: self.options[i].votes_count + 1,
        };
        self.options.set(i, updated);
        proof {
            assert forall|a: int, b: int|
                0 <= a < b < self.options@.len() implies #[trigger] self.options@[a].id
                != #[trigger] self.options@[b].id by {
                assert(old(self).options@[a].id != old(self).options@[b].id);
            }
        }
        Ok(())
    }

    /// Lowers the denormalized vote count of an option by one. An id that
    /// matches no option changes nothing; a count at its minimum fails
    /// with `DatabaseError`.
    pub fn decrease_vote_count(&mut self, poll_option_id: u128) -> (r: Result<(), Error>)
        requires
            old(self).wf(),
        ensures
            final(self).wf(),
            final(self).polls == old(self).polls,
            final(self).votes == old(self).votes,
            !old(self).has_option(poll_option_id) ==> r is Ok && *final(self) == *old(self),
            old(self).has_option(poll_option_id) ==> {
                let k = old(self).option_index(poll_option_id);
                if old(self).options@[k].votes_count == i32::MIN {
                    r == Err::<(), Error>(Error::DatabaseError) && *final(self) == *old(self)
                } else {
                    r is Ok && counts_shifted(*old(self), *final(self), k, -1)
                }
            },
    {
        let i = match self.find_option(poll_option_id) {
            Some(i) => i,
            None => {
                return Ok(());
            },
        };
        proof {
            let k = self.option_index(poll_option_id);
            assert(self.options@[k].id == poll_option_id);
            assert(k == i);
        }
        if self.options[i].votes_count == i32::MIN {
            return Err(Error::DatabaseError);
        }
        let updated = PollOption {
            id: self.options[i].id,
            poll_id: self.options[i].poll_id,
            option_text: self.options[i].option_text.clone(),
            votes_count: self.options[i].votes_count - 1,
        };
        self.options.set(i, updated);
        proof {
            assert forall|a: int, b: int|
                0 <= a < b < self.options@.len() implies #[trigger] self.options@[a].id
                != #[trigger] self.options@[b].id by {
                assert(old(self).options@[a].id != old(self).options@[b].id);
            }
        }
        Ok(())
    }

    /// Copies of the polls created by this user, in storage order.
    #[verifier::loop_isolation(false)]
    pub fn get_user_polls_brief(&self, user_id: u128) -> (r: Vec<Poll>)
        ensures
            polls_agree(r@, self.polls@.filter(poll_owned_by(user_id))),
    {
        let ghost pred = poll_owned_by(user_id);
        let mut out: Vec<Poll> = Vec::new();
        let n = self.polls.len();
        proof {
            reveal(Seq::filter);
            assert(self.polls@.subrange(0, 0).filter(pred) =~= Seq::<Poll>::empty());
        }
        for i in 0..n
            invariant
                polls_agree(out@, self.polls@.subrange(0, i as int).filter(pred)),
        {
            proof {
                reveal(Seq::filter);
                assert(self.polls@.subrange(0, i + 1).drop_last() =~= self.polls@.subrange(
                    0,
                    i as int,
                ));
                assert(self.polls@.subrange(0, i + 1).last() == self.polls@[i as int]);
            }
            if self.polls[i].user_id == user_id {
                out.push(self.polls[i].clone());
            }
        }
        proof {
            assert(self.polls@.subrange(0, n as int) =~= self.polls@);
        }
        out
    }

    /// Copies of all polls, in storage order.
    pub fn get_all_polls(&self) -> (r: Vec<Poll>)
        ensures
            polls_agree(r@, self.polls@),
    {
        let mut out: Vec<Poll> = Vec::new();
        let n = self.polls.len();
        for i in 0..n
            invariant
                n == self.polls@.len(),
                out@.len() == i,
                forall|k: int| 0 <= k < i ==> poll_agree(#[trigger] out@[k], self.polls@[k]),
        {
            out.push(self.polls[i].clone());
        }
        out
    }

    /// Copies of the options of this poll, in storage order.
    #[verifier::loop_isolation(false)]
    pub fn get_poll_options_data(&self, poll_id: u128) -> (r: Vec<PollOption>)
        ensures
            options_agree(r@, self.options@.filter(option_of_poll(poll_id))),
    {
        let ghost pred = option_of_poll(poll_id);
        let mut out: Vec<PollOption> = Vec::new();
        let n = self.options.len();
        proof {
            reveal(Seq::filter);
            assert(self.options@.subrange(0, 0).filter(pred) =~= Seq::<PollOption>::empty());
        }
        for i in 0..n
            invariant
                options_agree(out@, self.options@.subrange(0, i as int).filter(pred)),
        {
            proof {
                reveal(Seq::filter);
                assert(self.options@.subrange(0, i + 1).drop_last() =~= self.options@.subrange(
                    0,
                    i as int,
                ));
                assert(self.options@.subrange(0, i + 1).last() == self.options@[i as int]);
            }
            if self.options[i].poll_id == poll_id {
                out.push(self.options[i].clone());
            }
        }
        proof {
            assert(self.options@.subrange(0, n as int) =~= self.options@);
        }
        out
    }
}

/// Keeps the votes that are not this user's vote for this option.
pub open spec fn vote_kept_for(user_id: u128, poll_option_id: u128) -> spec_fn(Vote) -> bool {
    |v: Vote| !(v.user_id == user_id && v.poll_option_id == poll_option_id)
}

/// Keeps the votes cast outside this poll.
pub open spec fn vote_kept_outside(options: Seq<PollOption>, poll_id: u128) -> spec_fn(Vote) -> bool {
    |v: Vote| !option_in(options, v.poll_option_id, poll_id)
}

/// Keeps the options that do not belong to this poll.
pub open spec fn option_kept_outside(poll_id: u128) -> spec_fn(PollOption) -> bool {
    |o: PollOption| o.poll_id != poll_id
}

/// Keeps the options of this poll.
pub open spec fn option_of_poll(poll_id: u128) -> spec_fn(PollOption) -> bool {
    |o: PollOption| o.poll_id == poll_id
}

/// Keeps the polls created by this user.
pub open spec fn poll_owned_by(user_id: u128) -> spec_fn(Poll) -> bool {
    |p: Poll| p.user_id == user_id
}

/// The store `post` is `pre` with the poll row of `poll_id` marked
/// inactive, all its other fields kept, and nothing else changed.
pub open spec fn poll_deactivated(pre: PollStore, post: PollStore, poll_id: u128) -> bool {
    let k = pre.poll_index(poll_id);
    &&& post.polls@.len() == pre.polls@.len()
    &&& forall|i: int| 0 <= i < pre.polls@.len() && i != k ==> post.polls@[i] == pre.polls@[i]
    &&& post.polls@[k].id == pre.polls@[k].id
    &&& post.polls@[k].user_id == pre.polls@[k].user_id
    &&& post.polls@[k].title@ == pre.polls@[k].title@
    &&& post.polls@[k].description@ == pre.polls@[k].description@
    &&& post.polls@[k].is_active == false
    &&& post.polls@[k].created_at == pre.polls@[k].created_at
}

/// The store `post` is `pre` with only the vote count of the option at
/// index `k` shifted by `d`, and nothing else changed.
pub open spec fn counts_shifted(pre: PollStore, post: PollStore, k: int, d: int) -> bool {
    &&& post.polls == pre.polls
    &&& post.votes == pre.votes
    &&& post.options@.len() == pre.options@.len()
    &&& forall|i: int|
        0 <= i < pre.options@.len() && i != k ==> post.options@[i] == pre.options@[i]
    &&& option_agree(
        post.options@[k],
        PollOption {
            id: pre.options@[k].id,
            poll_id: pre.options@[k].poll_id,
            option_text: pre.options@[k].option_text,
            votes_count: (pre.options@[k].votes_count + d) as i32,
        },
    )
}

/// Every element a filter keeps came from the original sequence: the
/// element at index `a` of the filtered sequence occurs in the original.
proof fn lemma_filter_index_map(s: Seq<PollOption>, pred: spec_fn(PollOption) -> bool, a: int)
    requires
        0 <= a < s.filter(pred).len(),
    ensures
        exists|i: int| 0 <= i < s.len() && s[i] == s.filter(pred)[a],
    decreases s.len(),
{
    reveal(Seq::filter);
    if s.len() > 0 {
        let sub = s.drop_last().filter(pred);
        if a < sub.len() {
            lemma_filter_index_map(s.drop_last(), pred, a);
            let i = choose|i: int|
                0 <= i < s.drop_last().len() && s.drop_last()[i] == s.drop_last().filter(pred)[a];
            assert(s[i] == s.filter(pred)[a]);
        } else {
            assert(s[s.len() - 1] == s.filter(pred)[a]);
        }
    }
}

/// Filtering a sequence of options with pairwise-distinct ids keeps the
/// ids pairwise distinct.
proof fn lemma_filter_keeps_distinct_ids(s: Seq<PollOption>, pred: spec_fn(PollOption) -> bool)
    requires
        forall|i: int, j: int| 0 <= i < j < s.len() ==> #[trigger] s[i].id != #[trigger] s[j].id,
    ensures
        forall|a: int, b: int|
            0 <= a < b < s.filter(pred).len() ==> #[trigger] s.filter(pred)[a].id
                != #[trigger] s.filter(pred)[b].id,
    decreases s.len(),
{
    reveal(Seq::filter);
    if s.len() > 0 {
        lemma_filter_keeps_distinct_ids(s.drop_last(), pred);
        let sub = s.drop_last().filter(pred);
        let out = s.filter(pred);
        if pred(s.last()) {
            assert forall|a: int| 0 <= a < sub.len() implies #[trigger] sub[a].id != s.last().id by {
                lemma_filter_index_map(s.drop_last(), pred, a);
                let i = choose|i: int|
                    0 <= i < s.drop_last().len() && s.drop_last()[i] == s.drop_last().filter(
                        pred,
                    )[a];
                assert(s[i] == sub[a]);
                assert(s[i].id != s[s.len() - 1].id);
            }
            assert(out == sub.push(s.last()));
        } else {
            assert(out == sub);
        }
    }
}

} // verus!
