//! The poll service: what each poll request decides and changes.
//!
//! Every function here is the decision-and-mutation core of one request
//! handler: it takes the session and the poll tables, states exactly which
//! error is returned on which input, and on success states exactly which
//! rows change. Transport, serialization and timing stay with the caller.

use vstd::prelude::*;

use crate::errors::Error;
use crate::poll_store::{
    option_agree, options_agree, option_kept_outside, option_of_poll, poll_deactivated,
    polls_agree, poll_owned_by, vote_kept_for, vote_kept_outside, Poll, PollOption, PollStore,
    Vote,
};
use crate::rp;
use crate::session::Session;

verus! {

/// The ownership check poll mutations are guarded by: the session must be
/// bound to a user, the poll must exist, and the bound user must own it.
pub fn poll_valid_owner_authorized(store: &PollStore, session: &Session, poll_id: u128) -> (r:
    Result<(), Error>)
    requires
        store.wf(),
    ensures
        session.user is None ==> r == Err::<(), Error>(Error::Unauthorized),
        session.user matches Some(u) ==> r == (if !store.has_poll(poll_id) {
            Err::<(), Error>(Error::PollNotFound)
        } else if store.polls@[store.poll_index(poll_id)].user_id != u {
            Err::<(), Error>(Error::Unauthorized)
        } else {
            Ok::<(), Error>(())
        }),
{
    let user_id = match session.validate_session() {
        Ok(u) => u,
        Err(_) => {
            return Err(Error::Unauthorized);
        },
    };
    let owner = match store.does_poll_exist(poll_id) {
        Ok(owner) => owner,
        Err(_) => {
            return Err(Error::PollNotFound);
        },
    };
    if owner != user_id {
        return Err(Error::Unauthorized);
    }
    Ok(())
}

/// Closes a poll to further voting. Only the owner, in an authenticated
/// session, may close it; a missing poll reports `PollNotFound` and any
/// other authorization failure `Unauthorized`.
pub fn close_poll(store: &mut PollStore, session: &Session, poll_id: u128) -> (r: Result<
    (),
    Error,
>)
    requires
        old(store).wf(),
    ensures
        final(store).wf(),
        r is Err ==> *final(store) == *old(store),
        session.user is None ==> r == Err::<(), Error>(Error::Unauthorized),
        session.user matches Some(u) ==> r == (if !old(store).has_poll(poll_id) {
            Err::<(), Error>(Error::PollNotFound)
        } else if old(store).polls@[old(store).poll_index(poll_id)].user_id != u {
            Err::<(), Error>(Error::Unauthorized)
        } else {
            Ok::<(), Error>(())
        }),
        r is Ok ==> poll_deactivated(*old(store), *final(store), poll_id) && final(store).options
            == old(store).options && final(store).votes == old(store).votes,
{
    match poll_valid_owner_authorized(store, session, poll_id) {
        Ok(()) => {},
        Err(e) => {
            return Err(
                match e {
                    Error::PollNotFound => Error::PollNotFound,
                    _ => Error::Unauthorized,
                },
            );
        },
    }
    match store.close_poll(poll_id) {
        Ok(()) => Ok(()),
        Err(e) => Err(e),
    }
}

/// Resets a poll: deletes every vote cast on it and zeroes the vote count
/// of each of its options. Only the owner, in an authenticated session,
/// may reset it.
pub fn reset_poll(store: &mut PollStore, session: &Session, poll_id: u128) -> (r: Result<
    (),
    Error,
>)
    requires
        old(store).wf(),
    ensures
        final(store).wf(),
        r is Err ==> *final(store) == *old(store),
        session.user is None ==> r == Err::<(), Error>(Error::Unauthorized),
        session.user matches Some(u) ==> r == (if !old(store).has_poll(poll_id) {
            Err::<(), Error>(Error::PollNotFound)
        } else if old(store).polls@[old(store).poll_index(poll_id)].user_id != u {
            Err::<(), Error>(Error::Unauthorized)
        } else {
            Ok::<(), Error>(())
        }),
        r is Ok ==> {
            &&& final(store).polls == old(store).polls
            &&& final(store).votes@ == old(store).votes@.filter(
                vote_kept_outside(old(store).options@, poll_id),
            )
            &&& final(store).options@.len() == old(store).options@.len()
            &&& forall|k: int|
                0 <= k < old(store).options@.len() && old(store).options@[k].poll_id != poll_id
                    ==> final(store).options@[k] == old(store).options@[k]
            &&& forall|k: int|
                0 <= k < old(store).options@.len() && (#[trigger] old(
                    store,
                ).options@[k]).poll_id == poll_id ==> option_agree(
                    final(store).options@[k],
                    PollOption {
                        id: old(store).options@[k].id,
                        poll_id: old(store).options@[k].poll_id,
                        option_text: old(store).options@[k].option_text,
                        votes_count: 0,
                    },
                )
        },
{
    match poll_valid_owner_authorized(store, session, poll_id) {
        Ok(()) => {},
        Err(e) => {
            return Err(
                match e {
                    Error::PollNotFound => Error::PollNotFound,
                    _ => Error::Unauthorized,
                },
            );
        },
    }
    match store.delete_votes(poll_id) {
        Ok(()) => {},
        Err(e) => {
            return Err(e);
        },
    }
    match store.reset_votes_count(poll_id) {
        Ok(()) => Ok(()),
        Err(e) => Err(e),
    }
}

/// Deletes a poll with its options and votes. Only the owner, in an
/// authenticated session, may delete it.
pub fn delete_poll(store: &mut PollStore, session: &Session, poll_id: u128) -> (r: Result<
    (),
    Error,
>)
    requires
        old(store).wf(),
    ensures
        final(store).wf(),
        r is Err ==> *final(store) == *old(store),
        session.user is None ==> r == Err::<(), Error>(Error::Unauthorized),
        session.user matches Some(u) ==> r == (if !old(store).has_poll(poll_id) {
            Err::<(), Error>(Error::PollNotFound)
        } else if old(store).polls@[old(store).poll_index(poll_id)].user_id != u {
            Err::<(), Error>(Error::Unauthorized)
        } else {
            Ok::<(), Error>(())
        }),
        r is Ok ==> {
            &&& final(store).votes@ == old(store).votes@.filter(
                vote_kept_outside(old(store).options@, poll_id),
            )
            &&& options_agree(
                final(store).options@,
                old(store).options@.filter(option_kept_outside(poll_id)),
            )
            &&& final(store).polls@ == old(store).polls@.remove(old(store).poll_index(poll_id))
        },
{
    match poll_valid_owner_authorized(store, session, poll_id) {
        Ok(()) => {},
        Err(e) => {
            return Err(e);
        },
    }
    match store.delete_votes(poll_id) {
        Ok(()) => {},
        Err(e) => {
            return Err(e);
        },
    }
    match store.delete_poll_options(poll_id) {
        Ok(()) => {},
        Err(e) => {
            return Err(e);
        },
    }
    match store.delete_poll(poll_id) {
        Ok(()) => Ok(()),
        Err(e) => Err(e),
    }
}

/// The store `post` is `pre` with one new poll row and one new option row
/// per requested option text, in order, under the given ids; nothing else
/// changed.
pub open spec fn poll_created(
    pre: PollStore,
    post: PollStore,
    poll_id: u128,
    owner: u128,
    name: Seq<char>,
    description: Seq<char>,
    texts: Seq<String>,
    created_at: i64,
    option_ids: Seq<u128>,
) -> bool {
    &&& post.votes == pre.votes
    &&& post.polls@.len() == pre.polls@.len() + 1
    &&& forall|k: int| 0 <= k < pre.polls@.len() ==> post.polls@[k] == pre.polls@[k]
    &&& post.polls@.last().id == poll_id
    &&& post.polls@.last().user_id == owner
    &&& post.polls@.last().title@ == name
    &&& post.polls@.last().description@ == description
    &&& post.polls@.last().is_active == true
    &&& post.polls@.last().created_at == created_at
    &&& option_ids.len() == texts.len()
    &&& post.options@.len() == pre.options@.len() + texts.len()
    &&& forall|k: int| 0 <= k < pre.options@.len() ==> post.options@[k] == pre.options@[k]
    &&& forall|k: int|
        0 <= k < texts.len() ==> {
            let o = #[trigger] post.options@[pre.options@.len() + k];
            &&& o.id == option_ids[k]
            &&& o.poll_id == poll_id
            &&& o.option_text@ == texts[k]@
            &&& o.votes_count == 0
        }
}

/// Some fresh ids exist under which `post` records the new poll.
pub open spec fn poll_created_some_ids(
    pre: PollStore,
    post: PollStore,
    poll_id: u128,
    owner: u128,
    name: Seq<char>,
    description: Seq<char>,
    texts: Seq<String>,
    created_at: i64,
) -> bool {
    exists|option_ids: Seq<u128>|
        poll_created(pre, post, poll_id, owner, name, description, texts, created_at, option_ids)
}

/// Creates a poll with its options, owned by the session user, under fresh
/// random ids.
///
/// The request is admitted only in an authenticated session and only with
/// at least two options. Either the poll and all its options are recorded,
/// or an error is returned and the tables are unchanged; `Unknown` reports
/// a random id that collided with a stored one. On success the new poll's
/// id is returned.
#[verifier::loop_isolation(false)]
pub fn create_poll(
    store: &mut PollStore,
    session: &Session,
    poll_name: &str,
    poll_description: &str,
    poll_options: &Vec<String>,
    created_at: i64,
) -> (r: Result<u128, Error>)
    requires
        old(store).wf(),
    ensures
        final(store).wf(),
        r is Err ==> *final(store) == *old(store),
        session.user is None <==> r == Err::<u128, Error>(Error::Unauthorized),
        r == Err::<u128, Error>(Error::InvalidPollOptions) <==> session.user is Some
            && poll_options@.len() < 2,
        r is Err ==> r == Err::<u128, Error>(Error::Unauthorized) || r == Err::<u128, Error>(
            Error::InvalidPollOptions,
        ) || r == Err::<u128, Error>(Error::Unknown),
        r matches Ok(poll_id) ==> {
            &&& session.user matches Some(u)
            &&& poll_options@.len() >= 2
            &&& poll_created_some_ids(
                *old(store),
                *final(store),
                poll_id,
                u,
                poll_name@,
                poll_description@,
                poll_options@,
                created_at,
            )
        },
{
    let user_id = match session.validate_session() {
        Ok(u) => u,
        Err(_) => {
            return Err(Error::Unauthorized);
        },
    };
    if poll_options.len() < 2 {
        return Err(Error::InvalidPollOptions);
    }
    let poll_id = rp::fresh_id();
    if store.find_poll(poll_id).is_some() {
        return Err(Error::Unknown);
    }
    let m = poll_options.len();
    let mut option_ids: Vec<u128> = Vec::new();
    for k in 0..m
        invariant
            option_ids@.len() == k,
    {
        option_ids.push(rp::fresh_id());
    }
    // Admit the minted ids only if they are all unused and pairwise
    // distinct, so that recording them cannot fail halfway through.
    for k in 0..m
        invariant
            forall|t: int| 0 <= t < k ==> !store.has_option(option_ids@[t]),
    {
        if store.find_option(option_ids[k]).is_some() {
            return Err(Error::Unknown);
        }
    }
    for a in 0..m
        invariant
            forall|t1: int, t2: int|
                0 <= t1 < t2 < m && t1 < a ==> option_ids@[t1] != option_ids@[t2],
    {
        for b in (a + 1)..m
            invariant
                forall|t1: int, t2: int|
                    0 <= t1 < t2 < m && t1 < a ==> option_ids@[t1] != option_ids@[t2],
                forall|t2: int| a < t2 < b ==> option_ids@[a as int] != option_ids@[t2],
        {
            if option_ids[a] == option_ids[b] {
                return Err(Error::Unknown);
            }
        }
    }
    let ghost pre = *store;
    match store.create_poll(poll_id, user_id, poll_name, poll_description, created_at) {
        Ok(()) => {},
        Err(e) => {
            return Err(e);
        },
    }
    let ghost mid = *store;
    for k in 0..m
        invariant
            store.wf(),
            store.polls == mid.polls,
            store.votes == mid.votes,
            store.options@.len() == pre.options@.len() + k,
            forall|t: int| 0 <= t < pre.options@.len() ==> store.options@[t] == pre.options@[t],
            forall|t: int|
                0 <= t < k ==> {
                    let o = #[trigger] store.options@[pre.options@.len() + t];
                    &&& o.id == option_ids@[t]
                    &&& o.poll_id == poll_id
                    &&& o.option_text@ == poll_options@[t]@
                    &&& o.votes_count == 0
                },
    {
        proof {
            assert forall|idx: int|
                0 <= idx < store.options@.len() implies store.options@[idx].id
                != option_ids@[k as int] by {
                if idx < pre.options@.len() {
                    assert(store.options@[idx] == pre.options@[idx]);
                } else {
                    let t = idx - pre.options@.len();
                    assert(store.options@[pre.options@.len() + t].id == option_ids@[t]);
                }
            }
            assert(!store.has_option(option_ids@[k as int]));
            assert(store.polls@.last().id == poll_id);
            assert(store.has_poll(poll_id));
        }
        match store.create_option(option_ids[k], poll_id, poll_options[k].as_str()) {
            Ok(()) => {},
            Err(e) => {
                return Err(e);
            },
        }
    }
    proof {
        assert(pre == *old(store));
        assert(poll_created(
            pre,
            *store,
            poll_id,
            user_id,
            poll_name@,
            poll_description@,
            poll_options@,
            created_at,
            option_ids@,
        ));
        assert(poll_created_some_ids(
            *old(store),
            *store,
            poll_id,
            user_id,
            poll_name@,
            poll_description@,
            poll_options@,
            created_at,
        ));
    }
    Ok(poll_id)
}

/// Casts the session user's vote for one option.
///
/// The vote is admitted only in an authenticated session, on an existing
/// and still-active poll, and only once per user and poll; `DatabaseError`
/// reports an option id that matches no stored option, or a vote count
/// already at its maximum. On success exactly one vote row is added, under
/// a fresh random id, and the option's count is raised by one; on every
/// failure the tables are unchanged.
pub fn vote_poll(store: &mut PollStore, session: &Session, poll_id: u128, option_id: u128) -> (r:
    Result<(), Error>)
    requires
        old(store).wf(),
    ensures
        final(store).wf(),
        r is Err ==> *final(store) == *old(store),
        session.user is None ==> r == Err::<(), Error>(Error::Unauthorized),
        session.user matches Some(u) ==> r == (if !old(store).has_poll(poll_id) {
            Err::<(), Error>(Error::PollNotFound)
        } else if !old(store).polls@[old(store).poll_index(poll_id)].is_active {
            Err::<(), Error>(Error::PollClosed)
        } else if old(store).user_voted(u, poll_id) {
            Err::<(), Error>(Error::AlreadyVoted)
        } else if !old(store).has_option(option_id) || old(store).options@[old(
            store,
        ).option_index(option_id)].votes_count == i32::MAX {
            Err::<(), Error>(Error::DatabaseError)
        } else {
            Ok::<(), Error>(())
        }),
        r is Ok ==> {
            let k = old(store).option_index(option_id);
            &&& session.user matches Some(u) && exists|vid: u128|
                final(store).votes@ == old(store).votes@.push(
                    Vote { id: vid, user_id: u, poll_option_id: option_id },
                )
            &&& final(store).polls == old(store).polls
            &&& final(store).options@.len() == old(store).options@.len()
            &&& forall|i: int|
                0 <= i < old(store).options@.len() && i != k ==> final(store).options@[i] == old(
                    store,
                ).options@[i]
            &&& option_agree(
                final(store).options@[k],
                PollOption {
                    id: old(store).options@[k].id,
                    poll_id: old(store).options@[k].poll_id,
                    option_text: old(store).options@[k].option_text,
                    votes_count: (old(store).options@[k].votes_count + 1) as i32,
                },
            )
        },
{
    let user_id = match session.validate_session() {
        Ok(u) => u,
        Err(_) => {
            return Err(Error::Unauthorized);
        },
    };
    let active = match store.is_poll_active(poll_id) {
        Ok(b) => b,
        Err(_) => {
            return Err(Error::PollNotFound);
        },
    };
    if !active {
        return Err(Error::PollClosed);
    }
    if store.has_user_voted(option_id, user_id, poll_id) {
        return Err(Error::AlreadyVoted);
    }
    if store.find_option(option_id).is_none() {
        return Err(Error::DatabaseError);
    }
    match store.increase_vote_count(option_id) {
        Ok(()) => {},
        Err(e) => {
            return Err(e);
        },
    }
    let vote_id = rp::fresh_id();
    match store.vote(option_id, user_id, vote_id) {
        Ok(()) => Ok(()),
        Err(e) => Err(e),
    }
}

/// Removes the session user's vote for one option of a poll the user has
/// voted on, and lowers the option's vote count by one; an option id that
/// matches no stored option leaves the counts unchanged, as the original
/// update matching no row did.
pub fn remove_vote(store: &mut PollStore, session: &Session, poll_id: u128, option_id: u128) -> (r:
    Result<(), Error>)
    requires
        old(store).wf(),
    ensures
        final(store).wf(),
        r is Err ==> *final(store) == *old(store),
        session.user is None ==> r == Err::<(), Error>(Error::Unauthorized),
        session.user matches Some(u) ==> r == (if !old(store).user_voted(u, poll_id) {
            Err::<(), Error>(Error::VoteNotFound)
        } else if old(store).has_option(option_id) && old(store).options@[old(
            store,
        ).option_index(option_id)].votes_count == i32::MIN {
            Err::<(), Error>(Error::DatabaseError)
        } else {
            Ok::<(), Error>(())
        }),
        r is Ok ==> {
            let k = old(store).option_index(option_id);
            &&& session.user matches Some(u) && final(store).votes@ == old(store).votes@.filter(
                vote_kept_for(u, option_id),
            )
            &&& final(store).polls == old(store).polls
            &&& !old(store).has_option(option_id) ==> final(store).options == old(store).options
            &&& old(store).has_option(option_id) ==> {
                &&& final(store).options@.len() == old(store).options@.len()
                &&& forall|i: int|
                    0 <= i < old(store).options@.len() && i != k ==> final(store).options@[i]
                        == old(store).options@[i]
                &&& option_agree(
                    final(store).options@[k],
                    PollOption {
                        id: old(store).options@[k].id,
                        poll_id: old(store).options@[k].poll_id,
                        option_text: old(store).options@[k].option_text,
                        votes_count: (old(store).options@[k].votes_count - 1) as i32,
                    },
                )
            }
        },
{
    let user_id = match session.validate_session() {
        Ok(u) => u,
        Err(_) => {
            return Err(Error::Unauthorized);
        },
    };
    if !store.has_user_voted(option_id, user_id, poll_id) {
        return Err(Error::VoteNotFound);
    }
    match store.decrease_vote_count(option_id) {
        Ok(()) => {},
        Err(e) => {
            return Err(e);
        },
    }
    match store.delete_vote(option_id, user_id) {
        Ok(()) => Ok(()),
        Err(e) => Err(e),
    }
}

/// The brief poll listing: the polls of one creator when a creator filter
/// is given, all polls otherwise.
pub fn get_polls_brief(store: &PollStore, creator: Option<u128>) -> (r: Vec<Poll>)
    ensures
        creator matches Some(u) ==> polls_agree(r@, store.polls@.filter(poll_owned_by(u))),
        creator is None ==> polls_agree(r@, store.polls@),
{
    match creator {
        Some(u) => store.get_user_polls_brief(u),
        None => store.get_all_polls(),
    }
}

/// The brief poll listing for one user.
pub fn get_user_polls(store: &PollStore, user_id: u128) -> (r: Vec<Poll>)
    ensures
        polls_agree(r@, store.polls@.filter(poll_owned_by(user_id))),
{
    store.get_user_polls_brief(user_id)
}

/// Everything one poll page shows: the poll row's display fields and its
/// options with their vote counts.
pub struct PollData {
    pub title: String,
    pub description: String,
    pub is_active: bool,
    pub options: Vec<PollOption>,
    pub user_id: u128,
    pub created_at: i64,
}

/// Retrieves one poll with its options. Fails with `PollNotFound` exactly
/// when the poll does not exist.
pub fn get_poll(store: &PollStore, poll_id: u128) -> (r: Result<PollData, Error>)
    requires
        store.wf(),
    ensures
        r is Ok <==> store.has_poll(poll_id),
        r is Err ==> r == Err::<PollData, Error>(Error::PollNotFound),
        r matches Ok(d) ==> {
            let p = store.polls@[store.poll_index(poll_id)];
            &&& d.title@ == p.title@
            &&& d.description@ == p.description@
            &&& d.is_active == p.is_active
            &&& d.user_id == p.user_id
            &&& d.created_at == p.created_at
            &&& options_agree(d.options@, store.options@.filter(option_of_poll(poll_id)))
        },
{
    let poll = match store.get_poll(poll_id) {
        Ok(p) => p,
        Err(e) => {
            return Err(e);
        },
    };
    let options = store.get_poll_options_data(poll_id);
    Ok(
        PollData {
            title: poll.title,
            description: poll.description,
            is_active: poll.is_active,
            options,
            user_id: poll.user_id,
            created_at: poll.created_at,
        },
    )
}

/// The live result snapshot of one poll: the title, the total number of
/// votes, and the ids of the leading option and of the best option among
/// the others. Vote shares are ratios of option counts to the total and
/// are left to the caller to format.
pub struct PollResults {
    pub title: String,
    pub total_votes: i64,
    pub winner: Option<u128>,
    pub runner_up: Option<u128>,
}

/// The sum of the vote counts of a sequence of options.
pub open spec fn count_sum(s: Seq<PollOption>) -> int
    decreases s.len(),
{
    if s.len() == 0 {
        0
    } else {
        count_sum(s.drop_last()) + s.last().votes_count
    }
}

/// The index of the last option holding the maximal vote count.
pub open spec fn last_argmax(s: Seq<PollOption>) -> int
    decreases s.len(),
{
    if s.len() <= 1 {
        0
    } else {
        let r = last_argmax(s.drop_last());
        if s.last().votes_count >= s[r].votes_count {
            s.len() - 1
        } else {
            r
        }
    }
}

/// Keeps the options other than the one with this id.
pub open spec fn option_excluding(option_id: u128) -> spec_fn(PollOption) -> bool {
    |o: PollOption| o.id != option_id
}

/// The index `last_argmax` names is in range and holds a count no smaller
/// than any other.
pub proof fn lemma_last_argmax_is_max(s: Seq<PollOption>)
    requires
        s.len() > 0,
    ensures
        0 <= last_argmax(s) < s.len(),
        forall|k: int| 0 <= k < s.len() ==> (#[trigger] s[k]).votes_count <= s[last_argmax(s)].votes_count,
    decreases s.len(),
{
    if s.len() > 1 {
        lemma_last_argmax_is_max(s.drop_last());
        assert forall|k: int|
            0 <= k < s.len() implies (#[trigger] s[k]).votes_count <= s[last_argmax(
            s,
        )].votes_count by {
            if k < s.len() - 1 {
                assert(s.drop_last()[k] == s[k]);
            }
        }
    }
}

/// The sum of counts is bounded by the length times the count range.
proof fn lemma_count_sum_bound(s: Seq<PollOption>)
    ensures
        -(s.len() as int) * 0x8000_0000 <= count_sum(s) <= (s.len() as int) * 0x8000_0000,
    decreases s.len(),
{
    if s.len() > 0 {
        lemma_count_sum_bound(s.drop_last());
    }
}

/// Agreeing option sequences have the same count sum.
proof fn lemma_count_sum_agree(a: Seq<PollOption>, b: Seq<PollOption>)
    requires
        options_agree(a, b),
    ensures
        count_sum(a) == count_sum(b),
    decreases a.len(),
{
    if a.len() > 0 {
        assert(options_agree(a.drop_last(), b.drop_last()));
        lemma_count_sum_agree(a.drop_last(), b.drop_last());
    }
}

/// Agreeing option sequences have the same last maximal index.
proof fn lemma_last_argmax_agree(a: Seq<PollOption>, b: Seq<PollOption>)
    requires
        options_agree(a, b),
    ensures
        last_argmax(a) == last_argmax(b),
    decreases a.len(),
{
    if a.len() > 1 {
        assert(options_agree(a.drop_last(), b.drop_last()));
        lemma_last_argmax_agree(a.drop_last(), b.drop_last());
        if a.len() > 1 {
            lemma_last_argmax_is_max(a.drop_last());
        }
    }
}

/// Agreeing option sequences agree after filtering out one id.
proof fn lemma_filter_excluding_agree(a: Seq<PollOption>, b: Seq<PollOption>, option_id: u128)
    requires
        options_agree(a, b),
    ensures
        options_agree(
            a.filter(option_excluding(option_id)),
            b.filter(option_excluding(option_id)),
        ),
    decreases a.len(),
{
    reveal(Seq::filter);
    if a.len() > 0 {
        assert(options_agree(a.drop_last(), b.drop_last()));
        lemma_filter_excluding_agree(a.drop_last(), b.drop_last(), option_id);
    }
}

/// The total vote count of a listed set of options.
#[verifier::loop_isolation(false)]
fn sum_counts(v: &Vec<PollOption>) -> (s: i64)
    requires
        v@.len() < 0x4000_0000,
    ensures
        s == count_sum(v@),
{
    let mut s: i64 = 0;
    let n = v.len();
    proof {
        assert(v@.subrange(0, 0) =~= Seq::<PollOption>::empty());
    }
    for i in 0..n
        invariant
            s == count_sum(v@.subrange(0, i as int)),
    {
        proof {
            lemma_count_sum_bound(v@.subrange(0, i as int));
            assert(v@.subrange(0, i + 1).drop_last() =~= v@.subrange(0, i as int));
            assert(v@.subrange(0, i + 1).last() == v@[i as int]);
        }
        s = s + v[i].votes_count as i64;
    }
    proof {
        assert(v@.subrange(0, n as int) =~= v@);
    }
    s
}

/// The index of the last option with the maximal vote count, or nothing
/// for an empty list.
#[verifier::loop_isolation(false)]
fn last_max_index(v: &Vec<PollOption>) -> (r: Option<usize>)
    ensures
        r is None <==> v@.len() == 0,
        r matches Some(i) ==> i < v@.len() && i as int == last_argmax(v@),
{
    let n = v.len();
    if n == 0 {
        return None;
    }
    let mut best: usize = 0;
    proof {
        assert(v@.subrange(0, 1).len() == 1);
        assert(last_argmax(v@.subrange(0, 1)) == 0);
    }
    for i in 1..n
        invariant
            1 <= i <= n,
            best < i,
            best as int == last_argmax(v@.subrange(0, i as int)),
    {
        proof {
            assert(v@.subrange(0, i + 1).drop_last() =~= v@.subrange(0, i as int));
            assert(v@.subrange(0, i + 1).last() == v@[i as int]);
            lemma_last_argmax_is_max(v@.subrange(0, i as int));
        }
        if v[i].votes_count >= v[best].votes_count {
            best = i;
        }
    }
    proof {
        assert(v@.subrange(0, n as int) =~= v@);
    }
    Some(best)
}

/// Copies of the listed options other than the one with this id.
#[verifier::loop_isolation(false)]
fn options_excluding(v: &Vec<PollOption>, option_id: u128) -> (r: Vec<PollOption>)
    ensures
        options_agree(r@, v@.filter(option_excluding(option_id))),
{
    let ghost pred = option_excluding(option_id);
    let mut out: Vec<PollOption> = Vec::new();
    let n = v.len();
    proof {
        reveal(Seq::filter);
        assert(v@.subrange(0, 0).filter(pred) =~= Seq::<PollOption>::empty());
    }
    for i in 0..n
        invariant
            options_agree(out@, v@.subrange(0, i as int).filter(pred)),
    {
        proof {
            reveal(Seq::filter);
            assert(v@.subrange(0, i + 1).drop_last() =~= v@.subrange(0, i as int));
            assert(v@.subrange(0, i + 1).last() == v@[i as int]);
        }
        if v[i].id != option_id {
            out.push(v[i].clone());
        }
    }
    proof {
        assert(v@.subrange(0, n as int) =~= v@);
    }
    out
}

/// Computes the result snapshot of one poll: the total of the vote counts
/// over its options, the id of the last option holding the maximal count,
/// and, with the winner's option left out, the id of the last remaining
/// option holding the maximal count. A poll with no options has no winner;
/// a poll with one option has no runner-up. Fails with `PollNotFound`
/// exactly when the poll does not exist.
pub fn get_poll_results(store: &PollStore, poll_id: u128) -> (r: Result<PollResults, Error>)
    requires
        store.wf(),
        store.options@.len() < 0x4000_0000,
    ensures
        r is Ok <==> store.has_poll(poll_id),
        r is Err ==> r == Err::<PollResults, Error>(Error::PollNotFound),
        r matches Ok(res) ==> {
            let f = store.options@.filter(option_of_poll(poll_id));
            &&& res.title@ == store.polls@[store.poll_index(poll_id)].title@
            &&& res.total_votes == count_sum(f)
            &&& f.len() == 0 ==> res.winner is None && res.runner_up is None
            &&& f.len() > 0 ==> {
                let w = f[last_argmax(f)].id;
                let g = f.filter(option_excluding(w));
                &&& res.winner == Some(w)
                &&& g.len() == 0 ==> res.runner_up is None
                &&& g.len() > 0 ==> res.runner_up == Some(g[last_argmax(g)].id)
            }
        },
{
    let poll = match store.get_poll(poll_id) {
        Ok(p) => p,
        Err(e) => {
            return Err(e);
        },
    };
    let options = store.get_poll_options_data(poll_id);
    let ghost f = store.options@.filter(option_of_poll(poll_id));
    proof {
        broadcast use vstd::prelude::Seq::lemma_filter_len;

        lemma_count_sum_agree(options@, f);
    }
    let total_votes = sum_counts(&options);
    let (winner, runner_up) = match last_max_index(&options) {
        None => (None, None),
        Some(w) => {
            proof {
                lemma_last_argmax_agree(options@, f);
                lemma_last_argmax_is_max(f);
            }
            let winner_id = options[w].id;
            let rest = options_excluding(&options, winner_id);
            proof {
                lemma_filter_excluding_agree(options@, f, winner_id);
                let g = f.filter(option_excluding(winner_id));
                assert(options_agree(rest@, g));
                if rest@.len() > 0 {
                    lemma_last_argmax_agree(rest@, g);
                    lemma_last_argmax_is_max(g);
                }
            }
            let ru = match last_max_index(&rest) {
                None => None,
                Some(i) => Some(rest[i].id),
            };
            (Some(winner_id), ru)
        },
    };
    Ok(PollResults { title: poll.title, total_votes, winner, runner_up })
}

} // verus!
