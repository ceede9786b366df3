use vstd::prelude::*;

use crate::error::TellonymError;
use crate::model::{Follow, User};

verus! {

/// What a follow request does to the stored follows.
#[derive(Debug)]
pub enum FollowChange {
    /// The follower already follows: this follow is deleted.
    Remove(Follow),
    /// A new follow is stored.
    Add(Follow),
}

/// A stored counter read as a signed 32-bit integer, as `as i32` reads it.
pub open spec fn counter_as_i32(count: u32) -> int {
    if count > i32::MAX { count - 0x1_0000_0000 } else { count as int }
}

/// A signed 32-bit integer stored back as a counter, as `as u32` stores it.
pub open spec fn i32_as_counter(value: int) -> u32 {
    (if value < 0 { value + 0x1_0000_0000 } else { value }) as u32
}

/// A counter moved by `change` through the signed 32-bit arithmetic that
/// stores it.
pub open spec fn moved_counter(count: u32, change: int) -> u32 {
    i32_as_counter(counter_as_i32(count) + change)
}

/// The change to both follow counters when a follow is toggled.
pub open spec fn follow_delta(already_follows: bool) -> int {
    if already_follows { -1 } else { 1 }
}

/// The fields of a user other than the two follow counters are equal.
pub open spec fn same_profile(a: User, b: User) -> bool {
    &&& a.id == b.id
    &&& a.username == b.username
    &&& a.password == b.password
    &&& a.bio == b.bio
    &&& a.twitch == b.twitch
    &&& a.twitter == b.twitter
    &&& a.youtube == b.youtube
    &&& a.instagram == b.instagram
}

/// Whether a stored counter, read as a signed 32-bit integer, can move by
/// `change` without leaving that range.
pub fn counter_fits(count: u32, change: i32) -> (b: bool)
    ensures
        b == (i32::MIN <= counter_as_i32(count) + change <= i32::MAX),
{
    let c: i64 = count as i64;
    let signed: i64 = if c > 2147483647 { c - 4294967296 } else { c };
    let sum: i64 = signed + change as i64;
    -2147483648 <= sum && sum <= 2147483647
}

fn move_counter(count: u32, change: i32) -> (r: u32)
    requires
        i32::MIN <= counter_as_i32(count) + change <= i32::MAX,
    ensures
        r == moved_counter(count, change as int),
        count <= i32::MAX && 0 <= count + change ==> r == count + change,
{
    let c: i64 = count as i64;
    let signed: i64 = if c > 2147483647 { c - 4294967296 } else { c };
    let sum: i64 = signed + change as i64;
    let stored: i64 = if sum < 0 { sum + 4294967296 } else { sum };
    stored as u32
}

/// `follower` starts or stops following `following`: the follower's count of
/// followed users and the followed user's count of followers both move by
/// `change`, through the signed 32-bit arithmetic of the stored counters.
pub fn change_follow_counts(follower: User, following: User, change: i32) -> (res: (User, User))
    requires
        i32::MIN <= counter_as_i32(follower.following_count) + change <= i32::MAX,
        i32::MIN <= counter_as_i32(following.follower_count) + change <= i32::MAX,
    ensures
        res.0.following_count == moved_counter(follower.following_count, change as int),
        res.0.follower_count == follower.follower_count,
        same_profile(res.0, follower),
        res.1.follower_count == moved_counter(following.follower_count, change as int),
        res.1.following_count == following.following_count,
        same_profile(res.1, following),
        follower.following_count <= i32::MAX && 0 <= follower.following_count + change
            ==> res.0.following_count == follower.following_count + change,
        following.follower_count <= i32::MAX && 0 <= following.follower_count + change
            ==> res.1.follower_count == following.follower_count + change,
{
    let follower_following_count: u32 = move_counter(follower.following_count, change);
    let following_follower_count: u32 = move_counter(following.follower_count, change);
    (
        User { following_count: follower_following_count, ..follower },
        User { follower_count: following_follower_count, ..following },
    )
}

/// The change to the stored follows that a follow request makes: delete the
/// existing follow, or else store a new one.
pub open spec fn planned_follow_change(follower_id: i32, followed_id: i32, existing: Option<Follow>) -> FollowChange {
    match existing {
        Some(f) => FollowChange::Remove(f),
        None => FollowChange::Add(Follow { follower_id, following_id: followed_id }),
    }
}

/// The follow request of `wants_to_follow` for `to_be_followed`, where
/// `existing` is the stored follow between the two, if any. Following oneself
/// is refused; otherwise an existing follow is deleted and the counters drop
/// by one, or a new follow is stored and the counters rise by one.
pub fn follow_user(wants_to_follow: User, to_be_followed: User, existing: Option<Follow>) -> (res:
    Result<(FollowChange, User, User), TellonymError>)
    requires
        wants_to_follow.id != to_be_followed.id ==> i32::MIN <= counter_as_i32(
            wants_to_follow.following_count,
        ) + follow_delta(existing is Some) <= i32::MAX,
        wants_to_follow.id != to_be_followed.id ==> i32::MIN <= counter_as_i32(
            to_be_followed.follower_count,
        ) + follow_delta(existing is Some) <= i32::MAX,
    ensures
        wants_to_follow.id == to_be_followed.id <==> res is Err,
        res matches Err(e) ==> e matches TellonymError::ConstraintError(msg)
            && msg@ == "You can not follow yourself"@,
        res matches Ok((change, follower, followed)) ==> {
            &&& change == planned_follow_change(wants_to_follow.id, to_be_followed.id, existing)
            &&& follower.following_count == moved_counter(
                wants_to_follow.following_count,
                follow_delta(existing is Some),
            )
            &&& follower.follower_count == wants_to_follow.follower_count
            &&& same_profile(follower, wants_to_follow)
            &&& followed.follower_count == moved_counter(
                to_be_followed.follower_count,
                follow_delta(existing is Some),
            )
            &&& followed.following_count == to_be_followed.following_count
            &&& same_profile(followed, to_be_followed)
        },
{
    if wants_to_follow.id == to_be_followed.id {
        return Err(TellonymError::ConstraintError(String::from_str("You can not follow yourself")));
    }
    match existing {
        Some(f) => {
            let (a, b) = change_follow_counts(wants_to_follow, to_be_followed, -1);
            Ok((FollowChange::Remove(f), a, b))
        },
        None => {
            let f = Follow { follower_id: wants_to_follow.id, following_id: to_be_followed.id };
            let (a, b) = change_follow_counts(wants_to_follow, to_be_followed, 1);
            Ok((FollowChange::Add(f), a, b))
        },
    }
}

/// The ids of the users that the given follows point to, in order.
pub fn following_ids(follows: &Vec<Follow>) -> (ids: Vec<i32>)
    ensures
        ids@ == follows@.map_values(|f: Follow| f.following_id),
{
    let mut ids: Vec<i32> = Vec::new();
    for i in 0..follows.len()
        invariant
            ids@ == follows@.take(i as int).map_values(|f: Follow| f.following_id),
    {
        assert(follows@.take(i + 1) =~= follows@.take(i as int).push(follows@[i as int]));
        ids.push(follows[i].following_id);
        assert(ids@ =~= follows@.take(i + 1).map_values(|f: Follow| f.following_id));
    }
    assert(follows@.take(follows.len() as int) =~= follows@);
    ids
}

/// The ids of the users that the given follows come from, in order.
pub fn follower_ids(follows: &Vec<Follow>) -> (ids: Vec<i32>)
    ensures
        ids@ == follows@.map_values(|f: Follow| f.follower_id),
{
    let mut ids: Vec<i32> = Vec::new();
    for i in 0..follows.len()
        invariant
            ids@ == follows@.take(i as int).map_values(|f: Follow| f.follower_id),
    {
        assert(follows@.take(i + 1) =~= follows@.take(i as int).push(follows@[i as int]));
        ids.push(follows[i].follower_id);
        assert(ids@ =~= follows@.take(i + 1).map_values(|f: Follow| f.follower_id));
    }
    assert(follows@.take(follows.len() as int) =~= follows@);
    ids
}

/// The users that `user` follows, in a set of (follower, followed) pairs.
pub open spec fn followees(follows: Set<(int, int)>, user: int) -> Set<(int, int)> {
    follows.filter(|p: (int, int)| p.0 == user)
}

/// The users that follow `user`, in a set of (follower, followed) pairs.
pub open spec fn followers(follows: Set<(int, int)>, user: int) -> Set<(int, int)> {
    follows.filter(|p: (int, int)| p.1 == user)
}

/// The follows after `follower` sends a follow request for `followed`.
pub open spec fn toggle_follow(follows: Set<(int, int)>, follower: int, followed: int) -> Set<(int, int)> {
    if follows.contains((follower, followed)) {
        follows.remove((follower, followed))
    } else {
        follows.insert((follower, followed))
    }
}

/// A follow request moves the follower's count of followed users and the
/// followed user's count of followers by `follow_delta`, and leaves every
/// other user's counts as they were: counters that match the stored follows
/// keep matching them.
pub proof fn lemma_follow_keeps_counts(follows: Set<(int, int)>, follower: int, followed: int)
    requires
        follows.finite(),
        follower != followed,
    ensures
        toggle_follow(follows, follower, followed).finite(),
        followees(toggle_follow(follows, follower, followed), follower).len() == followees(
            follows,
            follower,
        ).len() + follow_delta(follows.contains((follower, followed))),
        followers(toggle_follow(follows, follower, followed), followed).len() == followers(
            follows,
            followed,
        ).len() + follow_delta(follows.contains((follower, followed))),
        forall|u: int|
            u != follower ==> #[trigger] followees(toggle_follow(follows, follower, followed), u)
                == followees(follows, u),
        forall|u: int|
            u != followed ==> #[trigger] followers(toggle_follow(follows, follower, followed), u)
                == followers(follows, u),
{
    let t = toggle_follow(follows, follower, followed);
    let e = (follower, followed);
    follows.lemma_len_filter(|p: (int, int)| p.0 == follower);
    follows.lemma_len_filter(|p: (int, int)| p.1 == followed);
    if follows.contains(e) {
        assert(followees(t, follower) =~= followees(follows, follower).remove(e));
        assert(followers(t, followed) =~= followers(follows, followed).remove(e));
    } else {
        assert(followees(t, follower) =~= followees(follows, follower).insert(e));
        assert(followers(t, followed) =~= followers(follows, followed).insert(e));
    }
    assert forall|u: int| u != follower implies #[trigger] followees(t, u) == followees(follows, u) by {
        assert(followees(t, u) =~= followees(follows, u));
    }
    assert forall|u: int| u != followed implies #[trigger] followers(t, u) == followers(follows, u) by {
        assert(followers(t, u) =~= followers(follows, u));
    }
}

/// Counters that match the stored follows before a follow request match them
/// after it, unless a new follow would take a counter past `u32::MAX`, where
/// the stored counter wraps to 0.
pub proof fn lemma_follow_counters_track_follows(
    follows: Set<(int, int)>,
    follower: User,
    followed: User,
)
    requires
        follows.finite(),
        follower.id != followed.id,
        follower.following_count == followees(follows, follower.id as int).len(),
        followed.follower_count == followers(follows, followed.id as int).len(),
        follows.contains((follower.id as int, followed.id as int)) || follower.following_count < u32::MAX,
        follows.contains((follower.id as int, followed.id as int)) || followed.follower_count < u32::MAX,
    ensures
        moved_counter(
            follower.following_count,
            follow_delta(follows.contains((follower.id as int, followed.id as int))),
        ) == followees(
            toggle_follow(follows, follower.id as int, followed.id as int),
            follower.id as int,
        ).len(),
        moved_counter(
            followed.follower_count,
            follow_delta(follows.contains((follower.id as int, followed.id as int))),
        ) == followers(
            toggle_follow(follows, follower.id as int, followed.id as int),
            followed.id as int,
        ).len(),
{
    lemma_follow_keeps_counts(follows, follower.id as int, followed.id as int);
    let e = (follower.id as int, followed.id as int);
    if follows.contains(e) {
        assert(followees(follows, follower.id as int).contains(e));
        assert(followers(follows, followed.id as int).contains(e));
    }
}

/// The stored follows, as (follower, followed) pairs, after a change.
pub open spec fn applied_follow_change(follows: Set<(int, int)>, change: FollowChange) -> Set<(int, int)> {
    match change {
        FollowChange::Remove(f) => follows.remove((f.follower_id as int, f.following_id as int)),
        FollowChange::Add(f) => follows.insert((f.follower_id as int, f.following_id as int)),
    }
}

/// The follow that was looked up for a request is the one in `follows`.
pub open spec fn follow_lookup_matches(
    follows: Set<(int, int)>,
    follower_id: i32,
    followed_id: i32,
    existing: Option<Follow>,
) -> bool {
    &&& (existing is Some <==> follows.contains((follower_id as int, followed_id as int)))
    &&& (existing matches Some(f) ==> f == Follow { follower_id, following_id: followed_id })
}

/// Carrying out the change that a follow request plans toggles the follow,
/// and counters that matched the stored follows before match them after,
/// unless a new follow would take a counter past `u32::MAX`.
pub proof fn lemma_follow_change_toggles(
    follows: Set<(int, int)>,
    follower: User,
    followed: User,
    existing: Option<Follow>,
)
    requires
        follows.finite(),
        follower.id != followed.id,
        follow_lookup_matches(follows, follower.id, followed.id, existing),
        follower.following_count == followees(follows, follower.id as int).len(),
        followed.follower_count == followers(follows, followed.id as int).len(),
        existing is Some || follower.following_count < u32::MAX,
        existing is Some || followed.follower_count < u32::MAX,
    ensures
        applied_follow_change(follows, planned_follow_change(follower.id, followed.id, existing))
            == toggle_follow(follows, follower.id as int, followed.id as int),
        moved_counter(follower.following_count, follow_delta(existing is Some)) == followees(
            applied_follow_change(follows, planned_follow_change(follower.id, followed.id, existing)),
            follower.id as int,
        ).len(),
        moved_counter(followed.follower_count, follow_delta(existing is Some)) == followers(
            applied_follow_change(follows, planned_follow_change(follower.id, followed.id, existing)),
            followed.id as int,
        ).len(),
{
    lemma_follow_counters_track_follows(follows, follower, followed);
    let applied = applied_follow_change(follows, planned_follow_change(follower.id, followed.id, existing));
    assert(applied =~= toggle_follow(follows, follower.id as int, followed.id as int));
}

/// Sending the same follow request twice leaves the stored follows and both
/// counters as they were: the second request finds the follow the first one
/// stored (or no longer finds the one it deleted) and undoes it.
pub proof fn lemma_follow_twice_restores(
    follows: Set<(int, int)>,
    follower: User,
    followed: User,
    existing: Option<Follow>,
)
    requires
        follower.id != followed.id,
        follow_lookup_matches(follows, follower.id, followed.id, existing),
    ensures
        ({
            let first = applied_follow_change(
                follows,
                planned_follow_change(follower.id, followed.id, existing),
            );
            let again: Option<Follow> = if existing is Some {
                None
            } else {
                Some(Follow { follower_id: follower.id, following_id: followed.id })
            };
            &&& follow_lookup_matches(first, follower.id, followed.id, again)
            &&& applied_follow_change(first, planned_follow_change(follower.id, followed.id, again))
                == follows
            &&& moved_counter(
                moved_counter(follower.following_count, follow_delta(existing is Some)),
                follow_delta(again is Some),
            ) == follower.following_count
            &&& moved_counter(
                moved_counter(followed.follower_count, follow_delta(existing is Some)),
                follow_delta(again is Some),
            ) == followed.follower_count
        }),
{
    let e = (follower.id as int, followed.id as int);
    let first = applied_follow_change(follows, planned_follow_change(follower.id, followed.id, existing));
    if existing is Some {
        assert(first =~= follows.remove(e));
        assert(first.insert(e) =~= follows);
    } else {
        assert(first =~= follows.insert(e));
        assert(first.remove(e) =~= follows);
    }
}

/// Every user in `users` (by id) has counters that count the stored follows:
/// the follows the user makes and the follows the user receives.
pub open spec fn follow_counters_track(follows: Set<(int, int)>, users: Map<int, User>) -> bool {
    forall|id: int| #[trigger] users.contains_key(id) ==> {
        &&& users[id].following_count == followees(follows, id).len()
        &&& users[id].follower_count == followers(follows, id).len()
    }
}

/// A follow request keeps the counters of all users equal to the counts of
/// the stored follows: carrying out the planned change, and storing the two
/// users with the counters that `follow_user` gives them, leaves every user's
/// counters matching the follows, unless a new follow would take one of the
/// two counters past `u32::MAX`.
pub proof fn lemma_follow_request_keeps_counters(
    follows: Set<(int, int)>,
    users: Map<int, User>,
    follower_id: i32,
    followed_id: i32,
    existing: Option<Follow>,
    new_follower: User,
    new_followed: User,
)
    requires
        follows.finite(),
        follow_counters_track(follows, users),
        users.contains_key(follower_id as int),
        users.contains_key(followed_id as int),
        follower_id != followed_id,
        follow_lookup_matches(follows, follower_id, followed_id, existing),
        existing is Some || users[follower_id as int].following_count < u32::MAX,
        existing is Some || users[followed_id as int].follower_count < u32::MAX,
        new_follower.following_count == moved_counter(
            users[follower_id as int].following_count,
            follow_delta(existing is Some),
        ),
        new_follower.follower_count == users[follower_id as int].follower_count,
        new_followed.follower_count == moved_counter(
            users[followed_id as int].follower_count,
            follow_delta(existing is Some),
        ),
        new_followed.following_count == users[followed_id as int].following_count,
    ensures
        follow_counters_track(
            applied_follow_change(follows, planned_follow_change(follower_id, followed_id, existing)),
            users.insert(follower_id as int, new_follower).insert(followed_id as int, new_followed),
        ),
{
    let f = follower_id as int;
    let t = followed_id as int;
    let follower = User { id: follower_id, ..users[f] };
    let followed = User { id: followed_id, ..users[t] };
    lemma_follow_change_toggles(follows, follower, followed, existing);
    lemma_follow_keeps_counts(follows, f, t);
    let after = applied_follow_change(follows, planned_follow_change(follower_id, followed_id, existing));
    let new_users = users.insert(f, new_follower).insert(t, new_followed);
    assert forall|id: int| #[trigger] new_users.contains_key(id) implies {
        &&& new_users[id].following_count == followees(after, id).len()
        &&& new_users[id].follower_count == followers(after, id).len()
    } by {
        assert(followees(after, id) == followees(toggle_follow(follows, f, t), id));
        assert(followers(after, id) == followers(toggle_follow(follows, f, t), id));
    }
}

} // verus!
