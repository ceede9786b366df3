use vstd::prelude::*;

use crate::error::TellonymError;
use crate::model::{Like, User, UserWithLikesDTO};
use crate::text::{has_prefix, lemma_has_prefix_charwise, starts_with};

verus! {

/// The value that a lookup found, or `ResourceNotFound`.
pub fn require_found<T>(found: Option<T>) -> (r: Result<T, TellonymError>)
    ensures
        found matches Some(v) ==> r == Ok::<T, TellonymError>(v),
        found is None ==> (r matches Err(e) && e is ResourceNotFound),
{
    match found {
        Some(v) => Ok(v),
        None => Err(TellonymError::ResourceNotFound),
    }
}

/// The users whose username starts with `search`, in order: a user is
/// returned exactly when each character of `search` is the character of the
/// username at the same position.
pub fn username_contains(users: Vec<User>, search: &str) -> (r: Vec<User>)
    ensures
        r@ == users@.filter(|u: User| has_prefix(u.username@, search@)),
        forall|i: int|
            0 <= i < r@.len() ==> users@.contains(#[trigger] r@[i]) && search@.len()
                <= r@[i].username@.len() && forall|k: int|
                0 <= k < search@.len() ==> #[trigger] r@[i].username@[k] == search@[k],
        forall|i: int|
            0 <= i < users@.len() && search@.len() <= users@[i].username@.len() && (forall|k: int|
                0 <= k < search@.len() ==> #[trigger] users@[i].username@[k] == search@[k])
                ==> r@.contains(#[trigger] users@[i]),
{
    let ghost orig = users@;
    let mut users = users;
    let mut out: Vec<User> = Vec::new();
    let ghost mut k: int = 0;
    assert(orig.take(0) =~= Seq::<User>::empty());
    reveal_with_fuel(Seq::<_>::filter, 1);
    while users.len() > 0
        invariant
            0 <= k <= orig.len(),
            k + users@.len() == orig.len(),
            users@ == orig.skip(k),
            out@ == orig.take(k).filter(|u: User| has_prefix(u.username@, search@)),
        decreases users@.len(),
    {
        let user = users.remove(0);
        assert(orig[k] == user);
        reveal_with_fuel(Seq::<_>::filter, 1);
        assert(orig.take(k + 1).drop_last() =~= orig.take(k));
        if starts_with(user.username.as_str(), search) {
            out.push(user);
        }
        proof {
            k = k + 1;
        }
        assert(users@ =~= orig.skip(k));
    }
    assert(orig.take(k) =~= orig);
    proof {
        let pred = |u: User| has_prefix(u.username@, search@);
        assert(out@ == orig.filter(pred));
        assert forall|i: int| 0 <= i < out@.len() implies orig.contains(#[trigger] out@[i])
            && search@.len() <= out@[i].username@.len() && forall|k: int|
            0 <= k < search@.len() ==> #[trigger] out@[i].username@[k] == search@[k] by {
            orig.lemma_filter_pred(pred, i);
            orig.lemma_filter_contains_rev(pred, out@[i]);
            lemma_has_prefix_charwise(out@[i].username@, search@);
        }
        assert forall|i: int|
            0 <= i < orig.len() && search@.len() <= orig[i].username@.len() && (forall|k: int|
                0 <= k < search@.len() ==> #[trigger] orig[i].username@[k] == search@[k])
            implies out@.contains(#[trigger] orig[i]) by {
            lemma_has_prefix_charwise(orig[i].username@, search@);
            orig.lemma_filter_contains(pred, i);
        }
    }
    out
}

/// The user found with the likes the user cast, as the first row of the
/// lookup; no row means that no such user exists.
pub fn current_user(rows: Vec<(User, Vec<Like>)>) -> (r: Result<UserWithLikesDTO, TellonymError>)
    ensures
        rows@.len() == 0 <==> r is Err,
        r matches Err(e) ==> e is ResourceNotFound,
        r matches Ok(dto) ==> dto.user == rows@[0].0 && dto.likes == rows@[0].1,
{
    let mut rows = rows;
    if rows.len() == 0 {
        return Err(TellonymError::ResourceNotFound);
    }
    let (user, likes) = rows.remove(0);
    Ok(UserWithLikesDTO { user, likes })
}

} // verus!
