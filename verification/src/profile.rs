use vstd::prelude::*;

use crate::auth::{bcrypt_hash_form, login_verdict, LoginVerdict};
use crate::error::TellonymError;
use crate::model::User;
use crate::requests::EditProfileData;
use crate::text::{lemma_trimmed_unchanged, trim, trimmed};
use crate::trusted::{bcrypt_hash, bcrypt_verify};

verus! {

/// A field that a blank entry leaves as it was: the trimmed entry, or the
/// trimmed current value when the entry is blank.
pub open spec fn kept_unless_blank(current: Seq<char>, entry: Seq<char>) -> Seq<char> {
    if trimmed(entry).len() == 0 {
        trimmed(current)
    } else {
        trimmed(entry)
    }
}

/// The profile fields that an edit sets outright, trimmed, and the fields it
/// never touches.
pub open spec fn edited_fields(old: User, new: User, data: EditProfileData) -> bool {
    &&& new.id == old.id
    &&& new.follower_count == old.follower_count
    &&& new.following_count == old.following_count
    &&& new.username@ == kept_unless_blank(old.username@, data.username@)
    &&& new.bio@ == trimmed(data.bio@)
    &&& new.twitch@ == trimmed(data.twitch@)
    &&& new.twitter@ == trimmed(data.twitter@)
    &&& new.youtube@ == trimmed(data.youtube@)
    &&& new.instagram@ == trimmed(data.instagram@)
}

/// The user after a profile edit, given what bcrypt answered: `verdict` for
/// the current password against the stored hash, and `new_hash` the hash of
/// the new password (`None` when hashing failed or was not done). A blank
/// username keeps the current one, and a blank password keeps the current
/// hash whatever bcrypt answered. A new password needs the current password:
/// when it does not match the edit is refused, and when bcrypt cannot read the
/// stored hash or no new hash was made it is a server error. Otherwise the new
/// hash is stored. The other text fields are set to the trimmed entries.
pub fn apply_profile_edit(
    user: User,
    edit_profile_data: &EditProfileData,
    verdict: LoginVerdict,
    new_hash: Option<String>,
) -> (r: Result<User, TellonymError>)
    ensures
        trimmed(edit_profile_data.password@).len() == 0 ==> (r matches Ok(new) && edited_fields(
            user,
            new,
            *edit_profile_data,
        ) && new.password@ == trimmed(user.password@)),
        trimmed(edit_profile_data.password@).len() != 0 ==> match verdict {
            LoginVerdict::Unreadable => r matches Err(e) && e is ServerError,
            LoginVerdict::Rejected => r matches Err(e) && e matches TellonymError::ConstraintError(
                msg,
            ) && msg@ == "Current password must match the current password"@,
            LoginVerdict::Accepted => match new_hash {
                None => r matches Err(e) && e is ServerError,
                Some(h) => r matches Ok(new) && edited_fields(user, new, *edit_profile_data)
                    && new.password@ == trimmed(h@),
            },
        },
        r matches Ok(new) ==> {
            &&& new.id == user.id
            &&& new.follower_count == user.follower_count
            &&& new.following_count == user.following_count
            &&& new.username@ == if trimmed(edit_profile_data.username@).len() == 0 {
                trimmed(user.username@)
            } else {
                trimmed(edit_profile_data.username@)
            }
            &&& new.bio@ == trimmed(edit_profile_data.bio@)
            &&& new.twitch@ == trimmed(edit_profile_data.twitch@)
            &&& new.twitter@ == trimmed(edit_profile_data.twitter@)
            &&& new.youtube@ == trimmed(edit_profile_data.youtube@)
            &&& new.instagram@ == trimmed(edit_profile_data.instagram@)
        },
{
    let username_entry = trim(edit_profile_data.username.as_str());
    let username = if username_entry.as_str().is_empty() {
        trim(user.username.as_str())
    } else {
        username_entry
    };
    let password_entry = trim(edit_profile_data.password.as_str());
    let password = if password_entry.as_str().is_empty() {
        trim(user.password.as_str())
    } else {
        match verdict {
            LoginVerdict::Unreadable => return Err(TellonymError::ServerError),
            LoginVerdict::Rejected => return Err(
                TellonymError::ConstraintError(
                    String::from_str("Current password must match the current password"),
                ),
            ),
            LoginVerdict::Accepted => match new_hash {
                None => return Err(TellonymError::ServerError),
                Some(hashed) => trim(hashed.as_str()),
            },
        }
    };
    Ok(User {
        id: user.id,
        username,
        password,
        follower_count: user.follower_count,
        following_count: user.following_count,
        bio: trim(edit_profile_data.bio.as_str()),
        twitch: trim(edit_profile_data.twitch.as_str()),
        twitter: trim(edit_profile_data.twitter.as_str()),
        youtube: trim(edit_profile_data.youtube.as_str()),
        instagram: trim(edit_profile_data.instagram.as_str()),
    })
}

/// The user after a profile edit: `apply_profile_edit` with bcrypt's answers.
/// The current password is checked only for a new password, and the new one
/// hashed only when the current one matches. The new hash, with which a login
/// with the new password is accepted, is stored as it is, and differs from the
/// new password unless that has the form of a bcrypt hash. Hashing can fail
/// for want of randomness, which is a server error.
pub fn edit_profile(user: User, edit_profile_data: &EditProfileData) -> (r: Result<User, TellonymError>)
    ensures
        trimmed(edit_profile_data.password@).len() == 0 ==> (r matches Ok(new) && edited_fields(
            user,
            new,
            *edit_profile_data,
        ) && new.password@ == trimmed(user.password@)),
        trimmed(edit_profile_data.password@).len() != 0 ==> match login_verdict(
            edit_profile_data.current_password@,
            user.password@,
        ) {
            LoginVerdict::Unreadable => r matches Err(e) && e is ServerError,
            LoginVerdict::Rejected => r matches Err(e) && e matches TellonymError::ConstraintError(
                msg,
            ) && msg@ == "Current password must match the current password"@,
            LoginVerdict::Accepted => (r matches Err(e) ==> e is ServerError) && (r matches Ok(
                new,
            ) ==> {
                &&& edited_fields(user, new, *edit_profile_data)
                &&& login_verdict(edit_profile_data.password@, new.password@) == LoginVerdict::Accepted
                &&& bcrypt_hash_form(new.password@)
                &&& !bcrypt_hash_form(edit_profile_data.password@) ==> new.password@
                    != edit_profile_data.password@
            }),
        },
        r matches Ok(new) ==> {
            &&& new.id == user.id
            &&& new.follower_count == user.follower_count
            &&& new.following_count == user.following_count
            &&& new.username@ == if trimmed(edit_profile_data.username@).len() == 0 {
                trimmed(user.username@)
            } else {
                trimmed(edit_profile_data.username@)
            }
            &&& new.bio@ == trimmed(edit_profile_data.bio@)
            &&& new.twitch@ == trimmed(edit_profile_data.twitch@)
            &&& new.twitter@ == trimmed(edit_profile_data.twitter@)
            &&& new.youtube@ == trimmed(edit_profile_data.youtube@)
            &&& new.instagram@ == trimmed(edit_profile_data.instagram@)
        },
{
    let password_entry = trim(edit_profile_data.password.as_str());
    if password_entry.as_str().is_empty() {
        return apply_profile_edit(user, edit_profile_data, LoginVerdict::Accepted, None);
    }
    let verdict = match bcrypt_verify(edit_profile_data.current_password.as_str(), user.password.as_str()) {
        Err(_) => LoginVerdict::Unreadable,
        Ok(false) => LoginVerdict::Rejected,
        Ok(true) => LoginVerdict::Accepted,
    };
    let new_hash = match verdict {
        LoginVerdict::Accepted => match bcrypt_hash(edit_profile_data.password.as_str()) {
            Err(_) => None,
            Ok(h) => {
                proof {
                    lemma_trimmed_unchanged(h@);
                }
                Some(h)
            },
        },
        _ => None,
    };
    apply_profile_edit(user, edit_profile_data, verdict, new_hash)
}

/// A profile edit sets the bio and the four links to the trimmed entries,
/// whatever they held before: a blank entry empties them. Only the username
/// (and the password) keep their current value when their entry is blank.
pub proof fn lemma_edit_sets_text_fields(old: User, new: User, data: EditProfileData)
    requires
        edited_fields(old, new, data),
    ensures
        new.bio@ == trimmed(data.bio@),
        new.twitch@ == trimmed(data.twitch@),
        new.twitter@ == trimmed(data.twitter@),
        new.youtube@ == trimmed(data.youtube@),
        new.instagram@ == trimmed(data.instagram@),
        trimmed(data.bio@).len() == 0 ==> new.bio@.len() == 0,
        trimmed(data.twitch@).len() == 0 ==> new.twitch@.len() == 0,
        trimmed(data.twitter@).len() == 0 ==> new.twitter@.len() == 0,
        trimmed(data.youtube@).len() == 0 ==> new.youtube@.len() == 0,
        trimmed(data.instagram@).len() == 0 ==> new.instagram@.len() == 0,
        trimmed(data.username@).len() == 0 ==> new.username@ == trimmed(old.username@),
        trimmed(data.username@).len() != 0 ==> new.username@ == trimmed(data.username@),
        new.id == old.id,
        new.follower_count == old.follower_count,
        new.following_count == old.following_count,
{
}

/// Two edits of the same user with the same entries give the same bio and
/// links whatever the stored bio and links were: they depend on the entries
/// alone.
pub proof fn lemma_edit_fields_ignore_old_text(old1: User, old2: User, new1: User, new2: User, data: EditProfileData)
    requires
        edited_fields(old1, new1, data),
        edited_fields(old2, new2, data),
    ensures
        new1.bio@ == new2.bio@,
        new1.twitch@ == new2.twitch@,
        new1.twitter@ == new2.twitter@,
        new1.youtube@ == new2.youtube@,
        new1.instagram@ == new2.instagram@,
{
}

} // verus!
