use vstd::prelude::*;

verus! {

/// The body of a registration or a login.
pub struct LoginData {
    pub username: String,
    pub password: String,
}

/// The body of an answer to a question.
pub struct AnswerQuestionData {
    pub content: String,
}

/// The body of a vote: a like when `is_like`, else a dislike.
pub struct VoteData {
    pub is_like: bool,
}

/// The body of a question asked of a user; an anonymous question does not
/// record who asked it.
pub struct AskQuestionData {
    pub anonymous: bool,
    pub content: String,
}

/// The text fields of a profile edit. A blank username or password keeps the
/// current one; a new password needs the current password.
pub struct EditProfileData {
    pub username: String,
    pub current_password: String,
    pub password: String,
    pub bio: String,
    pub twitch: String,
    pub twitter: String,
    pub youtube: String,
    pub instagram: String,
}

} // verus!
