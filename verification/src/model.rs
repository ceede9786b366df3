use vstd::prelude::*;

verus! {

/// An instant in UTC: whole seconds since the Unix epoch and the nanoseconds
/// past that second.
#[derive(Clone, Copy, Debug, PartialEq, Eq, Structural)]
pub struct Timestamp {
    pub secs: i64,
    pub nanos: u32,
}

impl Timestamp {
    /// The instant in nanoseconds since the epoch.
    pub open spec fn total_nanos(self) -> int {
        self.secs * 1_000_000_000 + self.nanos
    }
}

/// A registered user. `password` holds the bcrypt hash of the password.
#[derive(Debug)]
pub struct User {
    pub id: i32,
    pub username: String,
    pub password: String,
    pub follower_count: u32,
    pub following_count: u32,
    pub bio: String,
    pub twitch: String,
    pub twitter: String,
    pub youtube: String,
    pub instagram: String,
}

/// A question that `asker_id` asked `asked_id`; `asker_id` is `None` when the
/// question was asked anonymously.
#[derive(Debug)]
pub struct Question {
    pub id: i32,
    pub content: String,
    pub likes: i32,
    pub asked_id: i32,
    pub asker_id: Option<i32>,
    pub asked_at: Timestamp,
}

/// The answer to the question `question_id`.
#[derive(Debug)]
pub struct Answer {
    pub id: i32,
    pub question_id: i32,
    pub content: String,
    pub likes: i32,
    pub answered_at: Timestamp,
    pub last_edit_at: Timestamp,
}

/// What a like or a dislike is given to, and which of the two it is.
#[derive(Clone, Copy, Debug, PartialEq, Eq, Structural)]
pub enum LikeType {
    QuestionDislike,
    AnswerDislike,
    QuestionLike,
    AnswerLike,
}

/// The vote that `liker_id` cast on the question or answer `resource_id`.
#[derive(Clone, Copy, Debug, PartialEq, Eq, Structural)]
pub struct Like {
    pub resource_id: i32,
    pub liker_id: i32,
    pub like_type: LikeType,
}

/// `follower_id` follows `following_id`.
#[derive(Clone, Copy, Debug, PartialEq, Eq, Structural)]
pub struct Follow {
    pub follower_id: i32,
    pub following_id: i32,
}

/// A question together with its answer, if it has one.
#[derive(Debug)]
pub struct QuestionDTO {
    pub question: Question,
    pub answer: Option<Answer>,
}

/// A user together with every vote the user has cast.
#[derive(Debug)]
pub struct UserWithLikesDTO {
    pub user: User,
    pub likes: Vec<Like>,
}

/// The fields of a user that registration sets; the store assigns the rest.
#[derive(Debug)]
pub struct NewUser {
    pub username: String,
    pub password: String,
}

/// The fields of a question that asking sets; the store assigns the rest.
#[derive(Debug)]
pub struct NewQuestion {
    pub content: String,
    pub asked_id: i32,
    pub asker_id: Option<i32>,
    pub asked_at: Timestamp,
}

/// The fields of an answer that answering sets; the store assigns the rest.
#[derive(Debug)]
pub struct NewAnswer {
    pub question_id: i32,
    pub content: String,
    pub answered_at: Timestamp,
    pub last_edit_at: Timestamp,
}

impl LikeType {
    pub open spec fn spec_opposite_type(self) -> LikeType {
        match self {
            LikeType::AnswerDislike => LikeType::AnswerLike,
            LikeType::AnswerLike => LikeType::AnswerDislike,
            LikeType::QuestionDislike => LikeType::QuestionLike,
            LikeType::QuestionLike => LikeType::QuestionDislike,
        }
    }

    /// A like on a question or an answer (as opposed to a dislike).
    pub open spec fn is_like(self) -> bool {
        self == LikeType::QuestionLike || self == LikeType::AnswerLike
    }

    /// A vote on a question (as opposed to one on an answer).
    pub open spec fn on_question(self) -> bool {
        self == LikeType::QuestionLike || self == LikeType::QuestionDislike
    }

    /// The vote of the other polarity on the same kind of resource.
    pub fn opposite_type(self) -> (r: LikeType)
        ensures
            r == self.spec_opposite_type(),
    {
        match self {
            LikeType::AnswerDislike => LikeType::AnswerLike,
            LikeType::AnswerLike => LikeType::AnswerDislike,
            LikeType::QuestionDislike => LikeType::QuestionLike,
            LikeType::QuestionLike => LikeType::QuestionDislike,
        }
    }
}

/// Taking the opposite vote twice gives back the vote.
pub proof fn lemma_opposite_type_involution(t: LikeType)
    ensures
        t.spec_opposite_type().spec_opposite_type() == t,
{
}

/// The opposite vote differs from the vote, is on the same kind of resource,
/// and has the other polarity.
pub proof fn lemma_opposite_type_flips_polarity(t: LikeType)
    ensures
        t.spec_opposite_type() != t,
        t.spec_opposite_type().on_question() == t.on_question(),
        t.spec_opposite_type().is_like() == !t.is_like(),
{
}

} // verus!
