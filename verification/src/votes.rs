use vstd::prelude::*;

use crate::error::TellonymError;
use crate::model::{lemma_opposite_type_flips_polarity, Answer, Like, LikeType, Question, User};
use crate::questions::{first_answer, question_w_answer};
use crate::requests::VoteData;

verus! {

/// What a vote does to the stored likes.
#[derive(Debug)]
pub enum LikeChange {
    /// The voter withdraws this like, which has the requested type.
    Remove(Like),
    /// The voter's like of the opposite type becomes this one, of the requested type.
    Switch(Like),
    /// A new like is stored.
    Add(Like),
}

/// The outcome of a vote: the change to the stored likes, and by how much the
/// resource's like counter moves.
#[derive(Debug)]
pub struct VotePlan {
    pub like_change: LikeChange,
    pub likes_change: i32,
}

/// How much a vote moves the like counter of its resource, given whether the
/// voter already holds a like of the requested type (`same`) or of the
/// opposite type (`opposite`).
pub open spec fn vote_delta(is_like: bool, same: bool, opposite: bool) -> int {
    if same {
        if is_like { -1 } else { 1 }
    } else if opposite {
        if is_like { 2 } else { -2 }
    } else {
        if is_like { 1 } else { -1 }
    }
}

/// Whether the like counter `likes` can take the move that a vote makes
/// without leaving the range of a signed 32-bit integer.
pub fn vote_fits(likes: i32, is_like: bool, same: bool, opposite: bool) -> (b: bool)
    ensures
        b == (i32::MIN <= likes + vote_delta(is_like, same, opposite) <= i32::MAX),
{
    let delta: i64 = if same {
        if is_like { -1 } else { 1 }
    } else if opposite {
        if is_like { 2 } else { -2 }
    } else {
        if is_like { 1 } else { -1 }
    };
    let moved: i64 = likes as i64 + delta;
    -2147483648 <= moved && moved <= 2147483647
}

/// The change to the stored likes that a vote of `liker_id` on `resource_id`
/// with type `request` makes: withdraw the voter's like of that type, or else
/// switch the voter's like of the opposite type, or else add a new like.
pub open spec fn planned_change(
    liker_id: i32,
    resource_id: i32,
    request: LikeType,
    same: Option<Like>,
    opposite: Option<Like>,
) -> LikeChange {
    match same {
        Some(l) => LikeChange::Remove(l),
        None => match opposite {
            Some(o) => LikeChange::Switch(Like { like_type: request, ..o }),
            None => LikeChange::Add(Like { resource_id, liker_id, like_type: request }),
        },
    }
}

/// The plan for the vote of `liker_id` on `resource_id` with type `request`:
/// `same` is the voter's like of that type, `opposite` the voter's like of the
/// opposite type (consulted only when there is no like of the requested type).
pub fn plan_vote(
    liker_id: i32,
    resource_id: i32,
    request: LikeType,
    same: Option<Like>,
    opposite: Option<Like>,
) -> (plan: VotePlan)
    ensures
        plan.likes_change == vote_delta(request.is_like(), same is Some, opposite is Some),
        plan.like_change == planned_change(liker_id, resource_id, request, same, opposite),
{
    let is_like = request == LikeType::QuestionLike || request == LikeType::AnswerLike;
    match same {
        Some(l) => VotePlan {
            like_change: LikeChange::Remove(l),
            likes_change: if is_like { -1 } else { 1 },
        },
        None => match opposite {
            Some(o) => VotePlan {
                like_change: LikeChange::Switch(Like { like_type: request, ..o }),
                likes_change: if is_like { 2 } else { -2 },
            },
            None => VotePlan {
                like_change: LikeChange::Add(Like { resource_id, liker_id, like_type: request }),
                likes_change: if is_like { 1 } else { -1 },
            },
        },
    }
}

/// The question with its like counter moved by `change`.
pub fn change_question_vote(question: Question, change: i32) -> (q: Question)
    requires
        i32::MIN <= question.likes + change <= i32::MAX,
    ensures
        q.likes == question.likes + change,
        q.id == question.id,
        q.content == question.content,
        q.asked_id == question.asked_id,
        q.asker_id == question.asker_id,
        q.asked_at == question.asked_at,
{
    let likes = question.likes;
    Question { likes: likes + change, ..question }
}

/// The answer with its like counter moved by `change`.
pub fn change_answer_vote(answer: Answer, change: i32) -> (a: Answer)
    requires
        i32::MIN <= answer.likes + change <= i32::MAX,
    ensures
        a.likes == answer.likes + change,
        a.id == answer.id,
        a.question_id == answer.question_id,
        a.content == answer.content,
        a.answered_at == answer.answered_at,
        a.last_edit_at == answer.last_edit_at,
{
    let likes = answer.likes;
    Answer { likes: likes + change, ..answer }
}

/// The type a vote on a question requests.
pub open spec fn question_vote_type(is_like: bool) -> LikeType {
    if is_like { LikeType::QuestionLike } else { LikeType::QuestionDislike }
}

/// The type a vote on an answer requests.
pub open spec fn answer_vote_type(is_like: bool) -> LikeType {
    if is_like { LikeType::AnswerLike } else { LikeType::AnswerDislike }
}

/// What a vote on a question is cast on, from the voter and the question as
/// looked up (`rows` is the question with its related answers): a voter or a
/// question that was not found is `ResourceNotFound`; otherwise the voter and
/// the question.
pub fn vote_question_target(voter: Option<User>, rows: Vec<(Question, Vec<Answer>)>) -> (r: Result<
    (User, Question),
    TellonymError,
>)
    ensures
        voter is None || rows@.len() == 0 <==> (r matches Err(e) && e is ResourceNotFound),
        r matches Ok(t) ==> voter == Some(t.0) && t.1 == rows@[0].0,
{
    let voter = match voter {
        None => return Err(TellonymError::ResourceNotFound),
        Some(u) => u,
    };
    match question_w_answer(rows) {
        Err(e) => Err(e),
        Ok(dto) => Ok((voter, dto.question)),
    }
}

/// What a vote on the answer to a question is cast on, from the voter and the
/// question as looked up (`rows` is the question with its related answers): a
/// voter, a question or an answer that was not found is `ResourceNotFound`;
/// otherwise the voter and the question's answer.
pub fn vote_answer_target(voter: Option<User>, rows: Vec<(Question, Vec<Answer>)>) -> (r: Result<
    (User, Answer),
    TellonymError,
>)
    ensures
        voter is None || rows@.len() == 0 || first_answer(rows@[0].1@) is None <==> (r matches Err(e)
            && e is ResourceNotFound),
        r matches Ok(t) ==> voter == Some(t.0) && first_answer(rows@[0].1@) == Some(t.1),
{
    let voter = match voter {
        None => return Err(TellonymError::ResourceNotFound),
        Some(u) => u,
    };
    match question_w_answer(rows) {
        Err(e) => Err(e),
        Ok(dto) => match dto.answer {
            None => Err(TellonymError::ResourceNotFound),
            Some(answer) => Ok((voter, answer)),
        },
    }
}

/// The vote of user `liker_id` on `question`: `same` and `opposite` are the
/// voter's likes of the requested type and of the opposite type on the question.
/// Gives the change to the stored likes and the question with its new counter.
pub fn vote_question(
    liker_id: i32,
    question: Question,
    vote_data: &VoteData,
    same: Option<Like>,
    opposite: Option<Like>,
) -> (res: (LikeChange, Question))
    requires
        i32::MIN <= question.likes + vote_delta(vote_data.is_like, same is Some, opposite is Some)
            <= i32::MAX,
    ensures
        ({
            let request = question_vote_type(vote_data.is_like);
            &&& res.1.likes == question.likes + vote_delta(vote_data.is_like, same is Some, opposite is Some)
            &&& res.1.id == question.id
            &&& res.1.content == question.content
            &&& res.1.asked_id == question.asked_id
            &&& res.1.asker_id == question.asker_id
            &&& res.1.asked_at == question.asked_at
            &&& res.0 == planned_change(liker_id, question.id, request, same, opposite)
        }),
{
    let request = if vote_data.is_like { LikeType::QuestionLike } else { LikeType::QuestionDislike };
    let plan = plan_vote(liker_id, question.id, request, same, opposite);
    let q = change_question_vote(question, plan.likes_change);
    (plan.like_change, q)
}

/// The vote of user `liker_id` on `answer`: `same` and `opposite` are the
/// voter's likes of the requested type and of the opposite type on the answer.
/// Gives the change to the stored likes and the answer with its new counter.
pub fn vote_answer(
    liker_id: i32,
    answer: Answer,
    vote_data: &VoteData,
    same: Option<Like>,
    opposite: Option<Like>,
) -> (res: (LikeChange, Answer))
    requires
        i32::MIN <= answer.likes + vote_delta(vote_data.is_like, same is Some, opposite is Some)
            <= i32::MAX,
    ensures
        ({
            let request = answer_vote_type(vote_data.is_like);
            &&& res.1.likes == answer.likes + vote_delta(vote_data.is_like, same is Some, opposite is Some)
            &&& res.1.id == answer.id
            &&& res.1.question_id == answer.question_id
            &&& res.1.content == answer.content
            &&& res.1.answered_at == answer.answered_at
            &&& res.1.last_edit_at == answer.last_edit_at
            &&& res.0 == planned_change(liker_id, answer.id, request, same, opposite)
        }),
{
    let request = if vote_data.is_like { LikeType::AnswerLike } else { LikeType::AnswerDislike };
    let plan = plan_vote(liker_id, answer.id, request, same, opposite);
    let a = change_answer_vote(answer, plan.likes_change);
    (plan.like_change, a)
}

/// The voters on a resource who cast a vote of polarity `is_like`, where
/// `votes` maps each voter to the polarity of the vote.
pub open spec fn voters(votes: Map<int, bool>, is_like: bool) -> Set<int> {
    votes.dom().filter(|k: int| votes[k] == is_like)
}

/// Likes minus dislikes.
pub open spec fn tally(votes: Map<int, bool>) -> int {
    voters(votes, true).len() - voters(votes, false).len()
}

/// The voter holds a vote of polarity `is_like`.
pub open spec fn holds_vote(votes: Map<int, bool>, liker: int, is_like: bool) -> bool {
    votes.contains_key(liker) && votes[liker] == is_like
}

/// The votes after `liker` votes with polarity `is_like`: a vote equal to the
/// one the voter holds withdraws it, any other vote replaces it.
pub open spec fn cast_vote(votes: Map<int, bool>, liker: int, is_like: bool) -> Map<int, bool> {
    if holds_vote(votes, liker, is_like) {
        votes.remove(liker)
    } else {
        votes.insert(liker, is_like)
    }
}

/// A resource's like counter moves by exactly what its tally of likes minus
/// dislikes moves: with `same` and `opposite` read off the voter's current
/// vote, `vote_delta` is the change of the tally.
pub proof fn lemma_vote_keeps_tally(votes: Map<int, bool>, liker: int, is_like: bool)
    requires
        votes.dom().finite(),
    ensures
        cast_vote(votes, liker, is_like).dom().finite(),
        tally(cast_vote(votes, liker, is_like)) == tally(votes) + vote_delta(
            is_like,
            holds_vote(votes, liker, is_like),
            holds_vote(votes, liker, !is_like),
        ),
{
    let new = cast_vote(votes, liker, is_like);
    votes.dom().lemma_len_filter(|k: int| votes[k] == true);
    votes.dom().lemma_len_filter(|k: int| votes[k] == false);
    if holds_vote(votes, liker, is_like) {
        assert(voters(new, is_like) =~= voters(votes, is_like).remove(liker));
        assert(voters(new, !is_like) =~= voters(votes, !is_like));
    } else if holds_vote(votes, liker, !is_like) {
        assert(voters(new, is_like) =~= voters(votes, is_like).insert(liker));
        assert(voters(new, !is_like) =~= voters(votes, !is_like).remove(liker));
    } else {
        assert(voters(new, is_like) =~= voters(votes, is_like).insert(liker));
        assert(voters(new, !is_like) =~= voters(votes, !is_like));
    }
}

/// After a vote the voter holds a vote of the requested polarity exactly when
/// the voter did not hold one before, and every other voter's vote stays.
pub proof fn lemma_vote_toggles(votes: Map<int, bool>, liker: int, is_like: bool)
    ensures
        holds_vote(cast_vote(votes, liker, is_like), liker, is_like) == !holds_vote(
            votes,
            liker,
            is_like,
        ),
        !holds_vote(cast_vote(votes, liker, is_like), liker, !is_like),
        forall|other: int|
            other != liker ==> (#[trigger] cast_vote(votes, liker, is_like).contains_key(other)
                == votes.contains_key(other)) && (votes.contains_key(other) ==> cast_vote(
                votes,
                liker,
                is_like,
            )[other] == votes[other]),
{
}

/// The votes on a resource after a change to its stored likes, where `votes`
/// maps each voter to the polarity of the voter's like.
pub open spec fn applied_like_change(votes: Map<int, bool>, change: LikeChange) -> Map<int, bool> {
    match change {
        LikeChange::Remove(l) => votes.remove(l.liker_id as int),
        LikeChange::Switch(l) => votes.insert(l.liker_id as int, l.like_type.is_like()),
        LikeChange::Add(l) => votes.insert(l.liker_id as int, l.like_type.is_like()),
    }
}

/// The voter's likes that were looked up for a vote are those in `votes`: the
/// like of the requested type exactly when the voter holds a vote of that
/// polarity, and, when there is none, the like of the opposite type exactly
/// when the voter holds a vote of the other polarity.
pub open spec fn lookups_match(
    votes: Map<int, bool>,
    liker_id: i32,
    request: LikeType,
    same: Option<Like>,
    opposite: Option<Like>,
) -> bool {
    &&& (same is Some <==> holds_vote(votes, liker_id as int, request.is_like()))
    &&& (same matches Some(l) ==> l.liker_id == liker_id)
    &&& (same is None ==> (opposite is Some <==> holds_vote(votes, liker_id as int, !request.is_like())))
    &&& (opposite matches Some(o) ==> o.liker_id == liker_id)
}

/// Carrying out the change that a vote plans on the stored likes casts the
/// vote, and the like counter moves by as much as the tally of likes minus
/// dislikes: a counter equal to the tally before the vote equals it after.
pub proof fn lemma_planned_change_casts_vote(
    votes: Map<int, bool>,
    liker_id: i32,
    resource_id: i32,
    request: LikeType,
    same: Option<Like>,
    opposite: Option<Like>,
)
    requires
        votes.dom().finite(),
        lookups_match(votes, liker_id, request, same, opposite),
    ensures
        applied_like_change(votes, planned_change(liker_id, resource_id, request, same, opposite))
            == cast_vote(votes, liker_id as int, request.is_like()),
        tally(applied_like_change(votes, planned_change(liker_id, resource_id, request, same, opposite)))
            == tally(votes) + vote_delta(request.is_like(), same is Some, opposite is Some),
{
    lemma_vote_keeps_tally(votes, liker_id as int, request.is_like());
    let applied = applied_like_change(votes, planned_change(liker_id, resource_id, request, same, opposite));
    assert(applied =~= cast_vote(votes, liker_id as int, request.is_like()));
}

/// Where a stored like sits in the likes table: its resource and its voter,
/// the table's primary key. The table holds at most one like per resource and
/// voter, which is why it is modelled as a map from that key to the like's
/// type.
pub open spec fn like_key(l: Like) -> (int, int) {
    (l.resource_id as int, l.liker_id as int)
}

/// The rows of the likes table.
pub open spec fn like_rows(likes: Map<(int, int), LikeType>) -> Set<Like> {
    Set::new(|l: Like| likes.contains_key(like_key(l)) && likes[like_key(l)] == l.like_type)
}

/// The likes table holds at most one like per resource and voter: two rows
/// with the same resource and voter are the same row.
pub proof fn lemma_one_like_per_key(likes: Map<(int, int), LikeType>, a: Like, b: Like)
    requires
        like_rows(likes).contains(a),
        like_rows(likes).contains(b),
        a.resource_id == b.resource_id,
        a.liker_id == b.liker_id,
    ensures
        a == b,
{
}

/// The votes on one resource (a question when `on_question`, else an answer)
/// in the likes table: each voter's polarity.
pub open spec fn votes_on(likes: Map<(int, int), LikeType>, resource: int, on_question: bool) -> Map<
    int,
    bool,
> {
    Map::new(
        |liker: int| likes.contains_key((resource, liker)) && likes[(resource, liker)].on_question()
            == on_question,
        |liker: int| likes[(resource, liker)].is_like(),
    )
}

/// The like of type `like_type` that `liker_id` holds on `resource_id`, as a
/// lookup in the likes table finds it.
pub open spec fn stored_like(
    likes: Map<(int, int), LikeType>,
    liker_id: i32,
    resource_id: i32,
    like_type: LikeType,
) -> Option<Like> {
    let key = (resource_id as int, liker_id as int);
    if likes.contains_key(key) && likes[key] == like_type {
        Some(Like { resource_id, liker_id, like_type })
    } else {
        None
    }
}

/// The key of a vote of `liker_id` with type `request` on `resource_id` holds
/// no like on the other kind of resource (a like on an answer whose id is
/// that of the question voted on, or the reverse). Where it holds one, the
/// store refuses the new like as a duplicate key.
pub open spec fn key_free_of_other_kind(
    likes: Map<(int, int), LikeType>,
    liker_id: i32,
    resource_id: i32,
    request: LikeType,
) -> bool {
    let key = (resource_id as int, liker_id as int);
    likes.contains_key(key) ==> likes[key].on_question() == request.on_question()
}

/// The two lookups a vote makes in the likes table: the voter's like of the
/// requested type and, only when there is none, the voter's like of the
/// opposite type.
pub open spec fn vote_lookups(
    likes: Map<(int, int), LikeType>,
    liker_id: i32,
    resource_id: i32,
    request: LikeType,
) -> (Option<Like>, Option<Like>) {
    let same = stored_like(likes, liker_id, resource_id, request);
    if same is Some {
        (same, None)
    } else {
        (same, stored_like(likes, liker_id, resource_id, request.spec_opposite_type()))
    }
}

/// The likes table after a change: a like is deleted, or stored under its
/// key (replacing the like it switches).
pub open spec fn applied_to_likes(likes: Map<(int, int), LikeType>, change: LikeChange) -> Map<
    (int, int),
    LikeType,
> {
    match change {
        LikeChange::Remove(l) => likes.remove(like_key(l)),
        LikeChange::Switch(l) => likes.insert(like_key(l), l.like_type),
        LikeChange::Add(l) => likes.insert(like_key(l), l.like_type),
    }
}

/// The likes table after the vote of `liker_id` on `resource_id` with type
/// `request`: the change that the vote plans from the table's own lookups,
/// carried out.
pub open spec fn likes_after_vote(
    likes: Map<(int, int), LikeType>,
    liker_id: i32,
    resource_id: i32,
    request: LikeType,
) -> Map<(int, int), LikeType> {
    let (same, opposite) = vote_lookups(likes, liker_id, resource_id, request);
    applied_to_likes(likes, planned_change(liker_id, resource_id, request, same, opposite))
}

/// How far that vote moves the resource's like counter.
pub open spec fn counter_move(
    likes: Map<(int, int), LikeType>,
    liker_id: i32,
    resource_id: i32,
    request: LikeType,
) -> int {
    let (same, opposite) = vote_lookups(likes, liker_id, resource_id, request);
    vote_delta(request.is_like(), same is Some, opposite is Some)
}

/// The keys of the likes table are those of stored likes: a resource id and
/// a voter id, both 32-bit.
pub open spec fn keys_fit(likes: Map<(int, int), LikeType>) -> bool {
    forall|k: (int, int)|
        #[trigger] likes.contains_key(k) ==> i32::MIN <= k.0 <= i32::MAX && i32::MIN <= k.1 <= i32::MAX
}

/// The type of a like (`is_like`) or dislike on a question (`on_question`) or
/// an answer.
pub open spec fn kind_type(on_question: bool, is_like: bool) -> LikeType {
    if on_question {
        question_vote_type(is_like)
    } else {
        answer_vote_type(is_like)
    }
}

/// The rows of the likes table of type `like_type` on the resource `resource`.
pub open spec fn rows_of(likes: Map<(int, int), LikeType>, resource: int, like_type: LikeType) -> Set<Like> {
    like_rows(likes).filter(|l: Like| l.resource_id == resource && l.like_type == like_type)
}

/// The number of like rows minus the number of dislike rows on the resource
/// (a question when `on_question`, else an answer).
pub open spec fn row_tally(likes: Map<(int, int), LikeType>, resource: int, on_question: bool) -> int {
    rows_of(likes, resource, kind_type(on_question, true)).len() - rows_of(
        likes,
        resource,
        kind_type(on_question, false),
    ).len()
}

/// Every counter in `counters` (resource id to like counter, for questions
/// when `on_question`, else for answers) is the number of like rows minus the
/// number of dislike rows on that resource in the likes table.
pub open spec fn counters_track(
    likes: Map<(int, int), LikeType>,
    counters: Map<int, int>,
    on_question: bool,
) -> bool {
    forall|r: int| #[trigger] counters.contains_key(r) ==> counters[r] == row_tally(likes, r, on_question)
}

proof fn lemma_votes_on_finite(likes: Map<(int, int), LikeType>, resource: int, on_question: bool)
    requires
        likes.dom().finite(),
    ensures
        votes_on(likes, resource, on_question).dom().finite(),
{
    let f = |k: (int, int)| k.1;
    likes.dom().lemma_map_finite(f);
    let dom = votes_on(likes, resource, on_question).dom();
    assert forall|liker: int| dom.contains(liker) implies likes.dom().map(f).contains(liker) by {
        assert(likes.dom().contains((resource, liker)));
        assert(f((resource, liker)) == liker);
    }
    vstd::set_lib::lemma_set_subset_finite(likes.dom().map(f), dom);
}

proof fn lemma_rows_count_voters(
    likes: Map<(int, int), LikeType>,
    resource: int,
    on_question: bool,
    is_like: bool,
)
    requires
        likes.dom().finite(),
        keys_fit(likes),
    ensures
        rows_of(likes, resource, kind_type(on_question, is_like)).len() == voters(
            votes_on(likes, resource, on_question),
            is_like,
        ).len(),
{
    let t = kind_type(on_question, is_like);
    let x = rows_of(likes, resource, t);
    let y = voters(votes_on(likes, resource, on_question), is_like);
    let g = |k: (int, int)| Like { resource_id: k.0 as i32, liker_id: k.1 as i32, like_type: likes[k] };
    likes.dom().lemma_map_finite(g);
    assert forall|l: Like| x.contains(l) implies likes.dom().map(g).contains(l) by {
        assert(likes.dom().contains(like_key(l)));
        assert(g(like_key(l)) == l);
    }
    vstd::set_lib::lemma_set_subset_finite(likes.dom().map(g), x);
    let f = |l: Like| l.liker_id as int;
    assert(vstd::relations::injective_on(f, x));
    assert forall|liker: int| x.map(f).contains(liker) <==> y.contains(liker) by {
        if y.contains(liker) {
            let key = (resource, liker);
            assert(likes.contains_key(key));
            let l = Like { resource_id: resource as i32, liker_id: liker as i32, like_type: t };
            assert(like_key(l) == key);
            assert(x.contains(l));
            assert(f(l) == liker);
        }
        if x.map(f).contains(liker) {
            let l = choose|l: Like| x.contains(l) && f(l) == liker;
            assert(likes.contains_key(like_key(l)));
        }
    }
    assert(x.map(f) =~= y);
    vstd::set_lib::lemma_map_size(x, y, f);
}

/// Likes minus dislikes counted over the rows of the likes table is the tally
/// of the votes on the resource.
proof fn lemma_row_tally(likes: Map<(int, int), LikeType>, resource: int, on_question: bool)
    requires
        likes.dom().finite(),
        keys_fit(likes),
    ensures
        row_tally(likes, resource, on_question) == tally(votes_on(likes, resource, on_question)),
{
    lemma_rows_count_voters(likes, resource, on_question, true);
    lemma_rows_count_voters(likes, resource, on_question, false);
}

/// A vote that the store accepts keeps every like counter equal to the number
/// of like rows minus the number of dislike rows on its resource, in a likes
/// table that holds at most one like per resource and voter: the voted
/// resource's counter moves by what `vote_question` and `vote_answer` add to
/// it, every other counter of that kind stays, and the rows on resources of
/// the other kind do not change.
pub proof fn lemma_vote_keeps_counters(
    likes: Map<(int, int), LikeType>,
    counters: Map<int, int>,
    liker_id: i32,
    resource_id: i32,
    request: LikeType,
)
    requires
        likes.dom().finite(),
        keys_fit(likes),
        key_free_of_other_kind(likes, liker_id, resource_id, request),
        counters_track(likes, counters, request.on_question()),
        counters.contains_key(resource_id as int),
    ensures
        likes_after_vote(likes, liker_id, resource_id, request).dom().finite(),
        keys_fit(likes_after_vote(likes, liker_id, resource_id, request)),
        counters_track(
            likes_after_vote(likes, liker_id, resource_id, request),
            counters.insert(
                resource_id as int,
                counters[resource_id as int] + counter_move(likes, liker_id, resource_id, request),
            ),
            request.on_question(),
        ),
        forall|r: int, t: LikeType|
            t.on_question() != request.on_question() ==> #[trigger] rows_of(
                likes_after_vote(likes, liker_id, resource_id, request),
                r,
                t,
            ) == rows_of(likes, r, t),
{
    let oq = request.on_question();
    let rid = resource_id as int;
    let key = (rid, liker_id as int);
    let (same, opposite) = vote_lookups(likes, liker_id, resource_id, request);
    let change = planned_change(liker_id, resource_id, request, same, opposite);
    let after = likes_after_vote(likes, liker_id, resource_id, request);
    let new_counters = counters.insert(rid, counters[rid] + counter_move(likes, liker_id, resource_id, request));
    let votes = votes_on(likes, rid, oq);
    lemma_opposite_type_flips_polarity(request);
    lemma_votes_on_finite(likes, rid, oq);
    assert(lookups_match(votes, liker_id, request, same, opposite));
    lemma_planned_change_casts_vote(votes, liker_id, resource_id, request, same, opposite);
    assert(votes_on(after, rid, oq) =~= applied_like_change(votes, change));
    assert(after.dom().finite());
    assert(forall|k: (int, int)| after.contains_key(k) && k != key ==> likes.contains_key(k));
    assert(keys_fit(after));
    assert(after.contains_key(key) ==> after[key].on_question() == oq);
    assert forall|r: int| #[trigger] new_counters.contains_key(r) implies new_counters[r] == row_tally(
        after,
        r,
        oq,
    ) by {
        lemma_row_tally(after, r, oq);
        lemma_row_tally(likes, r, oq);
        if r != rid {
            assert(votes_on(after, r, oq) =~= votes_on(likes, r, oq));
        }
    }
    assert forall|r: int, t: LikeType| t.on_question() != oq implies #[trigger] rows_of(after, r, t)
        == rows_of(likes, r, t) by {
        assert forall|l: Like| rows_of(after, r, t).contains(l) <==> rows_of(likes, r, t).contains(l) by {
            if like_key(l) != key {
                assert(after.contains_key(like_key(l)) == likes.contains_key(like_key(l)));
            }
        }
        assert(rows_of(after, r, t) =~= rows_of(likes, r, t));
    }
}

/// Voting the same way twice leaves the likes table and the like counter as
/// they were, unless the voter held a vote of the other polarity on the
/// resource (the first vote then switches it, and the second withdraws it),
/// or the key holds a like on the other kind of resource (which the store
/// refuses to duplicate).
pub proof fn lemma_vote_twice_restores(
    likes: Map<(int, int), LikeType>,
    liker_id: i32,
    resource_id: i32,
    request: LikeType,
)
    requires
        key_free_of_other_kind(likes, liker_id, resource_id, request),
        stored_like(likes, liker_id, resource_id, request.spec_opposite_type()) is None,
    ensures
        likes_after_vote(likes_after_vote(likes, liker_id, resource_id, request), liker_id, resource_id, request)
            == likes,
        counter_move(likes, liker_id, resource_id, request) + counter_move(
            likes_after_vote(likes, liker_id, resource_id, request),
            liker_id,
            resource_id,
            request,
        ) == 0,
{
    lemma_opposite_type_flips_polarity(request);
    let key = (resource_id as int, liker_id as int);
    let once = likes_after_vote(likes, liker_id, resource_id, request);
    if stored_like(likes, liker_id, resource_id, request) is Some {
        assert(once =~= likes.remove(key));
        assert(once.insert(key, request) =~= likes);
    } else {
        assert(!likes.contains_key(key));
        assert(once =~= likes.insert(key, request));
        assert(once.remove(key) =~= likes);
    }
}

} // verus!
