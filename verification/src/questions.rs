use vstd::prelude::*;

use crate::error::TellonymError;
use crate::model::{Answer, NewAnswer, NewQuestion, Question, QuestionDTO, Timestamp, User};
use crate::requests::{AnswerQuestionData, AskQuestionData};
use crate::trusted::utc_now;

verus! {

/// What answering a question stores.
#[derive(Debug)]
pub enum AnswerChange {
    /// The question's answer, edited.
    Edited(Answer),
    /// A first answer to the question.
    Created(NewAnswer),
}

/// The outcome `r` of a request by the user `asker` (as looked up) to ask the
/// user `asked` (as looked up) a question at `now`: a user that was not found
/// is `ResourceNotFound`; asking oneself is refused; otherwise the question
/// holds the content, the asked user's id, the asker's id unless the question
/// is anonymous, and `now` as the time it was asked.
pub open spec fn ask_outcome(
    asker: Option<User>,
    asked: Option<User>,
    question_data: AskQuestionData,
    now: Timestamp,
    r: Result<NewQuestion, TellonymError>,
) -> bool {
    match (asker, asked) {
        (Some(asker), Some(asked)) => if asker.id == asked.id {
            r matches Err(e) && e matches TellonymError::ConstraintError(msg) && msg@
                == "You can not ask yourself a question"@
        } else {
            r matches Ok(q) && {
                &&& q.content@ == question_data.content@
                &&& q.asked_id == asked.id
                &&& q.asker_id == if question_data.anonymous { None } else { Some(asker.id) }
                &&& q.asked_at == now
            }
        },
        _ => r matches Err(e) && e is ResourceNotFound,
    }
}

/// The question that `asker` asks `asked` at `now`, each user as looked up by
/// id; see `ask_outcome`.
pub fn ask_question_at(
    asker: Option<User>,
    asked: Option<User>,
    question_data: &AskQuestionData,
    now: Timestamp,
) -> (r: Result<NewQuestion, TellonymError>)
    ensures
        ask_outcome(asker, asked, *question_data, now, r),
{
    let asker = match asker {
        None => return Err(TellonymError::ResourceNotFound),
        Some(u) => u,
    };
    let asked = match asked {
        None => return Err(TellonymError::ResourceNotFound),
        Some(u) => u,
    };
    if asked.id == asker.id {
        return Err(
            TellonymError::ConstraintError(String::from_str("You can not ask yourself a question")),
        );
    }
    Ok(NewQuestion {
        content: question_data.content.clone(),
        asked_id: asked.id,
        asker_id: if question_data.anonymous { None } else { Some(asker.id) },
        asked_at: now,
    })
}

/// The question that `asker` asks `asked` now, each user as looked up by id:
/// `ask_question_at` at the clock's reading.
pub fn ask_question(asker: Option<User>, asked: Option<User>, question_data: &AskQuestionData) -> (r:
    Result<NewQuestion, TellonymError>)
    ensures
        exists|now: Timestamp| #[trigger] ask_outcome(asker, asked, *question_data, now, r),
        r matches Ok(q) ==> q.asked_at.secs >= 0 && q.asked_at.nanos < 1_000_000_000,
{
    let now = utc_now();
    ask_question_at(asker, asked, question_data, now)
}

/// The outcome `r` of a request by `user` (as looked up) to answer at `now`
/// the question `question_id`, looked up as `rows` (the question with its
/// related answers): a user or question that was not found is
/// `ResourceNotFound`; only the user the question was asked of may answer it;
/// an existing answer is edited (its content, and its edit time set to `now`),
/// otherwise a first answer is created, answered and edited at `now`.
pub open spec fn answer_outcome(
    user: Option<User>,
    question_id: i32,
    rows: Seq<(Question, Vec<Answer>)>,
    answer_data: AnswerQuestionData,
    now: Timestamp,
    r: Result<AnswerChange, TellonymError>,
) -> bool {
    match user {
        None => r matches Err(e) && e is ResourceNotFound,
        Some(user) => if rows.len() == 0 {
            r matches Err(e) && e is ResourceNotFound
        } else if rows[0].0.asked_id != user.id {
            r matches Err(e) && e matches TellonymError::ConstraintError(msg) && msg@
                == "You can not answer questions not intended for you"@
        } else {
            match first_answer(rows[0].1@) {
                Some(old) => r matches Ok(AnswerChange::Edited(a)) && {
                    &&& a.id == old.id
                    &&& a.question_id == old.question_id
                    &&& a.likes == old.likes
                    &&& a.answered_at == old.answered_at
                    &&& a.content@ == answer_data.content@
                    &&& a.last_edit_at == now
                },
                None => r matches Ok(AnswerChange::Created(a)) && {
                    &&& a.question_id == question_id
                    &&& a.content@ == answer_data.content@
                    &&& a.answered_at == now
                    &&& a.last_edit_at == now
                },
            }
        },
    }
}

/// The answer that `user` gives at `now` to the question `question_id`, with
/// the user and the question as looked up; see `answer_outcome`.
pub fn answer_question_at(
    user: Option<User>,
    question_id: i32,
    rows: Vec<(Question, Vec<Answer>)>,
    answer_data: &AnswerQuestionData,
    now: Timestamp,
) -> (r: Result<AnswerChange, TellonymError>)
    ensures
        answer_outcome(user, question_id, rows@, *answer_data, now, r),
        r matches Ok(AnswerChange::Edited(a)) ==> {
            &&& rows@.len() > 0
            &&& first_answer(rows@[0].1@) matches Some(old) && a.id == old.id && a.question_id
                == old.question_id && a.likes == old.likes && a.answered_at == old.answered_at
            &&& a.content@ == answer_data.content@
            &&& a.last_edit_at == now
        },
        r matches Ok(AnswerChange::Created(a)) ==> {
            &&& a.question_id == question_id
            &&& a.content@ == answer_data.content@
            &&& a.answered_at == now
            &&& a.last_edit_at == now
        },
{
    let user = match user {
        None => return Err(TellonymError::ResourceNotFound),
        Some(u) => u,
    };
    let found = match question_w_answer(rows) {
        Err(e) => return Err(e),
        Ok(dto) => dto,
    };
    if found.question.asked_id != user.id {
        return Err(
            TellonymError::ConstraintError(
                String::from_str("You can not answer questions not intended for you"),
            ),
        );
    }
    match found.answer {
        Some(old) => Ok(
            AnswerChange::Edited(
                Answer { content: answer_data.content.clone(), last_edit_at: now, ..old },
            ),
        ),
        None => Ok(
            AnswerChange::Created(
                NewAnswer {
                    question_id,
                    content: answer_data.content.clone(),
                    answered_at: now,
                    last_edit_at: now,
                },
            ),
        ),
    }
}

/// The answer that `user` gives now to the question `question_id`:
/// `answer_question_at` at the clock's reading.
pub fn answer_question(
    user: Option<User>,
    question_id: i32,
    rows: Vec<(Question, Vec<Answer>)>,
    answer_data: &AnswerQuestionData,
) -> (r: Result<AnswerChange, TellonymError>)
    ensures
        exists|now: Timestamp| #[trigger] answer_outcome(user, question_id, rows@, *answer_data, now, r),
        r matches Ok(AnswerChange::Created(a)) ==> a.answered_at == a.last_edit_at
            && a.last_edit_at.secs >= 0 && a.last_edit_at.nanos < 1_000_000_000,
        r matches Ok(AnswerChange::Edited(a)) ==> a.last_edit_at.secs >= 0 && a.last_edit_at.nanos
            < 1_000_000_000,
{
    let now = utc_now();
    answer_question_at(user, question_id, rows, answer_data, now)
}

/// The times an answer records: editing an existing answer at `now` keeps its
/// answer time and sets its edit time to `now`; a first answer given at `now`
/// is answered and edited at `now`. So an answer's edit time differs from its
/// answer time only once it was edited later.
pub proof fn lemma_answer_times(
    user: Option<User>,
    question_id: i32,
    rows: Seq<(Question, Vec<Answer>)>,
    answer_data: AnswerQuestionData,
    now: Timestamp,
    r: Result<AnswerChange, TellonymError>,
)
    requires
        answer_outcome(user, question_id, rows, answer_data, now, r),
    ensures
        r matches Ok(AnswerChange::Edited(a)) ==> a.last_edit_at == now && rows.len() > 0 && (
        first_answer(rows[0].1@) matches Some(old) && a.id == old.id && a.answered_at
            == old.answered_at),
        r matches Ok(AnswerChange::Created(a)) ==> a.answered_at == now && a.last_edit_at == now,
        r is Ok ==> user is Some && rows.len() > 0 && rows[0].0.asked_id == user->0.id,
{
}

/// The time a question records is the time it was asked: `now`.
pub proof fn lemma_ask_time(
    asker: Option<User>,
    asked: Option<User>,
    question_data: AskQuestionData,
    now: Timestamp,
    r: Result<NewQuestion, TellonymError>,
)
    requires
        ask_outcome(asker, asked, question_data, now, r),
    ensures
        r matches Ok(q) ==> q.asked_at == now && q.content@ == question_data.content@,
        r is Ok ==> asker is Some && asked is Some && asker->0.id != asked->0.id,
{
}

/// The first answer of a list, which is the question's answer.
pub open spec fn first_answer(answers: Seq<Answer>) -> Option<Answer> {
    if answers.len() == 0 { None } else { Some(answers[0]) }
}

fn take_first_answer(answers: Vec<Answer>) -> (r: Option<Answer>)
    ensures
        r == first_answer(answers@),
{
    let mut answers = answers;
    if answers.len() == 0 {
        None
    } else {
        Some(answers.remove(0))
    }
}

/// The questions, each with the first of its related answers.
pub fn questions_w_answers(rows: Vec<(Question, Vec<Answer>)>) -> (r: Vec<QuestionDTO>)
    ensures
        r@.len() == rows@.len(),
        forall|i: int|
            0 <= i < rows@.len() ==> #[trigger] r@[i].question == rows@[i].0 && r@[i].answer
                == first_answer(rows@[i].1@),
{
    let ghost orig = rows@;
    let mut rows = rows;
    let mut out: Vec<QuestionDTO> = Vec::new();
    while rows.len() > 0
        invariant
            out@.len() + rows@.len() == orig.len(),
            rows@ == orig.skip(out@.len() as int),
            forall|i: int|
                0 <= i < out@.len() ==> #[trigger] out@[i].question == orig[i].0 && out@[i].answer
                    == first_answer(orig[i].1@),
        decreases rows@.len(),
    {
        let ghost k = out@.len() as int;
        let (question, answers) = rows.remove(0);
        assert(orig[k] == (question, answers));
        let answer = take_first_answer(answers);
        out.push(QuestionDTO { question, answer });
        assert(rows@ =~= orig.skip(k + 1));
    }
    out
}

/// The question with the given id, found as the first row with its related
/// answers, and its first answer; no row means that no such question exists.
pub fn question_w_answer(rows: Vec<(Question, Vec<Answer>)>) -> (r: Result<QuestionDTO, TellonymError>)
    ensures
        rows@.len() == 0 <==> r is Err,
        r matches Err(e) ==> e is ResourceNotFound,
        r matches Ok(dto) ==> dto.question == rows@[0].0 && dto.answer == first_answer(rows@[0].1@),
{
    let mut rows = rows;
    if rows.len() == 0 {
        return Err(TellonymError::ResourceNotFound);
    }
    let (question, answers) = rows.remove(0);
    let answer = take_first_answer(answers);
    Ok(QuestionDTO { question, answer })
}

/// The answered questions among the given ones, each with its answer, in order.
pub open spec fn answered_pairs(dtos: Seq<QuestionDTO>) -> Seq<(Question, Answer)> {
    dtos.filter(|d: QuestionDTO| d.answer is Some).map_values(
        |d: QuestionDTO| (d.question, d.answer->0),
    )
}

/// The answered questions among the given ones, each with its answer, in
/// order: what the home page shows of the questions asked of followed users.
pub fn answered_questions(dtos: Vec<QuestionDTO>) -> (r: Vec<(Question, Answer)>)
    ensures
        r@ == answered_pairs(dtos@),
{
    let ghost orig = dtos@;
    let mut dtos = dtos;
    let mut out: Vec<(Question, Answer)> = Vec::new();
    let ghost mut k: int = 0;
    assert(orig.take(0) =~= Seq::<QuestionDTO>::empty());
    reveal_with_fuel(Seq::<_>::filter, 1);
    assert(answered_pairs(orig.take(0)) =~= Seq::<(Question, Answer)>::empty());
    while dtos.len() > 0
        invariant
            0 <= k <= orig.len(),
            k + dtos@.len() == orig.len(),
            dtos@ == orig.skip(k),
            out@ == answered_pairs(orig.take(k)),
        decreases dtos@.len(),
    {
        let dto = dtos.remove(0);
        assert(orig[k] == dto);
        assert(orig.take(k + 1).drop_last() =~= orig.take(k));
        reveal_with_fuel(Seq::<_>::filter, 1);
        let ghost before = orig.take(k).filter(|d: QuestionDTO| d.answer is Some);
        match dto.answer {
            Some(a) => {
                assert(orig.take(k + 1).filter(|d: QuestionDTO| d.answer is Some) == before.push(dto));
                out.push((dto.question, a));
                assert(answered_pairs(orig.take(k + 1)) =~= answered_pairs(orig.take(k)).push(
                    (dto.question, a),
                ));
            },
            None => {
                assert(orig.take(k + 1).filter(|d: QuestionDTO| d.answer is Some) == before);
            },
        }
        proof {
            k = k + 1;
        }
        assert(dtos@ =~= orig.skip(k));
    }
    assert(orig.take(k) =~= orig);
    out
}

} // verus!
