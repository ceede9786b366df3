use tellonym::error::TellonymError;
use tellonym::model::{Answer, Question, QuestionDTO, Timestamp, User};
use tellonym::questions::{
    answer_question, answer_question_at, answered_questions, ask_question, ask_question_at, question_w_answer,
    questions_w_answers, AnswerChange,
};
use tellonym::requests::{AnswerQuestionData, AskQuestionData};

fn at(secs: i64) -> Timestamp {
    Timestamp { secs, nanos: 5 }
}

fn user(id: i32) -> User {
    User {
        id,
        username: format!("u{}", id),
        password: String::new(),
        follower_count: 0,
        following_count: 0,
        bio: String::new(),
        twitch: String::new(),
        twitter: String::new(),
        youtube: String::new(),
        instagram: String::new(),
    }
}

fn question(id: i32, asked: i32) -> Question {
    Question { id, content: format!("q{}", id), likes: 0, asked_id: asked, asker_id: None, asked_at: at(100) }
}

fn answer(id: i32, question_id: i32) -> Answer {
    Answer { id, question_id, content: format!("a{}", id), likes: 4, answered_at: at(200), last_edit_at: at(200) }
}

#[test]
fn asking_records_the_asker_unless_anonymous() {
    let q = ask_question_at(Some(user(1)), Some(user(2)), &AskQuestionData { anonymous: false, content: "hi?".to_string() }, at(9))
        .ok()
        .unwrap();
    assert_eq!((q.asked_id, q.asker_id, q.asked_at), (2, Some(1), at(9)));
    assert_eq!(q.content, "hi?");
    let q = ask_question(Some(user(1)), Some(user(2)), &AskQuestionData { anonymous: true, content: "who?".to_string() })
        .ok()
        .unwrap();
    assert_eq!((q.asked_id, q.asker_id), (2, None));
}

#[test]
fn asking_oneself_is_refused() {
    match ask_question(Some(user(3)), Some(user(3)), &AskQuestionData { anonymous: true, content: "x".to_string() }) {
        Err(TellonymError::ConstraintError(msg)) => assert_eq!(msg, "You can not ask yourself a question"),
        _ => panic!("expected a constraint error"),
    }
}

#[test]
fn first_answer_is_created() {
    let found = vec![(question(7, 2), vec![])];
    let change = answer_question_at(Some(user(2)), 7, found, &AnswerQuestionData { content: "yes".to_string() }, at(50))
        .ok()
        .unwrap();
    match change {
        AnswerChange::Created(a) => {
            assert_eq!((a.question_id, a.answered_at, a.last_edit_at), (7, at(50), at(50)));
            assert_eq!(a.content, "yes");
        }
        _ => panic!("expected a new answer"),
    }
}

#[test]
fn existing_answer_is_edited() {
    let found = vec![(question(7, 2), vec![answer(11, 7), answer(12, 7)])];
    let change = answer_question(Some(user(2)), 7, found, &AnswerQuestionData { content: "edited".to_string() }).ok().unwrap();
    match change {
        AnswerChange::Edited(a) => {
            assert_eq!((a.id, a.question_id, a.likes, a.answered_at), (11, 7, 4, at(200)));
            assert_eq!(a.content, "edited");
        }
        _ => panic!("expected an edited answer"),
    }
}

#[test]
fn answering_someone_elses_question_is_refused() {
    let found = vec![(question(7, 2), vec![])];
    match answer_question(Some(user(3)), 7, found, &AnswerQuestionData { content: "no".to_string() }) {
        Err(TellonymError::ConstraintError(msg)) => {
            assert_eq!(msg, "You can not answer questions not intended for you")
        }
        _ => panic!("expected a constraint error"),
    }
}

#[test]
fn rows_become_questions_with_first_answers() {
    let rows = vec![(question(1, 2), vec![answer(5, 1), answer(6, 1)]), (question(2, 2), vec![])];
    let dtos = questions_w_answers(rows);
    assert_eq!(dtos.len(), 2);
    assert_eq!(dtos[0].question.id, 1);
    assert_eq!(dtos[0].answer.as_ref().map(|a| a.id), Some(5));
    assert!(dtos[1].answer.is_none());
}

#[test]
fn missing_question_is_not_found() {
    assert!(matches!(question_w_answer(vec![]), Err(TellonymError::ResourceNotFound)));
    let dto = question_w_answer(vec![(question(4, 2), vec![answer(9, 4)])]).ok().unwrap();
    assert_eq!(dto.question.id, 4);
    assert_eq!(dto.answer.map(|a| a.id), Some(9));
}

#[test]
fn home_page_keeps_answered_questions() {
    let dtos = vec![
        QuestionDTO { question: question(1, 2), answer: Some(answer(5, 1)) },
        QuestionDTO { question: question(2, 2), answer: None },
        QuestionDTO { question: question(3, 2), answer: Some(answer(6, 3)) },
    ];
    let pairs = answered_questions(dtos);
    let ids: Vec<(i32, i32)> = pairs.iter().map(|(q, a)| (q.id, a.id)).collect();
    assert_eq!(ids, vec![(1, 5), (3, 6)]);
    assert!(answered_questions(vec![]).is_empty());
}

#[test]
fn asking_needs_both_users() {
    let data = AskQuestionData { anonymous: false, content: "hi?".to_string() };
    assert!(matches!(ask_question_at(None, Some(user(2)), &data, at(1)), Err(TellonymError::ResourceNotFound)));
    assert!(matches!(ask_question_at(Some(user(1)), None, &data, at(1)), Err(TellonymError::ResourceNotFound)));
    assert!(matches!(ask_question(None, None, &data), Err(TellonymError::ResourceNotFound)));
}

#[test]
fn answering_needs_the_user_and_the_question() {
    let data = AnswerQuestionData { content: "yes".to_string() };
    let rows = vec![(question(7, 2), vec![])];
    assert!(matches!(answer_question_at(None, 7, rows, &data, at(1)), Err(TellonymError::ResourceNotFound)));
    assert!(matches!(answer_question_at(Some(user(2)), 7, vec![], &data, at(1)), Err(TellonymError::ResourceNotFound)));
    assert!(matches!(answer_question(Some(user(2)), 7, vec![], &data), Err(TellonymError::ResourceNotFound)));
}
