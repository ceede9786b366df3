use tellonym::error::TellonymError;
use tellonym::model::{Answer, Like, LikeType, Question, Timestamp, User};
use tellonym::requests::VoteData;
use tellonym::votes::{
    change_answer_vote, change_question_vote, plan_vote, vote_answer, vote_answer_target, vote_question,
    vote_question_target, LikeChange,
};

fn at(secs: i64) -> Timestamp {
    Timestamp { secs, nanos: 0 }
}

fn question(id: i32, likes: i32) -> Question {
    Question {
        id,
        content: "What is your favourite colour?".to_string(),
        likes,
        asked_id: 2,
        asker_id: Some(1),
        asked_at: at(1_669_000_000),
    }
}

fn answer(id: i32, likes: i32) -> Answer {
    Answer {
        id,
        question_id: 7,
        content: "Blue".to_string(),
        likes,
        answered_at: at(1_669_000_100),
        last_edit_at: at(1_669_000_200),
    }
}

#[test]
fn opposite_type_pairs_likes_and_dislikes() {
    assert!(LikeType::QuestionLike.opposite_type() == LikeType::QuestionDislike);
    assert!(LikeType::QuestionDislike.opposite_type() == LikeType::QuestionLike);
    assert!(LikeType::AnswerLike.opposite_type() == LikeType::AnswerDislike);
    assert!(LikeType::AnswerDislike.opposite_type() == LikeType::AnswerLike);
    for t in [LikeType::QuestionLike, LikeType::QuestionDislike, LikeType::AnswerLike, LikeType::AnswerDislike] {
        assert!(t.opposite_type().opposite_type() == t);
        assert!(t.opposite_type() != t);
    }
}

#[test]
fn first_like_adds_a_like_and_one_point() {
    let plan = plan_vote(3, 7, LikeType::QuestionLike, None, None);
    assert_eq!(plan.likes_change, 1);
    match plan.like_change {
        LikeChange::Add(l) => {
            assert!(l == Like { resource_id: 7, liker_id: 3, like_type: LikeType::QuestionLike })
        }
        _ => panic!("expected a new like"),
    }
}

#[test]
fn first_dislike_subtracts_one_point() {
    let plan = plan_vote(3, 7, LikeType::AnswerDislike, None, None);
    assert_eq!(plan.likes_change, -1);
    assert!(matches!(plan.like_change, LikeChange::Add(_)));
}

#[test]
fn repeated_like_is_withdrawn() {
    let held = Like { resource_id: 7, liker_id: 3, like_type: LikeType::QuestionLike };
    let plan = plan_vote(3, 7, LikeType::QuestionLike, Some(held), None);
    assert_eq!(plan.likes_change, -1);
    match plan.like_change {
        LikeChange::Remove(l) => assert!(l == held),
        _ => panic!("expected the like to be removed"),
    }
    let held_dislike = Like { resource_id: 7, liker_id: 3, like_type: LikeType::QuestionDislike };
    let plan = plan_vote(3, 7, LikeType::QuestionDislike, Some(held_dislike), None);
    assert_eq!(plan.likes_change, 1);
}

#[test]
fn switching_a_dislike_to_a_like_moves_two_points() {
    let held = Like { resource_id: 7, liker_id: 3, like_type: LikeType::AnswerDislike };
    let plan = plan_vote(3, 7, LikeType::AnswerLike, None, Some(held));
    assert_eq!(plan.likes_change, 2);
    match plan.like_change {
        LikeChange::Switch(l) => {
            assert!(l == Like { resource_id: 7, liker_id: 3, like_type: LikeType::AnswerLike })
        }
        _ => panic!("expected the like to switch"),
    }
    let held = Like { resource_id: 7, liker_id: 3, like_type: LikeType::AnswerLike };
    let plan = plan_vote(3, 7, LikeType::AnswerDislike, None, Some(held));
    assert_eq!(plan.likes_change, -2);
}

#[test]
fn vote_question_moves_the_counter() {
    let (change, q) = vote_question(3, question(7, 10), &VoteData { is_like: true }, None, None);
    assert_eq!(q.likes, 11);
    assert_eq!(q.id, 7);
    assert_eq!(q.content, "What is your favourite colour?");
    match change {
        LikeChange::Add(l) => {
            assert!(l == Like { resource_id: 7, liker_id: 3, like_type: LikeType::QuestionLike })
        }
        _ => panic!("expected a new like"),
    }
}

#[test]
fn liking_twice_restores_the_counter() {
    let q = question(7, 10);
    let (first, q) = vote_question(3, q, &VoteData { is_like: true }, None, None);
    let held = match first {
        LikeChange::Add(l) => l,
        _ => panic!("expected a new like"),
    };
    let (second, q) = vote_question(3, q, &VoteData { is_like: true }, Some(held), None);
    assert_eq!(q.likes, 10);
    assert!(matches!(second, LikeChange::Remove(_)));
}

#[test]
fn vote_answer_dislike_then_like() {
    let a = answer(9, 0);
    let (first, a) = vote_answer(3, a, &VoteData { is_like: false }, None, None);
    assert_eq!(a.likes, -1);
    let held = match first {
        LikeChange::Add(l) => l,
        _ => panic!("expected a new dislike"),
    };
    assert!(held.like_type == LikeType::AnswerDislike);
    let (second, a) = vote_answer(3, a, &VoteData { is_like: true }, None, Some(held));
    assert_eq!(a.likes, 1);
    match second {
        LikeChange::Switch(l) => assert!(l.like_type == LikeType::AnswerLike),
        _ => panic!("expected the dislike to switch"),
    }
}

#[test]
fn change_votes_add_the_change() {
    assert_eq!(change_question_vote(question(1, 5), -2).likes, 3);
    assert_eq!(change_answer_vote(answer(1, -5), 2).likes, -3);
    assert_eq!(change_answer_vote(answer(1, i32::MAX - 1), 1).likes, i32::MAX);
}

fn apply(store: &mut Vec<Like>, change: LikeChange) {
    match change {
        LikeChange::Remove(l) => store.retain(|x| !(x.liker_id == l.liker_id && x.resource_id == l.resource_id)),
        LikeChange::Switch(l) => {
            for x in store.iter_mut() {
                if x.liker_id == l.liker_id && x.resource_id == l.resource_id {
                    *x = l;
                }
            }
        }
        LikeChange::Add(l) => store.push(l),
    }
}

fn lookup(store: &[Like], liker: i32, t: LikeType, resource: i32) -> Option<Like> {
    store.iter().copied().find(|l| l.liker_id == liker && l.like_type == t && l.resource_id == resource)
}

#[test]
fn counter_tracks_likes_minus_dislikes() {
    let mut store: Vec<Like> = Vec::new();
    let mut q = question(7, 0);
    let script = [(1, true), (2, false), (1, false), (3, true), (2, false), (1, false), (3, true), (4, true), (1, true)];
    for (liker, is_like) in script {
        let request = if is_like { LikeType::QuestionLike } else { LikeType::QuestionDislike };
        let same = lookup(&store, liker, request, 7);
        let opposite = if same.is_some() { None } else { lookup(&store, liker, request.opposite_type(), 7) };
        let (change, next) = vote_question(liker, q, &VoteData { is_like }, same, opposite);
        apply(&mut store, change);
        q = next;
        let likes = store.iter().filter(|l| l.like_type == LikeType::QuestionLike).count() as i32;
        let dislikes = store.iter().filter(|l| l.like_type == LikeType::QuestionDislike).count() as i32;
        assert_eq!(q.likes, likes - dislikes);
    }
    assert_eq!(q.likes, 2);
}

fn voter(id: i32) -> User {
    User {
        id,
        username: "v".to_string(),
        password: String::new(),
        follower_count: 0,
        following_count: 0,
        bio: String::new(),
        twitch: String::new(),
        twitter: String::new(),
        youtube: String::new(),
        instagram: String::new(),
    }
}

#[test]
fn vote_targets_need_voter_question_and_answer() {
    assert!(matches!(vote_question_target(None, vec![(question(7, 0), vec![])]), Err(TellonymError::ResourceNotFound)));
    assert!(matches!(vote_question_target(Some(voter(1)), vec![]), Err(TellonymError::ResourceNotFound)));
    let (u, q) = vote_question_target(Some(voter(1)), vec![(question(7, 3), vec![])]).ok().unwrap();
    assert_eq!((u.id, q.id, q.likes), (1, 7, 3));
    assert!(matches!(vote_answer_target(Some(voter(1)), vec![(question(7, 0), vec![])]), Err(TellonymError::ResourceNotFound)));
    assert!(matches!(vote_answer_target(None, vec![(question(7, 0), vec![answer(9, 1)])]), Err(TellonymError::ResourceNotFound)));
    assert!(matches!(vote_answer_target(Some(voter(1)), vec![]), Err(TellonymError::ResourceNotFound)));
    let (u, a) = vote_answer_target(Some(voter(1)), vec![(question(7, 0), vec![answer(9, 1), answer(10, 2)])]).ok().unwrap();
    assert_eq!((u.id, a.id, a.likes), (1, 9, 1));
}
