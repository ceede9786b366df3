use tellonym::error::TellonymError;
use tellonym::model::{Like, LikeType, User};
use tellonym::users::{current_user, require_found, username_contains};

fn user(id: i32, name: &str) -> User {
    User {
        id,
        username: name.to_string(),
        password: String::new(),
        follower_count: 0,
        following_count: 0,
        bio: String::new(),
        twitch: String::new(),
        twitter: String::new(),
        youtube: String::new(),
        instagram: String::new(),
    }
}

#[test]
fn search_returns_usernames_starting_with_it() {
    let users = vec![user(1, "Foo"), user(2, "Foobar"), user(3, "barFoo"), user(4, "Fo")];
    let found: Vec<i32> = username_contains(users, "Foo").iter().map(|u| u.id).collect();
    assert_eq!(found, vec![1, 2]);
    let all: Vec<i32> = username_contains(vec![user(1, "a"), user(2, "b")], "").iter().map(|u| u.id).collect();
    assert_eq!(all, vec![1, 2]);
}

#[test]
fn lookups_that_find_nothing_are_not_found() {
    assert!(matches!(require_found::<i32>(None), Err(TellonymError::ResourceNotFound)));
    assert_eq!(require_found(Some(3)).ok(), Some(3));
    assert!(matches!(current_user(vec![]), Err(TellonymError::ResourceNotFound)));
    let like = Like { resource_id: 1, liker_id: 9, like_type: LikeType::AnswerLike };
    let dto = current_user(vec![(user(9, "z"), vec![like])]).ok().unwrap();
    assert_eq!(dto.user.id, 9);
    assert_eq!(dto.likes.len(), 1);
}
