use tellonym::error::TellonymError;
use tellonym::follows::{change_follow_counts, follow_user, follower_ids, following_ids, FollowChange};
use tellonym::model::{Follow, User};

fn user(id: i32, followers: u32, following: u32) -> User {
    User {
        id,
        username: format!("user{}", id),
        password: "$2b$04$hash".to_string(),
        follower_count: followers,
        following_count: following,
        bio: String::new(),
        twitch: String::new(),
        twitter: String::new(),
        youtube: String::new(),
        instagram: String::new(),
    }
}

#[test]
fn following_someone_raises_both_counters() {
    let (change, a, b) = follow_user(user(1, 0, 4), user(2, 9, 0), None).ok().unwrap();
    match change {
        FollowChange::Add(f) => assert!(f == Follow { follower_id: 1, following_id: 2 }),
        _ => panic!("expected a new follow"),
    }
    assert_eq!(a.following_count, 5);
    assert_eq!(a.follower_count, 0);
    assert_eq!(b.follower_count, 10);
    assert_eq!(b.following_count, 0);
    assert_eq!(a.username, "user1");
}

#[test]
fn following_again_unfollows() {
    let existing = Follow { follower_id: 1, following_id: 2 };
    let (change, a, b) = follow_user(user(1, 0, 5), user(2, 10, 0), Some(existing)).ok().unwrap();
    match change {
        FollowChange::Remove(f) => assert!(f == existing),
        _ => panic!("expected the follow to be removed"),
    }
    assert_eq!(a.following_count, 4);
    assert_eq!(b.follower_count, 9);
}

#[test]
fn follow_then_unfollow_restores_counters() {
    let (change, a, b) = follow_user(user(1, 3, 3), user(2, 3, 3), None).ok().unwrap();
    let f = match change {
        FollowChange::Add(f) => f,
        _ => panic!("expected a new follow"),
    };
    let (_, a, b) = follow_user(a, b, Some(f)).ok().unwrap();
    assert_eq!((a.follower_count, a.following_count), (3, 3));
    assert_eq!((b.follower_count, b.following_count), (3, 3));
}

#[test]
fn following_oneself_is_refused() {
    match follow_user(user(4, 0, 0), user(4, 0, 0), None) {
        Err(TellonymError::ConstraintError(msg)) => assert_eq!(msg, "You can not follow yourself"),
        _ => panic!("expected a constraint error"),
    }
}

#[test]
fn counters_wrap_like_signed_integers() {
    let (a, b) = change_follow_counts(user(1, 0, 0), user(2, 0, 0), -1);
    assert_eq!(a.following_count, u32::MAX);
    assert_eq!(b.follower_count, u32::MAX);
    let (a, _) = change_follow_counts(user(1, 0, 3_000_000_000), user(2, 0, 0), 1);
    assert_eq!(a.following_count, 3_000_000_001);
}

#[test]
fn follow_ids_are_listed_in_order() {
    let follows = vec![
        Follow { follower_id: 1, following_id: 5 },
        Follow { follower_id: 2, following_id: 6 },
        Follow { follower_id: 3, following_id: 5 },
    ];
    assert_eq!(following_ids(&follows), vec![5, 6, 5]);
    assert_eq!(follower_ids(&follows), vec![1, 2, 3]);
    assert_eq!(following_ids(&Vec::new()), Vec::<i32>::new());
}

#[test]
fn follow_counters_track_the_stored_follows() {
    let mut users: Vec<User> = (0..4).map(|i| user(i, 0, 0)).collect();
    let mut store: Vec<Follow> = Vec::new();
    let script = [(0, 1), (2, 1), (0, 1), (1, 0), (3, 1), (0, 2), (2, 1)];
    for (a, b) in script {
        let existing = store.iter().copied().find(|f| f.follower_id == a && f.following_id == b);
        let wants = users[a as usize].clone_user();
        let followed = users[b as usize].clone_user();
        let (change, wants, followed) = follow_user(wants, followed, existing).ok().unwrap();
        match change {
            FollowChange::Remove(f) => store.retain(|x| *x != f),
            FollowChange::Add(f) => store.push(f),
        }
        users[a as usize] = wants;
        users[b as usize] = followed;
        for u in &users {
            let followers = store.iter().filter(|f| f.following_id == u.id).count() as u32;
            let following = store.iter().filter(|f| f.follower_id == u.id).count() as u32;
            assert_eq!((u.follower_count, u.following_count), (followers, following));
        }
    }
}

trait CloneUser {
    fn clone_user(&self) -> User;
}

impl CloneUser for User {
    fn clone_user(&self) -> User {
        User {
            id: self.id,
            username: self.username.clone(),
            password: self.password.clone(),
            follower_count: self.follower_count,
            following_count: self.following_count,
            bio: self.bio.clone(),
            twitch: self.twitch.clone(),
            twitter: self.twitter.clone(),
            youtube: self.youtube.clone(),
            instagram: self.instagram.clone(),
        }
    }
}
