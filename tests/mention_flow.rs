use mentions::{Account, Comment, Mention, MentionLink, MentionTarget, NewMention, Post, Store};

fn account(id: i32, url: &str, display_name: &str, fqn: &str) -> Account {
    Account {
        id,
        ap_url: url.to_string(),
        display_name: display_name.to_string(),
        fqn: fqn.to_string(),
    }
}

fn link(href: &str, name: &str) -> MentionLink {
    MentionLink { href: Some(href.to_string()), name: Some(name.to_string()) }
}

/// Alice (1), Bob (2) and Carol (3); post 42 by Bob then Carol; comment 7 by Carol.
fn sample_store() -> Store {
    let mut store = Store::new();
    store.accounts.push(account(1, "https://remote/alice", "Alice", "alice@remote"));
    store.accounts.push(account(2, "https://local/bob", "Bob", "bob"));
    store.accounts.push(account(3, "https://local/carol", "Carol", "carol"));
    store.posts.push(Post { id: 42, ap_url: "https://local/post/42".to_string(), author_ids: vec![2, 3] });
    store.comments.push(Comment {
        id: 7,
        ap_url: Some("https://local/comment/7".to_string()),
        author_id: 3,
    });
    store
}

#[test]
fn round_trip_post_mention() {
    let mut store = sample_store();
    let ment = link("https://remote/alice", "@alice");
    let inside = "https://local/post/42".to_string();
    let m = Mention::from_activity(&mut store, &ment, &inside).expect("post resolves");
    assert_eq!(m.target, MentionTarget::Post(42));
    assert_eq!(m.ap_url, "https://remote/alice");
    assert_eq!(m.mentioned_id, 1);
    assert_eq!(m.id, 1);
    assert_eq!(store.mentions.len(), 1);
    assert_eq!(store.notifications.len(), 1);

    Mention::notify(&mut store, &ment);
    assert_eq!(store.notifications.len(), 2);
    let n = &store.notifications[1];
    assert_eq!(n.user_id, 1);
    assert_eq!(n.link.as_deref(), Some("https://local/post/42"));
    assert_eq!(n.data.as_deref(), Some("Bob"));
    assert_eq!(n.title, "{{ data }} mentioned you.");
    assert_eq!(n.content, None);
}

#[test]
fn missing_account_skips_notification() {
    let mut store = sample_store();
    let inside = "https://local/post/42".to_string();
    Mention::from_activity(&mut store, &link("https://remote/alice", "@alice"), &inside).unwrap();
    store.notifications.clear();
    store.accounts.retain(|a| a.id != 1);
    Mention::notify(&mut store, &link("https://remote/alice", "@alice"));
    assert!(store.notifications.is_empty());
    assert_eq!(store.mentions.len(), 1);
}

#[test]
fn post_wins_over_comment_with_same_identifier() {
    let mut store = sample_store();
    store.comments.push(Comment {
        id: 8,
        ap_url: Some("https://local/post/42".to_string()),
        author_id: 3,
    });
    let inside = "https://local/post/42".to_string();
    let m = Mention::from_activity(&mut store, &link("https://local/bob", "@bob"), &inside).unwrap();
    assert_eq!(m.target, MentionTarget::Post(42));
}

#[test]
fn comment_target_when_no_post_matches() {
    let mut store = sample_store();
    let inside = "https://local/comment/7".to_string();
    let m = Mention::from_activity(&mut store, &link("https://remote/alice", "@alice"), &inside).unwrap();
    assert_eq!(m.target, MentionTarget::Comment(7));
    assert_eq!(store.notifications.len(), 1);
    let n = &store.notifications[0];
    assert_eq!(n.data.as_deref(), Some("Carol"));
    assert_eq!(n.link.as_deref(), Some("https://local/comment/7"));
    assert_eq!(n.user_id, 1);
}

#[test]
fn comment_without_url_links_to_empty_string() {
    let mut store = sample_store();
    store.comments.push(Comment { id: 9, ap_url: None, author_id: 2 });
    store.mentions.push(Mention {
        id: 5,
        mentioned_id: 1,
        target: MentionTarget::Comment(9),
        ap_url: "https://remote/alice".to_string(),
    });
    Mention::notify(&mut store, &link("https://remote/alice", ""));
    assert_eq!(store.notifications.len(), 1);
    assert_eq!(store.notifications[0].link.as_deref(), Some(""));
    assert_eq!(store.notifications[0].data.as_deref(), Some("Bob"));
}

#[test]
fn no_target_no_mention() {
    let mut store = sample_store();
    let inside = "https://elsewhere/note/1".to_string();
    let r = Mention::from_activity(&mut store, &link("https://remote/alice", "@alice"), &inside);
    assert!(r.is_none());
    assert!(store.mentions.is_empty());
    assert!(store.notifications.is_empty());
}

#[test]
fn each_notify_adds_exactly_one() {
    let mut store = sample_store();
    let inside = "https://local/post/42".to_string();
    let ment = link("https://remote/alice", "@alice");
    Mention::from_activity(&mut store, &ment, &inside).unwrap();
    Mention::from_activity(&mut store, &ment, &inside).unwrap();
    assert_eq!(store.mentions.len(), 2);
    assert_eq!(store.notifications.len(), 2);
    for k in 0..3 {
        Mention::notify(&mut store, &ment);
        assert_eq!(store.notifications.len(), 3 + k);
    }
}

#[test]
fn first_author_is_attributed() {
    let mut store = sample_store();
    let inside = "https://local/post/42".to_string();
    Mention::from_activity(&mut store, &link("https://remote/alice", "@alice"), &inside).unwrap();
    assert_eq!(store.notifications[0].data.as_deref(), Some("Bob"));
    assert_ne!(store.notifications[0].data.as_deref(), Some("Carol"));
}

#[test]
fn post_without_authors_gets_no_notification() {
    let mut store = sample_store();
    store.posts.push(Post { id: 43, ap_url: "https://local/post/43".to_string(), author_ids: vec![] });
    let inside = "https://local/post/43".to_string();
    let m = Mention::from_activity(&mut store, &link("https://remote/alice", "@alice"), &inside);
    assert_eq!(m.unwrap().target, MentionTarget::Post(43));
    assert!(store.notifications.is_empty());
}

#[test]
fn notify_without_stored_mention_does_nothing() {
    let mut store = sample_store();
    Mention::notify(&mut store, &link("https://remote/alice", "@alice"));
    assert!(store.notifications.is_empty());
}

#[test]
fn notify_with_absent_href_looks_up_empty_identifier() {
    let mut store = sample_store();
    store.mentions.push(Mention {
        id: 1,
        mentioned_id: 2,
        target: MentionTarget::Comment(7),
        ap_url: String::new(),
    });
    Mention::notify(&mut store, &MentionLink { href: None, name: None });
    assert_eq!(store.notifications.len(), 1);
    assert_eq!(store.notifications[0].user_id, 2);
}

#[test]
fn notify_uses_first_mention_with_the_identifier() {
    let mut store = sample_store();
    store.mentions.push(Mention {
        id: 1,
        mentioned_id: 2,
        target: MentionTarget::Comment(7),
        ap_url: "https://x/m".to_string(),
    });
    store.mentions.push(Mention {
        id: 2,
        mentioned_id: 3,
        target: MentionTarget::Post(42),
        ap_url: "https://x/m".to_string(),
    });
    Mention::notify(&mut store, &link("https://x/m", ""));
    assert_eq!(store.notifications.len(), 1);
    assert_eq!(store.notifications[0].user_id, 2);
    assert_eq!(store.notifications[0].data.as_deref(), Some("Carol"));
}

#[test]
fn to_activity_of_known_account() {
    let store = sample_store();
    let mut store2 = Store::new();
    store2.accounts.push(account(4, "https://example.com/users/alice", "Alice", "alice@example.com"));
    let m = Mention {
        id: 1,
        mentioned_id: 4,
        target: MentionTarget::Post(42),
        ap_url: "https://example.com/users/alice".to_string(),
    };
    let l = m.to_activity(&store2);
    assert_eq!(l.name.as_deref(), Some("@alice@example.com"));
    assert_eq!(l.href.as_deref(), Some("https://example.com/users/alice"));
    let l2 = Mention { mentioned_id: 1, ..m }.to_activity(&store);
    assert_eq!(l2.name.as_deref(), Some("@alice@remote"));
}

#[test]
fn to_activity_of_missing_account_is_empty() {
    let store = sample_store();
    let m = Mention { id: 1, mentioned_id: 99, target: MentionTarget::Post(42), ap_url: String::new() };
    let l = m.to_activity(&store);
    assert_eq!(l.href.as_deref(), Some(""));
    assert_eq!(l.name.as_deref(), Some(""));
}

#[test]
fn inserted_ids_are_fresh() {
    let mut store = sample_store();
    store.mentions.push(Mention {
        id: 10,
        mentioned_id: 1,
        target: MentionTarget::Post(42),
        ap_url: "a".to_string(),
    });
    let m = Mention::insert(
        &mut store,
        NewMention { mentioned_id: 2, target: MentionTarget::Comment(7), ap_url: "b".to_string() },
    );
    assert_eq!(m.id, 11);
    store.mentions.remove(0);
    let m2 = Mention::insert(
        &mut store,
        NewMention { mentioned_id: 2, target: MentionTarget::Comment(7), ap_url: "c".to_string() },
    );
    assert_eq!(m2.id, 12);
    assert_eq!(store.mentions.len(), 2);
}

#[test]
fn getters_follow_the_target() {
    let store = sample_store();
    let on_post = Mention { id: 1, mentioned_id: 1, target: MentionTarget::Post(42), ap_url: String::new() };
    let on_comment = Mention { id: 2, mentioned_id: 3, target: MentionTarget::Comment(7), ap_url: String::new() };
    assert_eq!(on_post.get_post(&store).map(|p| p.id), Some(42));
    assert!(on_post.get_comment(&store).is_none());
    assert_eq!(on_comment.get_comment(&store).map(|c| c.id), Some(7));
    assert!(on_comment.get_post(&store).is_none());
    assert_eq!(on_comment.get_mentioned(&store).map(|a| a.fqn.as_str()), Some("carol"));
    assert_eq!(on_post.attributed_author(&store).map(|a| a.id), Some(2));
    assert_eq!(on_comment.attributed_author(&store).map(|a| a.id), Some(3));
}

#[test]
fn lookups_return_first_match() {
    let mut store = sample_store();
    store.accounts.push(account(5, "https://remote/alice", "Other", "other"));
    let url = "https://remote/alice".to_string();
    assert_eq!(store.find_account_by_ap_url(&url).map(|a| a.id), Some(1));
    assert_eq!(store.get_account(3).map(|a| a.display_name.as_str()), Some("Carol"));
    assert!(store.get_account(77).is_none());
    assert!(store.find_post_by_ap_url(&url).is_none());
    assert_eq!(store.find_comment_by_ap_url(&"https://local/comment/7".to_string()).map(|c| c.id), Some(7));
}
