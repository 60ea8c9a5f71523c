use mission_board::chat::ChatUseCase;

#[test]
fn new_chat_is_empty() {
    let chat = ChatUseCase::new();
    assert!(chat.get_messages(1).is_empty());
}

#[test]
fn send_message_returns_what_it_stored() {
    let mut chat = ChatUseCase::new();
    let msg = chat.send_message(7, 42, String::from("Ana"), String::from("on my way"));
    assert_eq!(msg.mission_id, 7);
    assert_eq!(msg.sender_id, 42);
    assert_eq!(msg.sender_name, "Ana");
    assert_eq!(msg.content, "on my way");
    assert_eq!(msg.id.chars().count(), 36);
    let feed = chat.get_messages(7);
    assert_eq!(feed.len(), 1);
    assert_eq!(feed[0].id, msg.id);
    assert_eq!(feed[0].content, "on my way");
}

#[test]
fn feeds_are_separate_per_mission_and_ordered() {
    let mut chat = ChatUseCase::new();
    chat.send_message(1, 10, String::from("Ana"), String::from("first"));
    chat.send_message(2, 11, String::from("Bo"), String::from("elsewhere"));
    chat.send_message(1, 12, String::from("Cy"), String::from("second"));
    let feed: Vec<String> = chat.get_messages(1).into_iter().map(|m| m.content).collect();
    assert_eq!(feed, vec![String::from("first"), String::from("second")]);
    assert_eq!(chat.get_messages(2).len(), 1);
    assert!(chat.get_messages(3).is_empty());
}

#[test]
fn message_ids_differ() {
    let mut chat = ChatUseCase::new();
    let a = chat.send_message(1, 10, String::from("Ana"), String::from("hi"));
    let b = chat.send_message(1, 10, String::from("Ana"), String::from("hi"));
    assert_ne!(a.id, b.id);
}
