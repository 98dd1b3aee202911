use contract_lab::guest_book::{Contract, PostedMessage, DEFAULT_LIMIT, PREMIUM_MILLINEAR};

const ONE_TENTH_NEAR: u128 = 100_000_000_000_000_000_000_000;

fn text_of(messages: &[&PostedMessage]) -> Vec<String> {
    messages.iter().map(|m| m.text.clone()).collect()
}

fn book_of(count: usize) -> Contract {
    let mut contract = Contract::default();
    for i in 0..count {
        contract.add_message("bob.near".to_string(), 0, format!("message {}", i));
    }
    contract
}

#[test]
fn add_message() {
    let mut contract = Contract::default();
    contract.add_message("bob.near".to_string(), 0, "A message".to_string());

    let messages = contract.get_messages(None, None);
    let posted_message = &messages[0];
    assert_eq!(posted_message.premium, false);
    assert_eq!(posted_message.text, "A message".to_string());
}

#[test]
fn iters_messages() {
    let mut contract = Contract::default();
    contract.add_message("bob.near".to_string(), 0, "1st message".to_string());
    contract.add_message("bob.near".to_string(), 0, "2nd message".to_string());
    contract.add_message("bob.near".to_string(), 0, "3rd message".to_string());

    let total = &contract.total_messages();
    assert!(*total == 3);

    let messages = contract.get_messages(Some(1), Some(2));
    let last_message = &messages[1];
    assert_eq!(last_message.premium, false);
    assert_eq!(last_message.text, "3rd message".to_string());
}

#[test]
fn premium_starts_at_a_tenth_of_a_near() {
    let mut contract = Contract::new();
    contract.add_message("a.near".to_string(), ONE_TENTH_NEAR - 1, "just below".to_string());
    contract.add_message("b.near".to_string(), ONE_TENTH_NEAR, "exactly".to_string());
    contract.add_message("c.near".to_string(), ONE_TENTH_NEAR + 1, "above".to_string());
    contract.add_message("d.near".to_string(), PREMIUM_MILLINEAR, "a hundred yocto".to_string());
    contract.add_message("e.near".to_string(), u128::MAX, "everything".to_string());

    let messages = contract.get_messages(None, None);
    let premium: Vec<bool> = messages.iter().map(|m| m.premium).collect();
    assert_eq!(premium, vec![false, true, true, false, true]);
}

#[test]
fn message_keeps_sender_and_text() {
    let mut contract = Contract::new();
    contract.add_message("alice.near".to_string(), 5, "hello".to_string());
    let messages = contract.get_messages(None, None);
    assert_eq!(messages.len(), 1);
    assert_eq!(messages[0].sender, "alice.near");
    assert_eq!(messages[0].text, "hello");
    assert!(!messages[0].premium);
}

#[test]
fn empty_book_shows_nothing() {
    let contract = Contract::default();
    assert_eq!(contract.total_messages(), 0);
    assert!(contract.get_messages(None, None).is_empty());
    assert!(contract.get_messages(Some(0), Some(5)).is_empty());
    assert!(contract.get_messages(Some(3), None).is_empty());
}

#[test]
fn default_page_holds_ten_messages() {
    let contract = book_of(25);
    assert_eq!(DEFAULT_LIMIT, 10);
    assert_eq!(contract.total_messages(), 25);

    let first = contract.get_messages(None, None);
    assert_eq!(first.len(), 10);
    assert_eq!(first[0].text, "message 0");
    assert_eq!(first[9].text, "message 9");

    let second = contract.get_messages(Some(10), None);
    assert_eq!(second.len(), 10);
    assert_eq!(second[0].text, "message 10");

    let last = contract.get_messages(Some(20), None);
    assert_eq!(text_of(&last), vec!["message 20", "message 21", "message 22", "message 23", "message 24"]);
}

#[test]
fn page_is_cut_at_the_end_of_the_book() {
    let contract = book_of(5);
    assert_eq!(text_of(&contract.get_messages(Some(3), Some(10))), vec!["message 3", "message 4"]);
    assert_eq!(text_of(&contract.get_messages(Some(4), Some(1))), vec!["message 4"]);
    assert_eq!(text_of(&contract.get_messages(None, Some(2))), vec!["message 0", "message 1"]);
    assert!(contract.get_messages(Some(5), Some(1)).is_empty());
    assert!(contract.get_messages(Some(6), None).is_empty());
    assert!(contract.get_messages(Some(2), Some(0)).is_empty());
}

#[test]
fn huge_positions_and_limits_are_harmless() {
    let contract = book_of(3);
    assert!(contract.get_messages(Some(u64::MAX), Some(u64::MAX)).is_empty());
    assert_eq!(contract.get_messages(Some(0), Some(u64::MAX)).len(), 3);
    assert_eq!(text_of(&contract.get_messages(Some(2), Some(u64::MAX))), vec!["message 2"]);
}
