use contract_lab::activity::{generate_user, Action, Actor};

struct Robot;

impl Action for Robot {}

struct Baker;

impl Action for Baker {
    fn action(&self) -> String {
        "bakes bread".to_string()
    }
}

#[test]
fn generated_actor_is_alice() {
    let alice = generate_user();
    assert_eq!(alice.name, "Alice");
    assert_eq!(alice.age, 30);
    assert_eq!(alice.action, "breaks code");
    assert!(alice.confidential_info.is_none());
}

#[test]
fn action_has_a_placeholder_answer() {
    assert_eq!(generate_user().action(), "ABCDEFG");
    assert_eq!(Robot.action(), "ABCDEFG");
    assert_eq!(Baker.action(), "bakes bread");
}

#[test]
fn summary_changes_with_confidential_notes() {
    let mut alice = generate_user();
    assert_eq!(alice.describe(), "Alice is 30 years old and breaks code.");

    alice.confidential_info = Some(vec!["work: SR".to_string(), "skills: Rust".to_string()]);
    assert_eq!(
        alice.describe(),
        "Alice is 30 years old, breaks code and has confidential data."
    );
}

#[test]
fn summary_of_any_actor() {
    let actor = Actor {
        name: "Bob".to_string(),
        age: 101,
        action: "writes proofs".to_string(),
        confidential_info: Some(Vec::new()),
    };
    assert_eq!(
        actor.describe(),
        "Bob is 101 years old, writes proofs and has confidential data."
    );
}
