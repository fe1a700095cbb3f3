use game_events::document::Document;
use game_events::payload::ActionType;
use game_events::types::Command;

fn command(name: &str) -> Command {
    Command(Document::Text(name.to_string()))
}

#[test]
fn new_batch_is_empty() {
    let action = ActionType::new();
    assert!(action.commands.is_empty());
}

#[test]
fn push_twice_equals_append_once() {
    let mut pushed = ActionType::new();
    pushed.push(command("left")).push(command("drop"));
    let mut appended = ActionType::new();
    let mut source = vec![command("left"), command("drop")];
    appended.append(&mut source);
    assert_eq!(pushed, appended);
    assert_eq!(pushed.commands, vec![command("left"), command("drop")]);
}

#[test]
fn append_drains_the_source() {
    let mut action = ActionType::new();
    action.push(command("rotate"));
    let mut source = vec![command("left"), command("drop")];
    action.append(&mut source);
    assert!(source.is_empty());
    assert_eq!(action.commands, vec![command("rotate"), command("left"), command("drop")]);
    assert_eq!(action.commands.len(), 3);
}
