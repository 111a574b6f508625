use bevy_pn_chat::{PublishTask, TaskKind, TaskRegistry};

fn publish(text: &str) -> TaskKind {
    TaskKind::Publish(PublishTask { message: text.to_string(), channel: "c".to_string() })
}

fn message_of(kind: &TaskKind) -> String {
    match kind {
        TaskKind::Publish(p) => p.message.clone(),
        TaskKind::Subscribe(_) => panic!("expected a publish"),
    }
}

#[test]
fn handles_are_fresh_and_in_order() {
    let mut registry = TaskRegistry::new();
    let a = registry.enqueue(publish("a"));
    let b = registry.enqueue(publish("b"));
    let c = registry.enqueue(publish("c"));
    assert_eq!((a, b, c), (0, 1, 2));
    assert_eq!(registry.len(), 3);
}

#[test]
fn out_of_order_completion_yields_each_once() {
    let mut registry = TaskRegistry::new();
    let n: u64 = 5;
    for i in 0..n {
        registry.enqueue(publish(&format!("m{}", i)));
    }
    // Frame 1: tasks 3 and 1 finish, plus a handle that was never given out.
    let first = registry.drain_completed(&vec![3, 1, 42]);
    let got1: Vec<u64> = first.iter().map(|t| t.handle).collect();
    assert_eq!(got1, vec![1, 3]);
    assert_eq!(message_of(&first[0].kind), "m1");
    assert_eq!(registry.len(), 3);
    // Frame 2: nothing finishes.
    assert!(registry.drain_completed(&vec![]).is_empty());
    // Frame 3: 4 finishes, and 3 is reported again.
    let third = registry.drain_completed(&vec![4, 3]);
    let got3: Vec<u64> = third.iter().map(|t| t.handle).collect();
    assert_eq!(got3, vec![4]);
    // Frame 4: the rest.
    let fourth = registry.drain_completed(&vec![2, 0]);
    let got4: Vec<u64> = fourth.iter().map(|t| t.handle).collect();
    assert_eq!(got4, vec![0, 2]);
    assert_eq!(registry.len(), 0);

    let mut all: Vec<u64> = got1.into_iter().chain(got3).chain(got4).collect();
    all.sort();
    assert_eq!(all, (0..n).collect::<Vec<u64>>());
}

#[test]
fn retire_hands_back_once() {
    let mut registry = TaskRegistry::new();
    registry.enqueue(publish("x"));
    let h = registry.enqueue(publish("y"));
    let kind = registry.retire(h);
    assert_eq!(message_of(&kind.expect("registered")), "y");
    assert!(registry.retire(h).is_none());
    assert!(registry.retire(7).is_none());
    assert_eq!(registry.len(), 1);
    assert_eq!(message_of(&registry.task_at(0).kind), "x");
}
