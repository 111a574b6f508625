use bevy_pn_chat::{
    subscribe_body, tasks_handler, BevyPNError, MessageFormat, Message, Operation,
    PubNubSubscribeResource, SubscriptionInfo, SubscriptionLoop, SubscriptionResult, TaskKind,
    TaskOutcome, TaskRegistry, PublishTask,
};

fn resource() -> PubNubSubscribeResource {
    PubNubSubscribeResource::new("sub-key".to_string(), "room1".to_string(), "john".to_string())
}

fn result(tt: &str, tr: i32, messages: Vec<(&str, &str)>) -> SubscriptionResult {
    SubscriptionResult {
        message_info: SubscriptionInfo { tt: tt.to_string(), tr },
        messages: messages
            .into_iter()
            .map(|(c, d)| Message { channel: c.to_string(), user_id: String::new(), payload: d.to_string() })
            .collect(),
    }
}

fn cursor_of(l: &SubscriptionLoop) -> (String, i32) {
    (l.resource().tt.clone(), l.resource().tr)
}

fn last_subscribe_cursor(registry: &TaskRegistry) -> (String, i32) {
    match &registry.task_at(registry.len() - 1).kind {
        TaskKind::Subscribe(s) => (s.cursor.tt.clone(), s.cursor.tr),
        TaskKind::Publish(_) => panic!("expected a long poll"),
    }
}

#[test]
fn start_enqueues_one_poll_from_now() {
    let mut registry = TaskRegistry::new();
    let mut sub = SubscriptionLoop::new(resource());
    assert_eq!(sub.outstanding_handle(), None);
    assert_eq!(sub.start(&mut registry), Some(0));
    assert_eq!(registry.len(), 1);
    assert_eq!(last_subscribe_cursor(&registry), ("0".to_string(), 0));
    assert_eq!(sub.start(&mut registry), None);
    assert_eq!(registry.len(), 1);
}

#[test]
fn response_moves_cursor_and_emits_messages() {
    let mut registry = TaskRegistry::new();
    let mut sub = SubscriptionLoop::new(resource());
    sub.start(&mut registry);
    let done = registry.drain_completed(&vec![0]);
    assert_eq!(done.len(), 1);
    let step = sub.on_subscribe_result(&mut registry, Ok(result("15", 2, vec![("room1", "hello")])));
    assert!(step.error.is_none());
    assert_eq!(step.messages.len(), 1);
    assert_eq!(step.messages[0].channel, "room1");
    assert_eq!(step.messages[0].payload, "hello");
    assert_eq!(cursor_of(&sub), ("15".to_string(), 2));
    assert_eq!(registry.len(), 1);
    assert_eq!(last_subscribe_cursor(&registry), ("15".to_string(), 2));
    assert_eq!(step.next, 1);
    assert_eq!(sub.outstanding_handle(), Some(1));
}

#[test]
fn empty_body_keeps_cursor_and_retries() {
    let mut registry = TaskRegistry::new();
    let mut sub = SubscriptionLoop::new(resource());
    sub.start(&mut registry);
    sub.on_subscribe_result(&mut registry, Ok(result("15", 2, vec![])));
    registry.drain_completed(&vec![0, 1]);
    let failure = match subscribe_body(Ok(None)) {
        Err(e) => e,
        Ok(_) => panic!("expected an error"),
    };
    match &failure {
        BevyPNError::EmptyBody { on } => assert_eq!(on, "Subscribe"),
        other => panic!("unexpected {:?}", other),
    }
    let step = sub.on_subscribe_result(&mut registry, Err(failure));
    assert!(matches!(step.error, Some(BevyPNError::EmptyBody { .. })));
    assert!(step.messages.is_empty());
    assert_eq!(cursor_of(&sub), ("15".to_string(), 2));
    assert_eq!(registry.len(), 1);
    assert_eq!(last_subscribe_cursor(&registry), ("15".to_string(), 2));
}

#[test]
fn scripted_results_leave_last_success_cursor() {
    let mut registry = TaskRegistry::new();
    let mut sub = SubscriptionLoop::new(resource());
    sub.start(&mut registry);
    let script: Vec<Result<SubscriptionResult, BevyPNError>> = vec![
        Ok(result("10", 1, vec![])),
        Err(BevyPNError::PubNub { message: "timeout".to_string() }),
        Ok(result("20", 3, vec![("room1", "a"), ("room1", "b")])),
        Err(BevyPNError::Deserialize { message: "bad".to_string() }),
        Err(BevyPNError::EmptyBody { on: "Subscribe".to_string() }),
    ];
    let mut before = registry.len();
    for r in script {
        let failed = r.is_err();
        let cursor_before = cursor_of(&sub);
        sub.on_subscribe_result(&mut registry, r);
        assert_eq!(registry.len(), before + 1);
        before = registry.len();
        if failed {
            assert_eq!(cursor_of(&sub), cursor_before);
        }
    }
    assert_eq!(cursor_of(&sub), ("20".to_string(), 3));
    assert_eq!(last_subscribe_cursor(&registry), ("20".to_string(), 3));
}

#[test]
fn request_carries_path_and_cursor() {
    let res = resource();
    let req = res.subscribe_request(&SubscriptionInfo { tt: "15".to_string(), tr: 2 });
    assert_eq!(req.path, "v2/subscribe/sub-key/room1/0");
    assert_eq!(
        req.query_parameters,
        vec![
            ("tt".to_string(), "15".to_string()),
            ("tr".to_string(), "2".to_string()),
            ("uuid".to_string(), "john".to_string()),
        ]
    );
    let req = res.subscribe_request(&SubscriptionInfo { tt: "0".to_string(), tr: -307 });
    assert_eq!(req.query_parameters[1].1, "-307");
    assert_eq!(res.tt, "0");
    assert_eq!(res.tr, 0);
}

#[test]
fn body_framing() {
    match subscribe_body(Ok(Some(vec![b'{', b'}']))) {
        Ok(b) => assert_eq!(b, vec![b'{', b'}']),
        Err(e) => panic!("unexpected {:?}", e),
    }
    assert!(matches!(subscribe_body(Ok(Some(vec![]))), Err(BevyPNError::EmptyBody { .. })));
    assert!(matches!(subscribe_body(Ok(None)), Err(BevyPNError::EmptyBody { .. })));
    match subscribe_body(Err(BevyPNError::PubNub { message: "down".to_string() })) {
        Err(BevyPNError::PubNub { message }) => assert_eq!(message, "down"),
        other => panic!("unexpected {:?}", other.is_ok()),
    }
}

#[test]
fn message_format_fills_placeholders() {
    let format = MessageFormat("{username}: {message}".to_string());
    let m = Message { channel: "room1".to_string(), user_id: "bob".to_string(), payload: "hi".to_string() };
    assert_eq!(format.format(&m).text, "bob: hi");
    let format = MessageFormat("[{channel}] {username} said {message}, {username}!".to_string());
    assert_eq!(format.format(&m).text, "[room1] bob said hi, bob!");
    let format = MessageFormat("{time} {message}".to_string());
    assert_eq!(format.format(&m).text, "{time} hi");
}

#[test]
fn frame_handles_each_completion_once() {
    let mut registry = TaskRegistry::new();
    let mut sub = SubscriptionLoop::new(resource());
    let format = MessageFormat("{channel}: {message}".to_string());
    let poll = sub.start(&mut registry).expect("idle loop starts");
    let publish = registry.enqueue(TaskKind::Publish(PublishTask {
        message: "hi".to_string(),
        channel: "room1".to_string(),
    }));

    let report = tasks_handler(
        &mut registry,
        &mut sub,
        &format,
        publish,
        TaskOutcome::Published(Err(BevyPNError::PubNub { message: "refused".to_string() })),
    );
    assert!(report.lines.is_empty());
    assert!(matches!(report.failure, Some((Operation::Publish, BevyPNError::PubNub { .. }))));
    assert_eq!(registry.len(), 1);

    let report = tasks_handler(
        &mut registry,
        &mut sub,
        &format,
        poll,
        TaskOutcome::Subscribed(Ok(result("15", 2, vec![("room1", "hello")]))),
    );
    assert!(report.failure.is_none());
    assert_eq!(report.lines.len(), 1);
    assert_eq!(report.lines[0].text, "room1: hello");
    assert_eq!(registry.len(), 1);
    assert_eq!(last_subscribe_cursor(&registry), ("15".to_string(), 2));

    // The same poll reported again is ignored.
    let report = tasks_handler(
        &mut registry,
        &mut sub,
        &format,
        poll,
        TaskOutcome::Subscribed(Ok(result("99", 9, vec![("room1", "again")]))),
    );
    assert!(report.lines.is_empty());
    assert_eq!(cursor_of(&sub), ("15".to_string(), 2));
    assert_eq!(registry.len(), 1);
}

#[test]
fn empty_body_is_reported_through_the_frame() {
    let mut registry = TaskRegistry::new();
    let mut sub = SubscriptionLoop::new(resource());
    let format = MessageFormat("{username}: {message}".to_string());
    let poll = sub.start(&mut registry).expect("idle loop starts");
    let outcome = TaskOutcome::Subscribed(subscribe_body(Ok(Some(vec![]))).map(|_| result("1", 1, vec![])));
    let report = tasks_handler(&mut registry, &mut sub, &format, poll, outcome);
    match report.failure {
        Some((Operation::Subscribe, BevyPNError::EmptyBody { on })) => assert_eq!(on, "Subscribe"),
        _ => panic!("expected an empty-body failure"),
    }
    assert!(report.lines.is_empty());
    assert_eq!(cursor_of(&sub), ("0".to_string(), 0));
    assert_eq!(registry.len(), 1);
    assert_eq!(last_subscribe_cursor(&registry), ("0".to_string(), 0));
    assert_eq!(sub.outstanding_handle(), Some(poll + 1));
}
