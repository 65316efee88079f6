use std::future::Future;

use robo::execution::{Directive, ExecutionContext};
use robo::protocol::{Action, MouseButton, Vec2};
use robo::security::EmptySecurity;
use robo::server::{MainThreadMessage, Reaction, Session, SessionEvent};
use robo::state::ClientInfo;

fn key(text: &str) -> MainThreadMessage {
    MainThreadMessage::Perform(Action::KeySequence { text: text.to_string() })
}

fn performed(text: &str) -> Directive {
    Directive::Perform(Action::KeySequence { text: text.to_string() })
}

fn drain(
    context: &mut ExecutionContext<Vec<Action>>,
    receiver: &mut tokio::sync::mpsc::Receiver<MainThreadMessage>,
) -> Vec<Directive> {
    let mut directives = Vec::new();
    while let Ok(message) = receiver.try_recv() {
        match context.handle(message) {
            Some(directive) => directives.push(directive),
            None => break,
        }
    }
    directives
}

#[test]
fn context_asks_for_what_the_message_asks_for() {
    let mut context = ExecutionContext::new(());
    assert!(context.is_running());
    let action = Action::MouseMoveTo { point: Vec2 { x: 4, y: 5 } };
    assert_eq!(
        context.handle(MainThreadMessage::Perform(action.clone())),
        Some(Directive::Perform(action))
    );
    let client = ClientInfo { name: "a:1".to_string() };
    assert_eq!(
        context.handle(MainThreadMessage::DidConnect(client.clone())),
        Some(Directive::Connected(client.clone()))
    );
    assert_eq!(
        context.handle(MainThreadMessage::DidDisconnect(client.clone())),
        Some(Directive::Disconnected(client))
    );
    assert!(context.is_running());
    assert_eq!(context.handle(MainThreadMessage::DidExit), Some(Directive::Exit));
    assert!(!context.is_running());
}

#[test]
fn nothing_is_handled_after_the_exit() {
    let mut context = ExecutionContext::new(());
    let messages = vec![key("a"), key("b"), MainThreadMessage::DidExit, key("c"), MainThreadMessage::DidExit];
    let mut directives = Vec::new();
    for message in messages {
        directives.push(context.handle(message));
    }
    assert_eq!(
        directives,
        vec![Some(performed("a")), Some(performed("b")), Some(Directive::Exit), None, None]
    );
    assert!(!context.is_running());
}

#[test]
fn context_lends_out_its_controller() {
    let mut context = ExecutionContext::new(Vec::new());
    for message in [key("x"), key("y")] {
        if let Some(Directive::Perform(action)) = context.handle(message) {
            context.controller().push(action);
        }
    }
    assert_eq!(
        context.into_controller(),
        vec![
            Action::KeySequence { text: "x".to_string() },
            Action::KeySequence { text: "y".to_string() }
        ]
    );
}

#[test]
fn two_producers_keep_their_own_order() {
    for interleaving in [[0usize, 0, 1, 1], [0, 1, 0, 1], [1, 0, 0, 1], [1, 1, 0, 0]] {
        let (first, mut receiver) = tokio::sync::mpsc::channel(4);
        let second = first.clone();
        let mut of_first = vec![key("A1"), key("A2")].into_iter();
        let mut of_second = vec![key("B1"), key("B2")].into_iter();
        for producer in interleaving {
            if producer == 0 {
                first.try_send(of_first.next().unwrap()).unwrap();
            } else {
                second.try_send(of_second.next().unwrap()).unwrap();
            }
        }
        let mut context = ExecutionContext::new(Vec::new());
        let directives = drain(&mut context, &mut receiver);
        assert_eq!(directives.len(), 4);
        let place = |name: &str| directives.iter().position(|d| *d == performed(name)).unwrap();
        assert!(place("A1") < place("A2"));
        assert!(place("B1") < place("B2"));
    }
}

#[test]
fn full_channel_holds_back_the_next_send() {
    let capacity = 4;
    let (sender, mut receiver) = tokio::sync::mpsc::channel(capacity);
    for i in 0..capacity {
        sender.try_send(key(&format!("m{}", i))).unwrap();
    }
    assert!(matches!(
        sender.try_send(key("refused")),
        Err(tokio::sync::mpsc::error::TrySendError::Full(_))
    ));
    let waker = futures::task::noop_waker();
    let mut task = std::task::Context::from_waker(&waker);
    let mut pending = Box::pin(sender.send(key("m4")));
    assert!(pending.as_mut().poll(&mut task).is_pending());
    assert!(pending.as_mut().poll(&mut task).is_pending());
    assert_eq!(receiver.try_recv(), Ok(key("m0")));
    assert!(matches!(pending.as_mut().poll(&mut task), std::task::Poll::Ready(Ok(()))));
    let mut context = ExecutionContext::new(Vec::new());
    assert_eq!(
        drain(&mut context, &mut receiver),
        vec![performed("m1"), performed("m2"), performed("m3"), performed("m4")]
    );
}

#[test]
fn exit_ends_the_loop_after_what_was_queued_before_it() {
    let (sender, mut receiver) = tokio::sync::mpsc::channel(8);
    for message in [key("before 1"), key("before 2"), MainThreadMessage::DidExit, key("after")] {
        sender.try_send(message).unwrap();
    }
    let mut context = ExecutionContext::new(());
    let mut performed_actions = Vec::new();
    while context.is_running() {
        match receiver.try_recv() {
            Ok(message) => {
                if let Some(Directive::Perform(action)) = context.handle(message) {
                    performed_actions.push(action);
                }
            }
            Err(_) => break,
        }
    }
    assert!(!context.is_running());
    assert_eq!(
        performed_actions,
        vec![
            Action::KeySequence { text: "before 1".to_string() },
            Action::KeySequence { text: "before 2".to_string() }
        ]
    );
    assert_eq!(receiver.try_recv(), Ok(key("after")));
    assert_eq!(context.handle(key("after")), None);
}

#[test]
fn mouse_click_without_button_reaches_the_context_once() {
    let (sender, mut receiver) = tokio::sync::mpsc::channel(4);
    let mut session = Session::new(ClientInfo { name: "phone:1234".to_string() });
    sender.try_send(session.connect().unwrap()).unwrap();
    let frame = SessionEvent::Binary(b"{\"type\":\"mouseClick\"}".to_vec());
    match session.receive(&EmptySecurity, frame) {
        Reaction::Emit(message) => sender.try_send(message).unwrap(),
        other => panic!("unexpected reaction {:?}", other),
    }
    session.receive(&EmptySecurity, SessionEvent::Close);
    sender.try_send(session.disconnect().unwrap()).unwrap();
    let mut context = ExecutionContext::new(Vec::new());
    let directives = drain(&mut context, &mut receiver);
    let performs: Vec<&Directive> =
        directives.iter().filter(|d| matches!(d, Directive::Perform(_))).collect();
    assert_eq!(
        performs,
        vec![&Directive::Perform(Action::MouseClick { button: MouseButton::Left })]
    );
    assert_eq!(
        directives,
        vec![
            Directive::Connected(ClientInfo { name: "phone:1234".to_string() }),
            Directive::Perform(Action::MouseClick { button: MouseButton::Left }),
            Directive::Disconnected(ClientInfo { name: "phone:1234".to_string() }),
        ]
    );
}
