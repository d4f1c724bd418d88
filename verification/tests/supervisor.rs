use birdy_bot::supervisor::{Supervisor, Event, Action, Phase, SessionState, QUIESCENT_WINDOW};

fn frame(s: &[u8]) -> Event {
    Event::Frame { frame: s.to_vec() }
}

fn message(channel: &[u8], content: &[u8]) -> Event {
    let mut f = Vec::new();
    f.extend_from_slice(br#"{"type":"Message","channel":""#);
    f.extend_from_slice(channel);
    f.extend_from_slice(br#"","content":"#);
    let quoted = serde_json::to_vec(std::str::from_utf8(content).expect("test content is UTF-8"))
        .expect("test content serializes");
    f.extend_from_slice(&quoted);
    f.push(b'}');
    Event::Frame { frame: f }
}

#[test]
fn startup_connects_then_authenticates_and_pings() {
    let mut s = Supervisor::new();
    assert_eq!(s.session, SessionState::Disconnected);
    let acts = s.step(Event::Start);
    assert!(matches!(acts.as_slice(), [Action::Connect]));
    assert_eq!(s.session, SessionState::Connecting);
    let acts = s.step(Event::Opened);
    assert!(matches!(acts.as_slice(), [Action::Authenticate, Action::Ping]));
    assert_eq!(s.session, SessionState::Authenticated);
    let acts = s.step(frame(br#"{"type":"Authenticated"}"#));
    assert!(acts.is_empty());
    assert_eq!(s.session, SessionState::Active);
}

#[test]
fn read_failure_reconnects_and_clears_the_loop() {
    let mut s = Supervisor::new();
    s.step(Event::Start);
    s.step(Event::Opened);
    s.step(frame(br#"{"type":"Pong"}"#));
    s.step(message(b"c1", "!help".as_bytes()));
    let acts = s.step(Event::ReadFailed);
    assert!(matches!(acts.as_slice(), [Action::Connect]));
    assert_eq!(s.session, SessionState::Connecting);
    assert_eq!(s.quiescent, 0);
    assert!(s.pending.is_empty());
}

#[test]
fn pong_opens_the_window_and_messages_wait_for_it() {
    let mut s = Supervisor::new();
    let acts = s.step(frame(br#"{"type":"Pong"}"#));
    assert!(acts.is_empty());
    assert_eq!(s.quiescent, QUIESCENT_WINDOW);

    // A message arriving inside the window is buffered, not dispatched.
    let acts = s.step(message(b"c1", b"!help"));
    assert!(acts.is_empty());
    assert_eq!(s.pending.len(), 1);
    assert!(s.drain_one().is_empty());

    // The window elapses tick by tick; only then is the message dispatched.
    for _ in 0..QUIESCENT_WINDOW {
        assert!(s.step(Event::Tick).is_empty());
    }
    assert_eq!(s.quiescent, 0);
    let acts = s.drain_one();
    match acts.as_slice() {
        [Action::PostText { channel, content }] => {
            assert_eq!(channel.as_slice(), b"c1");
            assert!(content.starts_with(b"```"));
        }
        _ => panic!("expected the buffered help reply"),
    }
    assert!(s.pending.is_empty());
}

#[test]
fn help_message_posts_the_fixed_text() {
    let mut s = Supervisor::new();
    let acts = s.step(message(b"c7", b"!help"));
    match acts.as_slice() {
        [Action::PostText { channel, content }] => {
            assert_eq!(channel.as_slice(), b"c7");
            let text = String::from_utf8(content.clone()).expect("help text is UTF-8");
            assert!(text.contains("!help"));
            assert!(text.contains("!graph"));
            assert!(text.contains("!eval"));
            assert!(text.contains("!comp"));
        }
        _ => panic!("expected exactly the help reply"),
    }
    assert!(matches!(s.phase, Phase::Idle));
}

#[test]
fn compile_scenario_calls_the_sandbox_then_replies_with_stdout() {
    let mut s = Supervisor::new();
    let acts = s.step(message(
        b"c1",
        b"!comp (stable,release,2021) ```rust fn main(){println!(\"hi\");}```",
    ));
    match acts.as_slice() {
        [Action::CallSandbox { body }] => {
            assert_eq!(
                body.as_slice(),
                br#"{"channel":"stable","edition":"2021","code":"fn main(){println!(\"hi\");}","crateType":"bin","mode":"release","tests":false}"#.as_slice()
            );
        }
        _ => panic!("expected exactly the sandbox call"),
    }
    assert!(matches!(s.phase, Phase::AwaitSandbox { .. }));
    let acts = s.step(Event::SandboxDone {
        body: Some(br#"{"success":true,"stdout":"hi\n","stderr":""}"#.to_vec()),
    });
    match acts.as_slice() {
        [Action::PostText { channel, content }] => {
            assert_eq!(channel.as_slice(), b"c1");
            assert_eq!(content.as_slice(), b"``` \n hi\n".as_slice());
        }
        _ => panic!("expected exactly the compile reply"),
    }
    assert!(matches!(s.phase, Phase::Idle));
}

#[test]
fn compile_missing_block_replies_without_calling_the_sandbox() {
    let mut s = Supervisor::new();
    let acts = s.step(message(b"c1", b"!comp no fence here"));
    match acts.as_slice() {
        [Action::PostText { channel, content }] => {
            assert_eq!(channel.as_slice(), b"c1");
            assert_eq!(content.as_slice(), b"Error Missing code block".as_slice());
        }
        _ => panic!("expected exactly the missing-block reply"),
    }
    assert!(matches!(s.phase, Phase::Idle));
}

#[test]
fn sandbox_transport_failure_becomes_a_generic_reply() {
    let mut s = Supervisor::new();
    s.step(message(b"c1", b"!comp ```rust fn main(){}```"));
    let acts = s.step(Event::SandboxDone { body: None });
    match acts.as_slice() {
        [Action::PostText { content, .. }] => {
            assert_eq!(content.as_slice(), b"Error The compile service failed".as_slice());
        }
        _ => panic!("expected exactly the generic compile failure reply"),
    }
}

#[test]
fn eval_scenario_posts_the_link_before_fetching() {
    let mut s = Supervisor::new();
    let acts = s.step(message(b"c2", b"!eval (blue) x^2+y^2=1"));
    match acts.as_slice() {
        [Action::PostText { channel, content }, Action::FetchImage { url }] => {
            assert_eq!(channel.as_slice(), b"c2");
            assert_eq!(
                url.as_slice(),
                b"https://latex.codecogs.com/png.latex?\\bg_bluex^2+y^2=1".as_slice()
            );
            assert_eq!(
                content.as_slice(),
                b"[](https://latex.codecogs.com/png.latex?\\bg_bluex^2+y^2=1)".as_slice()
            );
        }
        _ => panic!("expected the link post first, then the fetch"),
    }
    let acts = s.step(Event::ImageFetched { ok: true });
    assert!(matches!(acts.as_slice(), [Action::StoreImage]));
    assert!(matches!(s.phase, Phase::Idle));
}

#[test]
fn eval_fetch_failure_reports_after_the_link_was_posted() {
    let mut s = Supervisor::new();
    s.step(message(b"c2", b"!eval x"));
    let acts = s.step(Event::ImageFetched { ok: false });
    match acts.as_slice() {
        [Action::PostText { content, .. }] => {
            assert_eq!(
                content.as_slice(),
                b"Error The equation image could not be fetched".as_slice()
            );
        }
        _ => panic!("expected exactly the fetch failure reply"),
    }
}

#[test]
fn graph_scenario_renders_uploads_then_references_the_id() {
    let mut s = Supervisor::new();
    let acts = s.step(message(b"c3", b"!graph (Demo) [(1,2), (3,4)]"));
    match acts.as_slice() {
        [Action::RenderChart { graph }] => {
            assert_eq!(graph.title.as_slice(), b"Demo");
            assert_eq!(graph.points, vec![(1, 2), (3, 4)]);
            assert_eq!(graph.x_end, 5);
            assert_eq!(graph.y_end, 6);
        }
        _ => panic!("expected exactly the chart rendering"),
    }
    let acts = s.step(Event::Rendered { ok: true });
    assert!(matches!(acts.as_slice(), [Action::UploadChart]));
    // The attachment is referenced only after the upload returned its id.
    let acts = s.step(Event::Uploaded { body: Some(br#"{"id":"att42"}"#.to_vec()) });
    match acts.as_slice() {
        [Action::PostAttachment { channel, id }] => {
            assert_eq!(channel.as_slice(), b"c3");
            assert_eq!(id.as_slice(), b"att42");
        }
        _ => panic!("expected exactly the attachment post"),
    }
    assert!(matches!(s.phase, Phase::Idle));
}

#[test]
fn upload_failure_becomes_a_generic_reply() {
    let mut s = Supervisor::new();
    s.step(message(b"c3", b"!graph (T) [(1,1)]"));
    s.step(Event::Rendered { ok: true });
    let acts = s.step(Event::Uploaded { body: Some(b"no id in here".to_vec()) });
    match acts.as_slice() {
        [Action::PostText { content, .. }] => {
            assert_eq!(content.as_slice(), b"Error The chart could not be uploaded".as_slice());
        }
        _ => panic!("expected exactly the upload failure reply"),
    }
}

#[test]
fn render_failure_becomes_a_generic_reply() {
    let mut s = Supervisor::new();
    s.step(message(b"c3", b"!graph (T) [(1,1)]"));
    let acts = s.step(Event::Rendered { ok: false });
    match acts.as_slice() {
        [Action::PostText { content, .. }] => {
            assert_eq!(content.as_slice(), b"Error The chart could not be rendered".as_slice());
        }
        _ => panic!("expected exactly the render failure reply"),
    }
}

#[test]
fn malformed_frame_is_skipped_and_the_loop_continues() {
    let mut s = Supervisor::new();
    let acts = s.step(frame(br#"{"oops":true}"#));
    assert!(acts.is_empty());
    assert!(s.pending.is_empty());
    // The loop goes on: the next message is handled normally.
    let acts = s.step(message(b"c1", b"!help"));
    assert_eq!(acts.len(), 1);
}

#[test]
fn non_command_message_produces_no_reply() {
    let mut s = Supervisor::new();
    let acts = s.step(message(b"c1", b"just chatting"));
    assert!(acts.is_empty());
    assert!(matches!(s.phase, Phase::Idle));
}

#[test]
fn messages_arriving_while_busy_are_buffered_in_order() {
    let mut s = Supervisor::new();
    s.step(message(b"c1", b"!comp ```rust fn main(){}```"));
    assert!(s.step(message(b"c1", b"!help")).is_empty());
    assert!(s.step(message(b"c2", b"also waiting")).is_empty());
    assert_eq!(s.pending.len(), 2);
    // Still busy: draining does nothing yet.
    assert!(s.drain_one().is_empty());
    s.step(Event::SandboxDone { body: None });
    let acts = s.drain_one();
    match acts.as_slice() {
        [Action::PostText { channel, .. }] => assert_eq!(channel.as_slice(), b"c1"),
        _ => panic!("expected the buffered help reply first"),
    }
    let acts = s.drain_one();
    assert!(acts.is_empty());
    assert!(s.pending.is_empty());
}
