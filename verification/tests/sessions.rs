use peach::registry::Registry;
use peach::render;
use peach::session::{
    enter_room, enter_room_now, handle_disconnect, handle_disconnect_now, handle_input,
    handle_input_now, InputAction, Phase, Session,
};

fn active_session(reg: &mut Registry) -> Session {
    let mut sess = Session::new();
    assert!(sess.submit_name("bob\n"));
    assert!(sess.select_client("1\n"));
    let _rx = enter_room(reg, &sess, "T0");
    sess
}

#[test]
fn login_rejects_invalid_names() {
    let mut sess = Session::new();
    assert!(!sess.submit_name("bad name!\n"));
    assert_eq!(sess.phase, Phase::Login);
    assert!(!sess.submit_name("\n"));
    assert_eq!(sess.phase, Phase::Login);
    assert!(sess.submit_name("  bob \n"));
    assert_eq!(sess.phase, Phase::ClientSelect);
    assert_eq!(sess.name, "bob");
}

#[test]
fn client_select_takes_one_or_empty() {
    let mut sess = Session::new();
    assert!(sess.submit_name("bob\n"));
    assert!(!sess.select_client("2\n"));
    assert_eq!(sess.phase, Phase::ClientSelect);
    assert!(sess.select_client("\n"));
    assert_eq!(sess.phase, Phase::Active);
    assert_eq!(sess.room, "general");

    let mut other = Session::new();
    assert!(other.submit_name("eve\n"));
    assert!(other.select_client("1\n"));
    assert_eq!(other.phase, Phase::Active);
}

#[test]
fn entering_announces_in_the_room() {
    let mut reg = Registry::new();
    let _sess = active_session(&mut reg);
    let expected = format!("\x1b[32m[T0][bob] joined!\x1b[0m\n");
    assert_eq!(reg.transcript_text("general").as_deref(), Some(expected.as_str()));
}

#[test]
fn chat_line_is_published_to_the_current_room() {
    let mut reg = Registry::new();
    let mut sess = active_session(&mut reg);
    let act = handle_input(&mut reg, &mut sess, "hello there \n", "T1");
    assert!(matches!(act, InputAction::Posted));
    let expected = format!(
        "\x1b[32m[T0][bob] joined!\x1b[0m\n[T1][bob]: hello there\n"
    );
    assert_eq!(reg.transcript_text("general").as_deref(), Some(expected.as_str()));
}

#[test]
fn join_command_switches_rooms_and_frames_the_move() {
    let mut reg = Registry::new();
    let mut sess = active_session(&mut reg);
    let act = handle_input(&mut reg, &mut sess, "/join lobby\n", "T1");
    assert!(matches!(act, InputAction::Switched(_)));
    assert_eq!(sess.room, "lobby");
    assert_eq!(sess.phase, Phase::Active);
    let old_room = format!(
        "\x1b[32m[T0][bob] joined!\x1b[0m\n\x1b[31m[T1][bob] Left\x1b[0m\n"
    );
    let new_room = format!("\x1b[32m[T1][bob] joined!\x1b[0m\n");
    assert_eq!(reg.transcript_text("general").as_deref(), Some(old_room.as_str()));
    assert_eq!(reg.transcript_text("lobby").as_deref(), Some(new_room.as_str()));
}

#[test]
fn unknown_command_changes_nothing() {
    let mut reg = Registry::new();
    let mut sess = active_session(&mut reg);
    let before = reg.transcript_text("general");
    let act = handle_input(&mut reg, &mut sess, "/bogus\n", "T1");
    assert!(matches!(act, InputAction::Notice));
    assert_eq!(sess.room, "general");
    assert_eq!(reg.room_count(), 1);
    assert_eq!(reg.transcript_text("general"), before);
}

#[test]
fn join_without_argument_is_not_found() {
    let mut reg = Registry::new();
    let mut sess = active_session(&mut reg);
    let act = handle_input(&mut reg, &mut sess, "/join\n", "T1");
    assert!(matches!(act, InputAction::Notice));
    assert_eq!(sess.room, "general");
    assert_eq!(reg.room_count(), 1);
}

#[test]
fn disconnect_publishes_the_leave_line_once() {
    let mut reg = Registry::new();
    let mut sess = active_session(&mut reg);
    handle_disconnect(&mut reg, &mut sess, "T9");
    assert_eq!(sess.phase, Phase::Terminated);
    let expected = format!(
        "\x1b[32m[T0][bob] joined!\x1b[0m\n\x1b[31m[T9][bob] Left\x1b[0m\n"
    );
    assert_eq!(reg.transcript_text("general").as_deref(), Some(expected.as_str()));
}

#[test]
fn switch_delivers_to_the_new_subscription() {
    let mut reg = Registry::new();
    let mut sess = active_session(&mut reg);
    let act = handle_input(&mut reg, &mut sess, "/join lobby\n", "T1");
    let mut rx = match act {
        InputAction::Switched(rx) => rx,
        _ => panic!("expected a room switch"),
    };
    // the join announcement itself is published after subscribing
    assert_eq!(rx.try_recv().unwrap(), "\x1b[32m[T1][bob] joined!\x1b[0m\n");
    handle_input(&mut reg, &mut sess, "hi\n", "T2");
    assert_eq!(
        rx.try_recv().unwrap(),
        "\x1b[32m[T1][bob] joined!\x1b[0m\n[T2][bob]: hi\n"
    );
}

#[test]
fn prompts_and_notices_render_exactly() {
    assert_eq!(
        render::welcome_prompt(),
        "[Server] Welcome to Peach!\nThis is an anonymous chat server, use '/join <channel>' to join a channel\nPlease enter your name: "
    );
    assert_eq!(
        render::invalid_name_notice(),
        "\x1b[2J\x1b[H\n[Server] Name you entered is invalid!\n"
    );
    assert_eq!(
        render::client_menu_prompt(),
        "\x1b[2J\x1b[H\n[Server] Which client are you using?\n\t1). Netcat\nSelect (default=1): "
    );
    assert_eq!(render::not_found_notice(), "[Server] Command not found!\n");
    assert_eq!(
        render::render_delivery("lobby", "msg"),
        "\x1b[2J\x1b[H\nmsg\n#[lobby] Type your message: "
    );
}

#[test]
fn wall_clock_variants_follow_the_same_paths() {
    let mut reg = Registry::new();
    let mut sess = Session::new();
    assert!(sess.submit_name("bob\n"));
    assert!(sess.select_client("\n"));
    let _rx = enter_room_now(&mut reg, &sess);
    let text = reg.transcript_text("general").unwrap();
    assert!(text.contains("[bob] joined!"));
    let act = handle_input_now(&mut reg, &mut sess, "hello\n");
    assert!(matches!(act, InputAction::Posted));
    let text = reg.transcript_text("general").unwrap();
    assert!(text.contains("[bob]: hello"));
    handle_disconnect_now(&mut reg, &mut sess);
    assert_eq!(sess.phase, Phase::Terminated);
    let text = reg.transcript_text("general").unwrap();
    assert!(text.contains("[bob] Left"));
}
