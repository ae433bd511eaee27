use ao_chat_client::command::Command;

fn name(s: &str) -> String {
    String::from(s)
}

fn by_std(input: &str) -> Option<Command> {
    let command = input.strip_prefix('/').unwrap_or(input);
    let mut params = command.split_ascii_whitespace();
    let first = params.next()?;
    let user = params.next()?;
    let mut rest = params.fold(String::new(), |a, b| a + b + " ");
    rest = rest.trim().to_string();
    match first {
        "invite" => Some(Command::Invite(user.to_string())),
        "kick" => Some(Command::Kick(user.to_string())),
        "leave" => Some(Command::Leave(user.to_string())),
        "tell" => Some(Command::Tell(user.to_string(), rest)),
        _ => None,
    }
}

#[test]
fn tell_takes_the_rest_of_the_line() {
    assert_eq!(
        Command::from_input("/tell Bob  hi   there "),
        Some(Command::Tell(name("Bob"), name("hi there")))
    );
}

#[test]
fn invite_kick_and_leave_take_a_name() {
    assert_eq!(Command::from_input("/invite Bob"), Some(Command::Invite(name("Bob"))));
    assert_eq!(Command::from_input("/kick Bob"), Some(Command::Kick(name("Bob"))));
    assert_eq!(Command::from_input("/leave Bob"), Some(Command::Leave(name("Bob"))));
}

#[test]
fn the_slash_may_be_left_out() {
    assert_eq!(Command::from_input("invite Bob"), Some(Command::Invite(name("Bob"))));
}

#[test]
fn only_one_slash_is_taken_off() {
    assert_eq!(Command::from_input("//invite Bob"), None);
}

#[test]
fn a_command_needs_a_name() {
    assert_eq!(Command::from_input("/invite"), None);
    assert_eq!(Command::from_input("/tell"), None);
    assert_eq!(Command::from_input("/"), None);
    assert_eq!(Command::from_input(""), None);
    assert_eq!(Command::from_input("   "), None);
}

#[test]
fn an_unknown_command_is_none() {
    assert_eq!(Command::from_input("/dance Bob"), None);
    assert_eq!(Command::from_input("/Tell Bob hi"), None);
    assert_eq!(Command::from_input("/tel Bob hi"), None);
}

#[test]
fn a_tell_without_text_is_empty() {
    assert_eq!(Command::from_input("/tell Bob"), Some(Command::Tell(name("Bob"), name(""))));
}

#[test]
fn words_after_the_name_are_ignored_but_for_a_tell() {
    assert_eq!(Command::from_input("/kick Bob now please"), Some(Command::Kick(name("Bob"))));
}

#[test]
fn the_text_of_a_tell_loses_other_whitespace_at_its_ends() {
    assert_eq!(
        Command::from_input("/tell Bob \u{A0}hi\u{A0}you\u{A0}"),
        Some(Command::Tell(name("Bob"), name("hi\u{A0}you")))
    );
}

#[test]
fn a_space_before_the_slash_keeps_it() {
    assert_eq!(Command::from_input(" /invite Bob"), None);
}

#[test]
fn from_input_agrees_with_std() {
    for input in [
        "", "/", "//", "/tell", "/tell Bob", "/tell Bob hi", "/tell  Bob  hi  there  ",
        "tell Bob hi", "/invite Bob", "/invite Bob x", "/kick\tBob", "/leave\nBob",
        "/tell Bob \u{2003}", "/tell Bob \u{2003} x \u{2003}", "/tell\u{A0}Bob hi", "/unknown a b",
        " /tell Bob hi", "/tell Bob ä ö",
    ] {
        assert_eq!(Command::from_input(input), by_std(input), "{:?}", input);
    }
}
