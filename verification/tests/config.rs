use ao_chat_client::config::{load, Config};

fn by_std(contents: &str) -> Option<Config> {
    let character_name = contents.lines().find(|line| line.starts_with("CHARNAME"))?.split('=').nth(1)?;
    let user_name = contents.lines().find(|line| line.starts_with("USERNAME"))?.split('=').nth(1)?;
    let password = contents.lines().find(|line| line.starts_with("PASSWORD"))?.split('=').nth(1)?;
    if character_name.is_empty() || user_name.is_empty() || password.is_empty() {
        return None;
    }
    Some(Config {
        user_name: user_name.to_string(),
        character_name: character_name.to_string(),
        password: password.to_string(),
    })
}

#[test]
fn load_reads_the_three_settings() {
    assert_eq!(
        load("USERNAME=me\nPASSWORD=secret\nCHARNAME=Hero\n"),
        Some(Config {
            character_name: String::from("Hero"),
            user_name: String::from("me"),
            password: String::from("secret"),
        })
    );
}

#[test]
fn load_takes_lines_in_any_order_and_with_carriage_returns() {
    assert_eq!(
        load("# account\r\nCHARNAME=Hero\r\nPASSWORD=p w\r\nUSERNAME=me"),
        Some(Config {
            character_name: String::from("Hero"),
            user_name: String::from("me"),
            password: String::from("p w"),
        })
    );
}

#[test]
fn load_refuses_an_empty_value() {
    assert_eq!(load("USERNAME=\nPASSWORD=\nCHARNAME=\n"), None);
    assert_eq!(load("USERNAME=me\nPASSWORD=\nCHARNAME=Hero\n"), None);
    assert_eq!(load("USERNAME=me\nPASSWORD=x\nCHARNAME=\n"), None);
    assert_eq!(load("USERNAME=\nPASSWORD=x\nCHARNAME=Hero\n"), None);
}

#[test]
fn load_refuses_a_missing_setting() {
    assert_eq!(load(""), None);
    assert_eq!(load("USERNAME=me\nPASSWORD=x\n"), None);
    assert_eq!(load("USERNAME=me\nCHARNAME=Hero\n"), None);
    assert_eq!(load("PASSWORD=x\nCHARNAME=Hero\n"), None);
}

#[test]
fn load_refuses_a_setting_without_equals_sign() {
    assert_eq!(load("USERNAME me\nPASSWORD=x\nCHARNAME=Hero\n"), None);
}

#[test]
fn load_goes_by_the_first_line_of_a_setting() {
    assert_eq!(load("USERNAME\nUSERNAME=me\nPASSWORD=x\nCHARNAME=Hero\n"), None);
    assert_eq!(
        load("USERNAME=a\nUSERNAME=b\nPASSWORD=x\nCHARNAME=Hero\n").map(|c| c.user_name),
        Some(String::from("a"))
    );
}

#[test]
fn load_cuts_a_value_at_the_second_equals_sign() {
    assert_eq!(
        load("USERNAME=me\nPASSWORD=a=b\nCHARNAME=Hero\n").map(|c| c.password),
        Some(String::from("a"))
    );
}

#[test]
fn load_takes_a_key_that_only_begins_the_line() {
    assert_eq!(
        load("USERNAMEX=me\nPASSWORD=x\nCHARNAME=Hero\n").map(|c| c.user_name),
        Some(String::from("me"))
    );
}

#[test]
fn load_agrees_with_std() {
    for contents in [
        "", "USERNAME=a\nPASSWORD=b\nCHARNAME=c", "USERNAME=a\r\nPASSWORD=b\r\nCHARNAME=c\r\n",
        "USERNAME=a\nPASSWORD=b\nCHARNAME=c\r", "CHARNAME=c\n\nUSERNAME=a=b=c\nPASSWORD==\n",
        " USERNAME=a\nPASSWORD=b\nCHARNAME=c", "USERNAME=ä\nPASSWORD=ö\nCHARNAME=ü\n",
        "USERNAME=a\nPASSWORD=b", "PASSWORD=b\nCHARNAME=c\nUSERNAME",
    ] {
        assert_eq!(load(contents), by_std(contents), "{:?}", contents);
    }
}
