//! The account settings, read from the text of a configuration file.

use crate::text::{lines, pieces, split_char, split_lines, starts_with};
use vstd::prelude::*;
use vstd::string::*;

verus! {

/// The account to log in with and the character to play.
#[derive(Debug, PartialEq, Eq)]
pub struct Config {
    pub character_name: String,
    pub user_name: String,
    pub password: String,
}

/// A [`Config`] with its texts as sequences of characters.
pub struct ConfigView {
    pub character_name: Seq<char>,
    pub user_name: Seq<char>,
    pub password: Seq<char>,
}

impl DeepView for Config {
    type V = ConfigView;

    open spec fn deep_view(&self) -> ConfigView {
        ConfigView {
            character_name: self.character_name@,
            user_name: self.user_name@,
            password: self.password@,
        }
    }
}

impl View for Config {
    type V = ConfigView;

    open spec fn view(&self) -> ConfigView {
        self.deep_view()
    }
}

/// The least index at or after `from` of a line that begins with `key`, or
/// the number of lines.
pub open spec fn first_line(ls: Seq<Seq<char>>, key: Seq<char>, from: int) -> int
    decreases ls.len() - from,
{
    if from < 0 || from >= ls.len() {
        ls.len() as int
    } else if key.is_prefix_of(ls[from]) {
        from
    } else {
        first_line(ls, key, from + 1)
    }
}

/// The value that the lines `ls` give the setting `key`: in the first line
/// that begins with `key`, what stands between the first `=` and the next
/// one, or the end of the line. None if no line begins with `key`, or if
/// the first that does holds no `=`.
pub open spec fn setting(ls: Seq<Seq<char>>, key: Seq<char>) -> Option<Seq<char>> {
    let at = first_line(ls, key, 0);
    if at >= ls.len() {
        None
    } else if pieces(ls[at], '=').len() < 2 {
        None
    } else {
        Some(pieces(ls[at], '=')[1])
    }
}

/// The settings that a configuration text holds, if it gives each of the
/// three a value that is not empty.
pub open spec fn parse(text: Seq<char>) -> Option<ConfigView> {
    let ls = lines(text);
    match (setting(ls, "CHARNAME"@), setting(ls, "USERNAME"@), setting(ls, "PASSWORD"@)) {
        (Some(character_name), Some(user_name), Some(password)) => {
            if character_name.len() == 0 || user_name.len() == 0 || password.len() == 0 {
                None
            } else {
                Some(ConfigView { character_name, user_name, password })
            }
        },
        _ => None,
    }
}

fn find_setting<'a>(ls: &Vec<&'a str>, key: &str) -> (value: Option<&'a str>)
    ensures
        value.deep_view() == setting(ls.deep_view(), key@),
{
    let mut i: usize = 0;
    while i < ls.len()
        invariant
            i <= ls@.len(),
            first_line(ls.deep_view(), key@, 0) == first_line(ls.deep_view(), key@, i as int),
        decreases ls@.len() - i,
    {
        if starts_with(ls[i], key) {
            let fields = split_char(ls[i], '=');
            if fields.len() < 2 {
                return None;
            }
            return Some(fields[1]);
        }
        i = i + 1;
    }
    None
}

/// Reads the settings off the text of a configuration file.
pub fn load(contents: &str) -> (config: Option<Config>)
    ensures
        config.deep_view() == parse(contents@),
{
    let ls = split_lines(contents);
    let character_name = match find_setting(&ls, "CHARNAME") {
        Some(value) => value,
        None => {
            return None;
        },
    };
    let user_name = match find_setting(&ls, "USERNAME") {
        Some(value) => value,
        None => {
            return None;
        },
    };
    let password = match find_setting(&ls, "PASSWORD") {
        Some(value) => value,
        None => {
            return None;
        },
    };
    if character_name.unicode_len() == 0 || user_name.unicode_len() == 0 || password.unicode_len()
        == 0 {
        return None;
    }
    Some(
        Config {
            character_name: String::from_str(character_name),
            user_name: String::from_str(user_name),
            password: String::from_str(password),
        },
    )
}

} // verus!
