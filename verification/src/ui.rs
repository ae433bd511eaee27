//! What the client shows and how it answers the keyboard: the input line
//! and its mode, the channel switcher, and the messages on screen.

use crate::chat::{Command, CommandView, StateQuery};
use crate::command::parse;
use crate::input::{KeyCode, KeyEvent};
use crate::model::vicinity_name;
use crate::resolved::{ChannelType, ResolvedChannel, ResolvedChannelView, UiUpdate};
use crate::spans::{span_texts, styled};
use crate::text::pieces;
use tui::text::Spans;
use vstd::prelude::*;
use vstd::string::*;

verus! {

/// What the input line is for at the moment.
#[derive(Clone, Copy, Debug, PartialEq, Eq, Structural)]
pub enum InputMode {
    Command,
    Chat,
    Scroll,
}

/// What a key press asks of the engine.
#[derive(Debug, PartialEq, Eq)]
pub enum Request {
    /// Carry out this command.
    Command(Command),
    /// Answer this question, and hand the answer to [`App::set_channels`].
    Query(StateQuery),
}

pub enum RequestView {
    Command(CommandView),
    Query(StateQuery),
}

impl DeepView for Request {
    type V = RequestView;

    open spec fn deep_view(&self) -> RequestView {
        match self {
            Request::Command(command) => RequestView::Command(command@),
            Request::Query(query) => RequestView::Query(*query),
        }
    }
}

impl View for Request {
    type V = RequestView;

    open spec fn view(&self) -> RequestView {
        self.deep_view()
    }
}

/// A key press that the channel switcher cannot answer.
#[derive(Clone, Copy, Debug, PartialEq, Eq, Structural)]
pub enum Fault {
    /// The selection was to move, and there is no channel to move to.
    NoChannels,
    /// A channel was to be chosen, and none in the list is selected.
    NoSelection,
}

/// The state of the user interface.
#[derive(Debug, PartialEq)]
pub struct App {
    pub current_mode: InputMode,
    pub channel_switcher_open: bool,
    /// The index of the channel that is marked in the switcher.
    pub channel_switcher_selected: Option<usize>,
    pub channel_switcher_channels: Vec<ResolvedChannel>,
    /// The channel that texts typed in chat mode go to.
    pub current_channel: ResolvedChannel,
    pub input_text: String,
    pub status_text: String,
    /// The lines on screen, the newest message first.
    pub messages: Vec<Spans<'static>>,
    pub scroll_y: usize,
}

/// An [`App`] without its lines on screen, as a mathematical value.
pub struct AppView {
    pub current_mode: InputMode,
    pub channel_switcher_open: bool,
    pub channel_switcher_selected: Option<usize>,
    pub channel_switcher_channels: Seq<ResolvedChannelView>,
    pub current_channel: ResolvedChannelView,
    pub input_text: Seq<char>,
    pub status_text: Seq<char>,
    pub scroll_y: usize,
}

/// What the status line says of an input that is no command.
pub open spec fn syntax_error() -> Seq<char> {
    "Error in command syntax"@
}

impl AppView {
    /// The state in which the client starts.
    pub open spec fn initial() -> AppView {
        AppView {
            current_mode: InputMode::Command,
            channel_switcher_open: false,
            channel_switcher_selected: None,
            channel_switcher_channels: Seq::empty(),
            current_channel: ResolvedChannelView {
                id: 0,
                name: vicinity_name(),
                kind: ChannelType::Vicinity,
            },
            input_text: Seq::empty(),
            status_text: "Initialized"@,
            scroll_y: 0,
        }
    }

    /// The state in which the switcher is drawn: where it is open and
    /// holds channels, one of them is marked, the first if none was.
    pub open spec fn settled(self) -> AppView {
        if self.channel_switcher_open && self.channel_switcher_channels.len() > 0
            && self.channel_switcher_selected is None {
            AppView { channel_switcher_selected: Some(0usize), ..self }
        } else {
            self
        }
    }

    /// The selection one channel up, from the first on to the last.
    pub open spec fn up(self) -> Result<AppView, Fault> {
        match self.channel_switcher_selected {
            None => Ok(AppView { channel_switcher_selected: Some(0usize), ..self }),
            Some(i) => if i > 0 {
                Ok(AppView { channel_switcher_selected: Some((i - 1) as usize), ..self })
            } else if self.channel_switcher_channels.len() == 0 {
                Err(Fault::NoChannels)
            } else {
                Ok(
                    AppView {
                        channel_switcher_selected: Some(
                            (self.channel_switcher_channels.len() - 1) as usize,
                        ),
                        ..self
                    },
                )
            },
        }
    }

    /// The selection one channel down, from the last on to the first.
    pub open spec fn down(self) -> Result<AppView, Fault> {
        match self.channel_switcher_selected {
            None => Ok(AppView { channel_switcher_selected: Some(0usize), ..self }),
            Some(i) => if self.channel_switcher_channels.len() == 0 {
                Err(Fault::NoChannels)
            } else if i >= self.channel_switcher_channels.len() - 1 {
                Ok(AppView { channel_switcher_selected: Some(0usize), ..self })
            } else {
                Ok(AppView { channel_switcher_selected: Some((i + 1) as usize), ..self })
            },
        }
    }

    /// Enter: in the switcher, the marked channel becomes the current one
    /// and chat mode begins; in chat mode, the input goes to the current
    /// channel; in command mode, the input is read as a command, and what
    /// is none is noted in the status line. The input is empty afterwards
    /// in both modes.
    pub open spec fn enter(self) -> (AppView, Result<Option<RequestView>, Fault>) {
        if self.channel_switcher_open {
            match self.channel_switcher_selected {
                Some(i) => if i < self.channel_switcher_channels.len() {
                    (
                        AppView {
                            current_channel: self.channel_switcher_channels[i as int],
                            channel_switcher_open: false,
                            current_mode: InputMode::Chat,
                            ..self
                        },
                        Ok(None),
                    )
                } else {
                    (self, Err(Fault::NoSelection))
                },
                None => (self, Err(Fault::NoSelection)),
            }
        } else if self.current_mode == InputMode::Chat {
            (
                AppView { input_text: Seq::empty(), ..self },
                Ok(
                    Some(
                        RequestView::Command(
                            CommandView::Message(self.current_channel, self.input_text),
                        ),
                    ),
                ),
            )
        } else if self.current_mode == InputMode::Command {
            match parse(self.input_text) {
                Some(typed) => (
                    AppView { input_text: Seq::empty(), ..self },
                    Ok(Some(RequestView::Command(CommandView::of(typed)))),
                ),
                None => (
                    AppView { input_text: Seq::empty(), status_text: syntax_error(), ..self },
                    Ok(None),
                ),
            }
        } else {
            (self, Ok(None))
        }
    }

    /// Escape: from command mode to chat mode with an empty input; from
    /// any other mode to command mode, with a slash to begin the input.
    pub open spec fn escape(self) -> AppView {
        if self.current_mode == InputMode::Command {
            AppView { input_text: Seq::empty(), current_mode: InputMode::Chat, ..self }
        } else {
            AppView { input_text: seq!['/'], current_mode: InputMode::Command, ..self }
        }
    }

    /// Whether the key opens or closes the channel switcher: Tab does, and
    /// Control with `k`.
    pub open spec fn toggles(key: KeyEvent) -> bool {
        key.code == KeyCode::Tab || (key.code == KeyCode::Char('k') && key.control)
    }

    /// The state after a key press, and what the key asks of the engine.
    pub open spec fn key(self, key: KeyEvent) -> (AppView, Result<Option<RequestView>, Fault>) {
        match key.code {
            KeyCode::Backspace => (
                AppView {
                    input_text: if self.input_text.len() > 0 {
                        self.input_text.drop_last()
                    } else {
                        self.input_text
                    },
                    ..self
                },
                Ok(None),
            ),
            KeyCode::Up => if self.channel_switcher_open {
                match self.up() {
                    Ok(moved) => (moved, Ok(None)),
                    Err(fault) => (self, Err(fault)),
                }
            } else {
                (self, Ok(None))
            },
            KeyCode::Down => if self.channel_switcher_open {
                match self.down() {
                    Ok(moved) => (moved, Ok(None)),
                    Err(fault) => (self, Err(fault)),
                }
            } else {
                (self, Ok(None))
            },
            KeyCode::Enter => self.enter(),
            KeyCode::Esc => (self.escape(), Ok(None)),
            KeyCode::Tab => (
                AppView { channel_switcher_open: !self.channel_switcher_open, ..self },
                Ok(Some(RequestView::Query(StateQuery::Channels))),
            ),
            KeyCode::Char(c) => if c == 'k' && key.control {
                (
                    AppView { channel_switcher_open: !self.channel_switcher_open, ..self },
                    Ok(Some(RequestView::Query(StateQuery::Channels))),
                )
            } else {
                (AppView { input_text: self.input_text.push(c), ..self }, Ok(None))
            },
            KeyCode::Other => (self, Ok(None)),
        }
    }
}

/// `String::push`: the character goes to the end of the text.
#[verifier::external_body]
fn push_char(text: &mut String, c: char)
    ensures
        final(text)@ == old(text)@.push(c),
{
    text.push(c);
}

/// Whether the lines `lines` show the text `shown`: one line for each
/// piece between its line feeds, each a single span without a style.
pub open spec fn shows(lines: Seq<Spans<'static>>, shown: Seq<char>) -> bool {
    &&& lines.len() == pieces(shown, '\n').len()
    &&& forall|i: int|
        0 <= i < lines.len() ==> span_texts(&#[trigger] lines[i]) == seq![pieces(shown, '\n')[i]]
            && !styled(&lines[i])
}

impl View for App {
    type V = AppView;

    open spec fn view(&self) -> AppView {
        AppView {
            current_mode: self.current_mode,
            channel_switcher_open: self.channel_switcher_open,
            channel_switcher_selected: self.channel_switcher_selected,
            channel_switcher_channels: self.channel_switcher_channels.deep_view(),
            current_channel: self.current_channel@,
            input_text: self.input_text@,
            status_text: self.status_text@,
            scroll_y: self.scroll_y,
        }
    }
}

impl App {
    /// The state in which the client starts.
    pub fn new() -> (app: Self)
        ensures
            app@ == AppView::initial(),
            app.messages@.len() == 0,
    {
        let app = App {
            current_mode: InputMode::Command,
            channel_switcher_open: false,
            channel_switcher_selected: None,
            channel_switcher_channels: Vec::new(),
            current_channel: ResolvedChannel {
                id: 0,
                name: String::from_str("Vicinity"),
                kind: ChannelType::Vicinity,
            },
            input_text: String::new(),
            status_text: String::from_str("Initialized"),
            messages: Vec::new(),
            scroll_y: 0,
        };
        assert(app.channel_switcher_channels.deep_view() =~= Seq::<ResolvedChannelView>::empty());
        app
    }

    /// Marks the first channel of an open switcher in which none is
    /// marked. To be called before the switcher is drawn.
    pub fn settle(&mut self)
        ensures
            final(self)@ == old(self)@.settled(),
            final(self).messages == old(self).messages,
    {
        if self.channel_switcher_open && self.channel_switcher_channels.len() > 0
            && self.channel_switcher_selected.is_none() {
            self.channel_switcher_selected = Some(0);
        }
    }

    /// Takes the answer to the question which channels there are.
    pub fn set_channels(&mut self, channels: Vec<ResolvedChannel>)
        ensures
            final(self)@ == (AppView {
                channel_switcher_channels: channels.deep_view(),
                ..old(self)@
            }),
            final(self).messages == old(self).messages,
    {
        self.channel_switcher_channels = channels;
    }

    /// Takes in a key press: changes the state as the key asks, and says
    /// what it asks of the engine. A key that the switcher cannot answer
    /// changes nothing.
    pub fn on_key(&mut self, key: KeyEvent) -> (asked: Result<Option<Request>, Fault>)
        ensures
            final(self)@ == old(self)@.key(key).0,
            final(self).messages == old(self).messages,
            match old(self)@.key(key).1 {
                Ok(request) => asked is Ok && asked->Ok_0.deep_view() == request,
                Err(fault) => asked == Err::<Option<Request>, Fault>(fault),
            },
    {
        match key.code {
            KeyCode::Backspace => {
                let n = self.input_text.as_str().unicode_len();
                if n > 0 {
                    let shorter = String::from_str(self.input_text.as_str().substring_char(0, n - 1));
                    self.input_text = shorter;
                }
                Ok(None)
            },
            KeyCode::Up => {
                if self.channel_switcher_open {
                    let to = match self.channel_switcher_selected {
                        None => 0,
                        Some(i) => {
                            if i > 0 {
                                i - 1
                            } else if self.channel_switcher_channels.len() == 0 {
                                return Err(Fault::NoChannels);
                            } else {
                                self.channel_switcher_channels.len() - 1
                            }
                        },
                    };
                    self.channel_switcher_selected = Some(to);
                }
                Ok(None)
            },
            KeyCode::Down => {
                if self.channel_switcher_open {
                    let to = match self.channel_switcher_selected {
                        None => 0,
                        Some(i) => {
                            if self.channel_switcher_channels.len() == 0 {
                                return Err(Fault::NoChannels);
                            } else if i >= self.channel_switcher_channels.len() - 1 {
                                0
                            } else {
                                i + 1
                            }
                        },
                    };
                    self.channel_switcher_selected = Some(to);
                }
                Ok(None)
            },
            KeyCode::Enter => self.on_enter(),
            KeyCode::Esc => {
                if self.current_mode == InputMode::Command {
                    self.input_text = String::new();
                    self.current_mode = InputMode::Chat;
                } else {
                    proof {
                        reveal_strlit("/");
                    }
                    self.input_text = String::from_str("/");
                    assert(self.input_text@ =~= seq!['/']);
                    self.current_mode = InputMode::Command;
                }
                Ok(None)
            },
            KeyCode::Tab => {
                self.channel_switcher_open = !self.channel_switcher_open;
                Ok(Some(Request::Query(StateQuery::Channels)))
            },
            KeyCode::Char(c) => {
                if c == 'k' && key.control {
                    self.channel_switcher_open = !self.channel_switcher_open;
                    Ok(Some(Request::Query(StateQuery::Channels)))
                } else {
                    push_char(&mut self.input_text, c);
                    Ok(None)
                }
            },
            KeyCode::Other => Ok(None),
        }
    }

    fn on_enter(&mut self) -> (asked: Result<Option<Request>, Fault>)
        ensures
            final(self)@ == old(self)@.enter().0,
            final(self).messages == old(self).messages,
            match old(self)@.enter().1 {
                Ok(request) => asked is Ok && asked->Ok_0.deep_view() == request,
                Err(fault) => asked == Err::<Option<Request>, Fault>(fault),
            },
    {
        if self.channel_switcher_open {
            match self.channel_switcher_selected {
                Some(i) => {
                    if i < self.channel_switcher_channels.len() {
                        self.current_channel = self.channel_switcher_channels[i].clone();
                        self.channel_switcher_open = false;
                        self.current_mode = InputMode::Chat;
                        Ok(None)
                    } else {
                        Err(Fault::NoSelection)
                    }
                },
                None => Err(Fault::NoSelection),
            }
        } else if self.current_mode == InputMode::Chat {
            let text = self.input_text.clone();
            self.input_text = String::new();
            Ok(Some(Request::Command(Command::Message(self.current_channel.clone(), text))))
        } else if self.current_mode == InputMode::Command {
            let typed = crate::command::Command::from_input(self.input_text.as_str());
            self.input_text = String::new();
            match typed {
                Some(command) => Ok(Some(Request::Command(Command::from(command)))),
                None => {
                    self.status_text = String::from_str("Error in command syntax");
                    Ok(None)
                },
            }
        } else {
            Ok(None)
        }
    }

    /// Takes in what the engine tells: a message is put on screen above
    /// the others, and the view returns to it unless the user scrolls.
    /// Nothing else is shown.
    pub fn on_update(&mut self, update: UiUpdate)
        ensures
            final(self)@ == (match update {
                UiUpdate::Message(_) => AppView {
                    scroll_y: if old(self).current_mode != InputMode::Scroll {
                        0
                    } else {
                        old(self).scroll_y
                    },
                    ..old(self)@
                },
                _ => old(self)@,
            }),
            match update {
                UiUpdate::Message(message) => exists|n: int|
                    0 <= n <= final(self).messages@.len() && shows(
                        #[trigger] final(self).messages@.take(n),
                        message@.rendered(),
                    ) && final(self).messages@.skip(n) == old(self).messages@,
                _ => final(self).messages == old(self).messages,
            },
    {
        match update {
            UiUpdate::Message(message) => {
                let mut lines = message.render();
                let ghost rendered = lines@;
                lines.append(&mut self.messages);
                self.messages = lines;
                if self.current_mode != InputMode::Scroll {
                    self.scroll_y = 0;
                }
                assert(self.messages@.take(rendered.len() as int) =~= rendered);
            },
            _ => {},
        }
    }
}

} // verus!
