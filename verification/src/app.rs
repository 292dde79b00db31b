//! The application state machine: the in-memory model of channels and
//! messages, the input buffer, the quit flag, and the translation of
//! discrete input events into state transitions.

use vstd::prelude::*;

verus! {

use crate::config::{Config, ConfigLoadError};
use crate::util::{StatefulList, next_sel, prev_sel};

/// A named conversation target, either a group or a direct channel.
#[derive(Debug)]
pub struct Channel {
    pub name: String,
    pub is_group: bool,
    pub last_msg: Option<String>,
}

impl Channel {
    /// A fresh channel carries the given name and kind and no preview text.
    pub fn new(name: String, is_group: bool) -> (c: Self)
        ensures
            c.name == name,
            c.is_group == is_group,
            c.last_msg is None,
    {
        Channel { name, is_group, last_msg: None }
    }
}

/// One message of a conversation, immutable once created. The arrival
/// instant is kept as milliseconds since the Unix epoch.
#[derive(Debug)]
pub struct Message {
    pub from: String,
    pub text: String,
    pub arrived_at: i64,
}

/// The message history of the currently viewed channel.
pub struct Chat {
    pub msgs: StatefulList<Message>,
}

/// What the event loop hands the core: a key (or other input) event, or a
/// periodic content-free tick.
pub enum Event<I> {
    Input(I),
    Tick,
}

/// The keys the dispatch table distinguishes; every other input is handed
/// over as `Other` and absorbed as a no-op.
#[derive(Clone, Copy, Debug)]
pub enum Key {
    Char(char),
    Enter,
    Backspace,
    Other,
}

/// The whole application state: configuration, channel roster, current
/// conversation, the input buffer being composed, and the quit flag.
pub struct App {
    pub config: Config,
    pub channels: StatefulList<Channel>,
    pub current_chat: Chat,
    pub input: String,
    pub should_quit: bool,
}

/// The channel roster seeded at startup: seven fixed channels, four groups
/// first, then three direct ones, none with preview text.
pub open spec fn channels_seeded(cs: Seq<Channel>) -> bool {
    &&& cs.len() == 7
    &&& forall|i: int| 0 <= i < 7 ==> (#[trigger] cs[i]).last_msg is None
    &&& cs[0].name@ == "Basic people"@ && cs[0].is_group
    &&& cs[1].name@ == "Flat earth society"@ && cs[1].is_group
    &&& cs[2].name@ == "Don't burn"@ && cs[2].is_group
    &&& cs[3].name@ == "Small 🦙"@ && cs[3].is_group
    &&& cs[4].name@ == "Alice"@ && !cs[4].is_group
    &&& cs[5].name@ == "Bob"@ && !cs[5].is_group
    &&& cs[6].name@ == "Note to Self"@ && !cs[6].is_group
}

/// The sample conversation seeded at startup: seven fixed lines, all from
/// Bob, all stamped with one and the same instant.
pub open spec fn sample_chat_seeded(ms: Seq<Message>) -> bool {
    &&& ms.len() == 7
    &&& forall|i: int| 0 <= i < 7 ==> (#[trigger] ms[i]).from@ == "Bob"@
    &&& forall|i: int| 0 <= i < 7 ==> (#[trigger] ms[i]).arrived_at == ms[0].arrived_at
    &&& ms[0].text@ == "Lorem ipsum dolor sit amet,  consectetur adipisicing elit, sed  do"@
    &&& ms[1].text@ == "eiusmod tempor incididunt ut labore et dolore magna aliqua. Ut enim ad"@
    &&& ms[2].text@ == "minim veniam, quis nostrud exercitation ullamco laboris nisi ut"@
    &&& ms[3].text@ == "aliquip ex ea commodo consequat. Duis aute irure dolor in"@
    &&& ms[4].text@ == "reprehenderit in voluptate velit esse cillum dolore eu fugiat nulla"@
    &&& ms[5].text@ == "pariatur. Excepteur sint occaecat cupidatat non proident, sunt in"@
    &&& ms[6].text@ == "culpa qui officia deserunt mollit anim id est laborum."@
}

/// Relies on `String::push`: appends the given character to the end of the
/// string.
#[verifier::external_body]
fn string_push(s: &mut String, c: char)
    ensures
        final(s)@ == old(s)@.push(c),
{
    s.push(c);
}

/// Relies on `String::pop`: removes and returns the last character — a
/// whole code point, never part of one — or returns `None` when the string
/// is empty.
#[verifier::external_body]
fn string_pop(s: &mut String) -> (r: Option<char>)
    ensures
        old(s)@.len() == 0 ==> r is None && *final(s) == *old(s),
        old(s)@.len() > 0 ==> r == Some(old(s)@.last()) && final(s)@ == old(s)@.drop_last(),
{
    s.pop()
}

impl App {
    /// Both selections point at items: the state the constructor
    /// establishes and every handler preserves.
    pub open spec fn wf(&self) -> bool {
        &&& self.channels.wf()
        &&& self.current_chat.msgs.wf()
    }

    /// Builds the startup state from the outcome of the configuration load:
    /// with a configuration, the fixed channel roster (first channel
    /// selected) and the sample conversation, an empty input buffer and a
    /// cleared quit flag; without one, the startup error naming the
    /// attempted path.
    pub fn try_new(config: Option<Config>, config_path: String) -> (r: Result<
        App,
        ConfigLoadError,
    >)
        ensures
            (match config {
                Some(c) => r matches Ok(app) && {
                    &&& app.wf()
                    &&& app.config == c
                    &&& channels_seeded(app.channels.items@)
                    &&& app.channels.selected == Some(0usize)
                    &&& sample_chat_seeded(app.current_chat.msgs.items@)
                    &&& app.current_chat.msgs.selected is None
                    &&& app.input@ == Seq::<char>::empty()
                    &&& !app.should_quit
                },
                None => r matches Err(e) && e.path == config_path,
            }),
    {
        let config = match config {
            Some(c) => c,
            None => {
                return Err(ConfigLoadError { path: config_path });
            },
        };

        let now: i64 = crate::clock::now_timestamp();
        let mut msgs: Vec<Message> = Vec::new();
        msgs.push(
            Message {
                from: "Bob".to_owned(),
                text: "Lorem ipsum dolor sit amet,  consectetur adipisicing elit, sed  do".to_owned(),
                arrived_at: now,
            },
        );
        msgs.push(
            Message {
                from: "Bob".to_owned(),
                text: "eiusmod tempor incididunt ut labore et dolore magna aliqua. Ut enim ad".to_owned(),
                arrived_at: now,
            },
        );
        msgs.push(
            Message {
                from: "Bob".to_owned(),
                text: "minim veniam, quis nostrud exercitation ullamco laboris nisi ut".to_owned(),
                arrived_at: now,
            },
        );
        msgs.push(
            Message {
                from: "Bob".to_owned(),
                text: "aliquip ex ea commodo consequat. Duis aute irure dolor in".to_owned(),
                arrived_at: now,
            },
        );
        msgs.push(
            Message {
                from: "Bob".to_owned(),
                text: "reprehenderit in voluptate velit esse cillum dolore eu fugiat nulla".to_owned(),
                arrived_at: now,
            },
        );
        msgs.push(
            Message {
                from: "Bob".to_owned(),
                text: "pariatur. Excepteur sint occaecat cupidatat non proident, sunt in".to_owned(),
                arrived_at: now,
            },
        );
        msgs.push(
            Message {
                from: "Bob".to_owned(),
                text: "culpa qui officia deserunt mollit anim id est laborum.".to_owned(),
                arrived_at: now,
            },
        );
        let current_chat = Chat { msgs: StatefulList::with_items(msgs) };

        let mut chs: Vec<Channel> = Vec::new();
        chs.push(Channel::new("Basic people".to_owned(), true));
        chs.push(Channel::new("Flat earth society".to_owned(), true));
        chs.push(Channel::new("Don't burn".to_owned(), true));
        chs.push(Channel::new("Small 🦙".to_owned(), true));
        chs.push(Channel::new("Alice".to_owned(), false));
        chs.push(Channel::new("Bob".to_owned(), false));
        chs.push(Channel::new("Note to Self".to_owned(), false));
        let mut channels = StatefulList::with_items(chs);
        let _ = channels.select(0);

        Ok(
            App {
                config,
                channels,
                current_chat,
                input: String::new(),
                should_quit: false,
            },
        )
    }

    /// The dispatch table for one key. `q` requests quitting; any other
    /// character is appended to the input buffer; Enter commits a non-empty
    /// buffer as a new message from the configured user, emptying the
    /// buffer; Backspace drops the last character of a non-empty buffer;
    /// everything else — Enter on an empty buffer, Backspace on an empty
    /// buffer, any unmapped input — is a no-op. No key ever fails, and the
    /// configuration and the channel roster never change here.
    pub fn on_key(&mut self, k: Key)
        requires
            old(self).wf(),
        ensures
            final(self).wf(),
            final(self).config == old(self).config,
            final(self).channels == old(self).channels,
            (match k {
                Key::Char(c) => if c == 'q' {
                    &&& final(self).should_quit
                    &&& final(self).input == old(self).input
                    &&& final(self).current_chat == old(self).current_chat
                } else {
                    &&& final(self).should_quit == old(self).should_quit
                    &&& final(self).input@ == old(self).input@.push(c)
                    &&& final(self).current_chat == old(self).current_chat
                },
                Key::Enter => if old(self).input@.len() > 0 {
                    &&& final(self).should_quit == old(self).should_quit
                    &&& final(self).input@ == Seq::<char>::empty()
                    &&& final(self).current_chat.msgs.selected == old(
                        self,
                    ).current_chat.msgs.selected
                    &&& final(self).current_chat.msgs.items@.len() == old(
                        self,
                    ).current_chat.msgs.items@.len() + 1
                    &&& final(self).current_chat.msgs.items@.drop_last() == old(
                        self,
                    ).current_chat.msgs.items@
                    &&& final(self).current_chat.msgs.items@.last().from@ == old(
                        self,
                    ).config.user.name@
                    &&& final(self).current_chat.msgs.items@.last().text@ == old(self).input@
                } else {
                    *final(self) == *old(self)
                },
                Key::Backspace => if old(self).input@.len() > 0 {
                    &&& final(self).should_quit == old(self).should_quit
                    &&& final(self).input@ == old(self).input@.drop_last()
                    &&& final(self).current_chat == old(self).current_chat
                } else {
                    *final(self) == *old(self)
                },
                Key::Other => *final(self) == *old(self),
            }),
    {
        match k {
            Key::Char(c) => {
                if c == 'q' {
                    self.should_quit = true;
                } else {
                    string_push(&mut self.input, c);
                }
            },
            Key::Enter => {
                if !self.input.as_str().is_empty() {
                    let mut text = String::new();
                    core::mem::swap(&mut text, &mut self.input);
                    let from = self.config.user.name.clone();
                    let arrived_at: i64 = crate::clock::now_timestamp();
                    self.current_chat.msgs.items.push(Message { from, text, arrived_at });
                }
            },
            Key::Backspace => {
                let _ = string_pop(&mut self.input);
            },
            Key::Other => {},
        }
    }

    /// Moves the channel selection up one step, wrapping from the first
    /// channel to the last; nothing else changes.
    pub fn on_up(&mut self)
        requires
            old(self).wf(),
        ensures
            final(self).wf(),
            final(self).config == old(self).config,
            final(self).current_chat == old(self).current_chat,
            final(self).input == old(self).input,
            final(self).should_quit == old(self).should_quit,
            final(self).channels.items == old(self).channels.items,
            final(self).channels.sel() == prev_sel(
                old(self).channels.sel(),
                old(self).channels.items@.len() as int,
            ),
    {
        self.channels.previous();
    }

    /// Moves the channel selection down one step, wrapping from the last
    /// channel to the first; nothing else changes.
    pub fn on_down(&mut self)
        requires
            old(self).wf(),
        ensures
            final(self).wf(),
            final(self).config == old(self).config,
            final(self).current_chat == old(self).current_chat,
            final(self).input == old(self).input,
            final(self).should_quit == old(self).should_quit,
            final(self).channels.items == old(self).channels.items,
            final(self).channels.sel() == next_sel(
                old(self).channels.sel(),
                old(self).channels.items@.len() as int,
            ),
    {
        self.channels.next();
    }

    /// Reserved for future panel navigation: a no-op today.
    pub fn on_right(&mut self)
        ensures
            *final(self) == *old(self),
    {
    }

    /// Reserved for future panel navigation: a no-op today.
    pub fn on_left(&mut self)
        ensures
            *final(self) == *old(self),
    {
    }

    /// Called at a fixed cadence; today it must be free of side effects.
    pub fn on_tick(&mut self)
        ensures
            *final(self) == *old(self),
    {
    }
}

} // verus!
