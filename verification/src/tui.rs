//! The state of the terminal client: the messages shown under each tab,
//! scrolling, unread counters and notifications, and the color settings.

use std::collections::HashMap;
use vstd::prelude::*;
use crate::client::names;
use crate::state::str_equal;
use crate::text::{concat3, decimal, decimal_string, push_str};


verus! {

broadcast use vstd::std_specs::hash::group_hash_axioms;

/// Colors of the kinds of messages.
#[derive(Clone, Debug)]
pub struct MessageColors {
    pub system: String,
    pub dm: String,
    pub room: String,
    pub broadcast: String,
}

/// Colors of the interface.
#[derive(Clone, Debug)]
pub struct UiColors {
    pub border: String,
    pub tabs_active: String,
    pub tabs_inactive: String,
    pub notification: String,
    pub input: String,
}

/// Colors of the user list.
#[derive(Clone, Debug)]
pub struct UserColors {
    pub online: String,
    pub typing: String,
}

/// The color settings.
#[derive(Clone, Debug)]
pub struct ColorConfig {
    pub messages: MessageColors,
    pub ui: UiColors,
    pub users: UserColors,
}

/// A terminal color.
#[derive(Clone, Copy, Debug, PartialEq, Eq, Structural)]
pub enum ColorName {
    Black,
    Red,
    Green,
    Yellow,
    Blue,
    Magenta,
    Cyan,
    Gray,
    White,
}

/// The color a setting names; unknown names are white.
pub open spec fn color_named(s: Seq<char>) -> ColorName {
    if s == "Black"@ {
        ColorName::Black
    } else if s == "Red"@ {
        ColorName::Red
    } else if s == "Green"@ {
        ColorName::Green
    } else if s == "Yellow"@ {
        ColorName::Yellow
    } else if s == "Blue"@ {
        ColorName::Blue
    } else if s == "Magenta"@ {
        ColorName::Magenta
    } else if s == "Cyan"@ {
        ColorName::Cyan
    } else if s == "Gray"@ {
        ColorName::Gray
    } else {
        ColorName::White
    }
}

impl ColorConfig {
    /// The built-in settings.
    pub fn default() -> (c: Self)
        ensures
            c.messages.system@ == "Cyan"@,
            c.messages.dm@ == "Magenta"@,
            c.messages.room@ == "Yellow"@,
            c.messages.broadcast@ == "White"@,
            c.ui.border@ == "White"@,
            c.ui.tabs_active@ == "Green"@,
            c.ui.tabs_inactive@ == "Gray"@,
            c.ui.notification@ == "Red"@,
            c.ui.input@ == "White"@,
            c.users.online@ == "Green"@,
            c.users.typing@ == "Yellow"@,
    {
        ColorConfig {
            messages: MessageColors {
                system: "Cyan".to_owned(),
                dm: "Magenta".to_owned(),
                room: "Yellow".to_owned(),
                broadcast: "White".to_owned(),
            },
            ui: UiColors {
                border: "White".to_owned(),
                tabs_active: "Green".to_owned(),
                tabs_inactive: "Gray".to_owned(),
                notification: "Red".to_owned(),
                input: "White".to_owned(),
            },
            users: UserColors { online: "Green".to_owned(), typing: "Yellow".to_owned() },
        }
    }

    /// The color a setting names; unknown names are white.
    pub fn parse_color(s: &str) -> (c: ColorName)
        ensures
            c == color_named(s@),
    {
        let t = s.to_owned();
        if t == "Black".to_owned() {
            ColorName::Black
        } else if t == "Red".to_owned() {
            ColorName::Red
        } else if t == "Green".to_owned() {
            ColorName::Green
        } else if t == "Yellow".to_owned() {
            ColorName::Yellow
        } else if t == "Blue".to_owned() {
            ColorName::Blue
        } else if t == "Magenta".to_owned() {
            ColorName::Magenta
        } else if t == "Cyan".to_owned() {
            ColorName::Cyan
        } else if t == "Gray".to_owned() {
            ColorName::Gray
        } else {
            ColorName::White
        }
    }
}

/// A message shown by the client.
#[derive(Clone, Debug)]
pub struct Message {
    pub from: String,
    pub content: String,
    pub timestamp: String,
    pub is_dm: bool,
    pub is_system: bool,
    pub room: Option<String>,
}

/// The tab a message belongs under: direct messages, room messages, or
/// the general tab.
pub open spec fn tab_of(m: Message) -> usize {
    if m.is_dm {
        1
    } else if m.room is Some {
        2
    } else {
        0
    }
}

/// Whether tab `tab` shows message `m`; an unknown tab shows everything.
pub open spec fn shows(tab: usize, m: Message) -> bool {
    if tab == 0 {
        !m.is_dm && m.room is None
    } else if tab == 1 {
        m.is_dm
    } else if tab == 2 {
        m.room is Some
    } else {
        true
    }
}

/// The messages tab `tab` shows, in order.
pub open spec fn shown(msgs: Seq<Message>, tab: usize) -> Seq<Message>
    decreases msgs.len(),
{
    if msgs.len() == 0 {
        Seq::empty()
    } else if shows(tab, msgs.last()) {
        shown(msgs.drop_last(), tab).push(msgs.last())
    } else {
        shown(msgs.drop_last(), tab)
    }
}

/// How many messages the client keeps.
pub const MAX_MESSAGES: usize = 500;

/// Lines moved by one page.
pub const PAGE: usize = 10;

/// `n - 1`, or 0 when `n` is 0.
pub open spec fn last_index(n: nat) -> nat {
    if n > 0 {
        (n - 1) as nat
    } else {
        0
    }
}

/// The state of the terminal client.
pub struct App {
    pub input: String,
    pub messages: Vec<Message>,
    pub users_online: Vec<String>,
    pub current_tab: usize,
    pub tabs: Vec<String>,
    pub scroll_offset: usize,
    pub username: String,
    /// users typing, with the instant (ms) they were last seen typing
    pub typing_users: Vec<(String, u64)>,
    pub current_room: Option<String>,
    /// tab -> messages arrived while another tab was shown
    pub unread_counts: HashMap<usize, usize>,
    pub auto_scroll: bool,
    pub show_notification: bool,
    pub notification_message: String,
    pub colors: ColorConfig,
}

/// `b` keeps what scrolling, switching tabs and receiving messages leave
/// alone: the typed text, the users online, the user's name, who is
/// typing, the current room and the colors.
pub open spec fn keeps_rest(a: App, b: App) -> bool {
    &&& b.input == a.input
    &&& b.users_online == a.users_online
    &&& b.username == a.username
    &&& b.typing_users == a.typing_users
    &&& b.current_room == a.current_room
    &&& b.colors == a.colors
}

impl App {
    /// The client's invariant: there are tabs and one of them is current.
    pub open spec fn wf(&self) -> bool {
        0 < self.tabs@.len() && self.current_tab < self.tabs@.len()
    }

    /// The unread count of tab `t`.
    pub open spec fn unread(&self, t: usize) -> usize {
        if self.unread_counts@.contains_key(t) {
            self.unread_counts@[t]
        } else {
            0
        }
    }

    /// A client for `username` with the given colors: three tabs (general,
    /// direct messages, rooms), the first shown, nothing received yet, and
    /// following new messages.
    pub fn new(username: String, colors: ColorConfig) -> (a: Self)
        ensures
            a.wf(),
            a.input@ == Seq::<char>::empty(),
            a.messages@.len() == 0,
            a.users_online@.len() == 0,
            a.current_tab == 0,
            a.tabs@.len() == 3,
            a.tabs@[0]@ == "Geral"@,
            a.tabs@[1]@ == "DMs"@,
            a.tabs@[2]@ == "Salas"@,
            a.scroll_offset == 0,
            a.username == username,
            a.typing_users@.len() == 0,
            a.current_room is None,
            a.unread_counts@ == Map::<usize, usize>::empty(),
            a.auto_scroll,
            !a.show_notification,
            a.notification_message@ == Seq::<char>::empty(),
            a.colors == colors,
    {
        let mut tabs: Vec<String> = Vec::new();
        tabs.push("Geral".to_owned());
        tabs.push("DMs".to_owned());
        tabs.push("Salas".to_owned());
        App {
            input: String::new(),
            messages: Vec::new(),
            users_online: Vec::new(),
            current_tab: 0,
            tabs,
            scroll_offset: 0,
            username,
            typing_users: Vec::new(),
            current_room: None,
            unread_counts: HashMap::new(),
            auto_scroll: true,
            show_notification: false,
            notification_message: String::new(),
            colors,
        }
    }

    /// The messages the current tab shows, in order.
    pub fn filtered_messages(&self) -> (v: Vec<&Message>)
        ensures
            v@.map_values(|m: &Message| *m) == shown(self.messages@, self.current_tab),
    {
        let mut v: Vec<&Message> = Vec::new();
        let mut i: usize = 0;
        while i < self.messages.len()
            invariant
                i <= self.messages@.len(),
                v@.map_values(|m: &Message| *m) == shown(self.messages@.subrange(0, i as int), self.current_tab),
            decreases self.messages@.len() - i,
        {
            let m = &self.messages[i];
            let keep = if self.current_tab == 0 {
                !m.is_dm && m.room.is_none()
            } else if self.current_tab == 1 {
                m.is_dm
            } else if self.current_tab == 2 {
                m.room.is_some()
            } else {
                true
            };
            proof {
                let w = self.messages@.subrange(0, i as int + 1);
                assert(w.drop_last() =~= self.messages@.subrange(0, i as int));
                assert(w.last() == self.messages@[i as int]);
            }
            let ghost before = v@;
            if keep {
                v.push(m);
                proof {
                    assert(v@.map_values(|m: &Message| *m) =~= before.map_values(|m: &Message| *m).push(*m));
                }
            }
            i = i + 1;
        }
        proof {
            assert(self.messages@.subrange(0, self.messages@.len() as int) =~= self.messages@);
        }
        v
    }

    /// Shows the last message of the current tab and follows new ones.
    pub fn scroll_to_bottom(&mut self)
        ensures
            keeps_rest(*old(self), *final(self)),
            final(self).scroll_offset == last_index(shown(old(self).messages@, old(self).current_tab).len()),
            final(self).auto_scroll,
            final(self).messages == old(self).messages,
            final(self).current_tab == old(self).current_tab,
            final(self).tabs == old(self).tabs,
            final(self).unread_counts == old(self).unread_counts,
            final(self).show_notification == old(self).show_notification,
            final(self).notification_message == old(self).notification_message,
    {
        let n = self.filtered_messages().len();
        self.scroll_offset = if n > 0 { n - 1 } else { 0 };
        self.auto_scroll = true;
    }

    /// Moves to the next tab (after the last comes the first), clears its
    /// unread count and shows its last message.
    pub fn next_tab(&mut self)
        requires
            old(self).wf(),
        ensures
            keeps_rest(*old(self), *final(self)),
            final(self).wf(),
            final(self).current_tab == (old(self).current_tab + 1) % (old(self).tabs@.len() as int),
            final(self).unread_counts@ == old(self).unread_counts@.insert(final(self).current_tab, 0),
            final(self).scroll_offset == last_index(shown(old(self).messages@, final(self).current_tab).len()),
            final(self).auto_scroll,
            final(self).messages == old(self).messages,
            final(self).tabs == old(self).tabs,
    {
        let n = self.tabs.len();
        self.current_tab = (self.current_tab + 1) % n;
        self.unread_counts.insert(self.current_tab, 0);
        self.scroll_to_bottom();
    }

    /// Moves to the previous tab (before the first comes the last), clears
    /// its unread count and shows its last message.
    pub fn previous_tab(&mut self)
        requires
            old(self).wf(),
        ensures
            keeps_rest(*old(self), *final(self)),
            final(self).wf(),
            final(self).current_tab == (if old(self).current_tab > 0 {
                old(self).current_tab - 1
            } else {
                old(self).tabs@.len() - 1
            }),
            final(self).unread_counts@ == old(self).unread_counts@.insert(final(self).current_tab, 0),
            final(self).scroll_offset == last_index(shown(old(self).messages@, final(self).current_tab).len()),
            final(self).auto_scroll,
            final(self).messages == old(self).messages,
            final(self).tabs == old(self).tabs,
    {
        if self.current_tab > 0 {
            self.current_tab = self.current_tab - 1;
        } else {
            self.current_tab = self.tabs.len() - 1;
        }
        self.unread_counts.insert(self.current_tab, 0);
        self.scroll_to_bottom();
    }

    /// Scrolls one line up, which stops following new messages; nothing
    /// happens at the top.
    pub fn scroll_up(&mut self)
        ensures
            keeps_rest(*old(self), *final(self)),
            old(self).scroll_offset > 0 ==> final(self).scroll_offset == old(self).scroll_offset - 1 && !final(self).auto_scroll,
            old(self).scroll_offset == 0 ==> final(self).scroll_offset == 0 && final(self).auto_scroll == old(self).auto_scroll,
            final(self).messages == old(self).messages,
            final(self).current_tab == old(self).current_tab,
            final(self).tabs == old(self).tabs,
    {
        if self.scroll_offset > 0 {
            self.scroll_offset = self.scroll_offset - 1;
            self.auto_scroll = false;
        }
    }

    /// Scrolls one line down, up to the last message of the current tab;
    /// reaching it follows new messages again.
    pub fn scroll_down(&mut self)
        ensures
            keeps_rest(*old(self), *final(self)),
            ({
                let last = last_index(shown(old(self).messages@, old(self).current_tab).len());
                &&& final(self).scroll_offset == (if old(self).scroll_offset < last {
                    old(self).scroll_offset + 1
                } else {
                    old(self).scroll_offset as int
                })
                &&& final(self).auto_scroll == (final(self).scroll_offset >= last || old(self).auto_scroll)
            }),
            final(self).messages == old(self).messages,
            final(self).current_tab == old(self).current_tab,
            final(self).tabs == old(self).tabs,
    {
        let n = self.filtered_messages().len();
        let last = if n > 0 { n - 1 } else { 0 };
        if self.scroll_offset < last {
            self.scroll_offset = self.scroll_offset + 1;
        }
        if self.scroll_offset >= last {
            self.auto_scroll = true;
        }
    }

    /// Scrolls one page up (not past the top), which stops following new
    /// messages.
    pub fn page_up(&mut self)
        ensures
            keeps_rest(*old(self), *final(self)),
            final(self).scroll_offset == (if old(self).scroll_offset >= PAGE { old(self).scroll_offset - PAGE } else { 0 }),
            !final(self).auto_scroll,
            final(self).messages == old(self).messages,
            final(self).current_tab == old(self).current_tab,
            final(self).tabs == old(self).tabs,
    {
        self.scroll_offset = if self.scroll_offset >= PAGE { self.scroll_offset - PAGE } else { 0 };
        self.auto_scroll = false;
    }

    /// Scrolls one page down, up to the last message of the current tab;
    /// reaching it follows new messages again.
    pub fn page_down(&mut self)
        requires
            old(self).scroll_offset + PAGE <= usize::MAX,
        ensures
            keeps_rest(*old(self), *final(self)),
            ({
                let last = last_index(shown(old(self).messages@, old(self).current_tab).len());
                &&& final(self).scroll_offset == (if old(self).scroll_offset + PAGE < last {
                    old(self).scroll_offset + PAGE
                } else {
                    last as int
                })
                &&& final(self).auto_scroll == (final(self).scroll_offset >= last || old(self).auto_scroll)
            }),
            final(self).messages == old(self).messages,
            final(self).current_tab == old(self).current_tab,
            final(self).tabs == old(self).tabs,
    {
        let n = self.filtered_messages().len();
        let last = if n > 0 { n - 1 } else { 0 };
        let down = self.scroll_offset + PAGE;
        self.scroll_offset = if down < last { down } else { last };
        if self.scroll_offset >= last {
            self.auto_scroll = true;
        }
    }

    /// Shows `message` as a notification.
    pub fn set_notification(&mut self, message: String)
        ensures
            final(self).notification_message == message,
            final(self).show_notification,
            final(self).input == old(self).input,
            final(self).messages == old(self).messages,
            final(self).users_online == old(self).users_online,
            final(self).current_tab == old(self).current_tab,
            final(self).tabs == old(self).tabs,
            final(self).scroll_offset == old(self).scroll_offset,
            final(self).username == old(self).username,
            final(self).typing_users == old(self).typing_users,
            final(self).current_room == old(self).current_room,
            final(self).unread_counts == old(self).unread_counts,
            final(self).auto_scroll == old(self).auto_scroll,
            final(self).colors == old(self).colors,
    {
        self.notification_message = message;
        self.show_notification = true;
    }

    /// Adds a received message: a message for another tab (other than a
    /// system message) counts as unread there; the view follows it when
    /// following; only the last 500 messages are kept; a message other than
    /// a system message raises the notification.
    pub fn add_message(&mut self, msg: Message)
        requires
            old(self).unread(tab_of(msg)) < usize::MAX,
        ensures
            keeps_rest(*old(self), *final(self)),
            ({
                let t = tab_of(msg);
                let counts = tab_of(msg) != old(self).current_tab && !msg.is_system;
                let pushed = old(self).messages@.push(msg);
                let dropped = pushed.len() > MAX_MESSAGES;
                let off = if old(self).auto_scroll {
                    last_index(shown(pushed, old(self).current_tab).len()) as int
                } else {
                    old(self).scroll_offset as int
                };
                &&& final(self).unread_counts@ == (if counts {
                    old(self).unread_counts@.insert(t, (old(self).unread(t) + 1) as usize)
                } else {
                    old(self).unread_counts@
                })
                &&& final(self).messages@ == (if dropped { pushed.drop_first() } else { pushed })
                &&& final(self).scroll_offset == (if dropped && off > 0 { off - 1 } else { off })
                &&& final(self).show_notification == (old(self).show_notification || !msg.is_system)
            }),
            final(self).auto_scroll == old(self).auto_scroll,
            final(self).current_tab == old(self).current_tab,
            final(self).tabs == old(self).tabs,
            final(self).notification_message == old(self).notification_message,
    {
        let t: usize = if msg.is_dm {
            1
        } else if msg.room.is_some() {
            2
        } else {
            0
        };
        let is_system = msg.is_system;
        if t != self.current_tab && !is_system {
            let c: usize = match self.unread_counts.get(&t) {
                Some(c) => *c,
                None => 0,
            };
            self.unread_counts.insert(t, c + 1);
        }
        self.messages.push(msg);
        if self.auto_scroll {
            self.scroll_to_bottom();
        }
        if self.messages.len() > MAX_MESSAGES {
            self.messages.remove(0);
            if self.scroll_offset > 0 {
                self.scroll_offset = self.scroll_offset - 1;
            }
        }
        if !is_system {
            self.show_notification = true;
        }
    }
}

/// The title of a tab named `tab` with `unread` unread messages: the count
/// follows in brackets when there is one.
pub open spec fn tab_title_of(tab: Seq<char>, unread: usize) -> Seq<char> {
    if unread > 0 {
        tab + " ("@ + decimal(unread as nat) + ")"@
    } else {
        tab
    }
}

/// The line that shows message `m`: its time in square brackets, the kind
/// (direct message, or the room after `#`) when it is not general, the
/// sender and the text.
pub open spec fn line_of(m: Message) -> Seq<char> {
    let head = "["@ + m.timestamp@ + "] "@;
    let tail = m.from@ + ": "@ + m.content@;
    if m.is_dm {
        head + "🤫 DM"@ + " "@ + tail
    } else if m.room is Some {
        head + "#"@ + m.room->0@ + " "@ + tail
    } else {
        head + tail
    }
}

/// The color setting for message `m`: system notices, direct messages,
/// room messages and the rest each have one.
pub open spec fn message_setting(c: ColorConfig, m: Message) -> Seq<char> {
    if m.is_system {
        c.messages.system@
    } else if m.is_dm {
        c.messages.dm@
    } else if m.room is Some {
        c.messages.room@
    } else {
        c.messages.broadcast@
    }
}

/// The line that shows message `m` (see `line_of`).
pub fn message_line(m: &Message) -> (s: String)
    ensures
        s@ == line_of(*m),
{
    let mut s = concat3("[", m.timestamp.as_str(), "] ");
    if m.is_dm {
        push_str(&mut s, "🤫 DM");
        push_str(&mut s, " ");
    } else {
        match &m.room {
            Some(r) => {
                push_str(&mut s, "#");
                push_str(&mut s, r.as_str());
                push_str(&mut s, " ");
            },
            None => {},
        }
    }
    push_str(&mut s, m.from.as_str());
    push_str(&mut s, ": ");
    push_str(&mut s, m.content.as_str());
    proof {
        let head = "["@ + m.timestamp@ + "] "@;
        let tail = m.from@ + ": "@ + m.content@;
        if m.is_dm {
            assert(s@ =~= head + "🤫 DM"@ + " "@ + tail);
        } else if m.room is Some {
            assert(s@ =~= head + "#"@ + m.room->0@ + " "@ + tail);
        } else {
            assert(s@ =~= head + tail);
        }
    }
    s
}

impl App {
    /// The unread count of tab `t`.
    fn unread_of(&self, t: usize) -> (n: usize)
        ensures
            n == self.unread(t),
    {
        match self.unread_counts.get(&t) {
            Some(c) => *c,
            None => 0,
        }
    }

    /// The title of tab `i` (see `tab_title_of`).
    pub fn tab_title(&self, i: usize) -> (s: String)
        requires
            i < self.tabs@.len(),
        ensures
            s@ == tab_title_of(self.tabs@[i as int]@, self.unread(i)),
    {
        let n = self.unread_of(i);
        if n > 0 {
            let d = decimal_string(n as u64);
            let mut s = concat3(self.tabs[i].as_str(), " (", d.as_str());
            push_str(&mut s, ")");
            s
        } else {
            self.tabs[i].clone()
        }
    }

    /// The color of message `m` (see `message_setting`).
    pub fn message_color(&self, m: &Message) -> (c: ColorName)
        ensures
            c == color_named(message_setting(self.colors, *m)),
    {
        let setting = if m.is_system {
            &self.colors.messages.system
        } else if m.is_dm {
            &self.colors.messages.dm
        } else if m.room.is_some() {
            &self.colors.messages.room
        } else {
            &self.colors.messages.broadcast
        };
        ColorConfig::parse_color(setting.as_str())
    }

    /// Whether `user` is shown as typing.
    pub fn is_typing(&self, user: &str) -> (b: bool)
        ensures
            b == names(self.typing_users@, user@),
    {
        let mut i: usize = 0;
        while i < self.typing_users.len()
            invariant
                i <= self.typing_users@.len(),
                forall|j: int| 0 <= j < i ==> #[trigger] self.typing_users@[j].0@ != user@,
            decreases self.typing_users@.len() - i,
        {
            if str_equal(self.typing_users[i].0.as_str(), user) {
                return true;
            }
            i = i + 1;
        }
        false
    }

    /// The entry for online user `user` in the users list, with its color:
    /// a keyboard follows the name of a user who is typing.
    pub fn user_line(&self, user: &str) -> (r: (String, ColorName))
        ensures
            r.0@ == (if names(self.typing_users@, user@) {
                "• "@ + user@ + " ⌨️"@
            } else {
                "• "@ + user@
            }),
            r.1 == color_named(
                if names(self.typing_users@, user@) {
                    self.colors.users.typing@
                } else {
                    self.colors.users.online@
                },
            ),
    {
        if self.is_typing(user) {
            (concat3("• ", user, " ⌨️"), ColorConfig::parse_color(self.colors.users.typing.as_str()))
        } else {
            let mut s = "• ".to_owned();
            push_str(&mut s, user);
            (s, ColorConfig::parse_color(self.colors.users.online.as_str()))
        }
    }

    /// The heading of the users list: how many are online.
    pub fn users_header(&self) -> (s: String)
        ensures
            s@ == "Online ("@ + decimal(self.users_online@.len()) + ")"@,
    {
        let d = decimal_string(self.users_online.len() as u64);
        concat3("Online (", d.as_str(), ")")
    }

    /// The title of the messages pane: whether the view follows new
    /// messages.
    pub fn messages_title(&self) -> (s: String)
        ensures
            s@ == (if self.auto_scroll {
                "Mensagens - 📍 Auto-scroll"@
            } else {
                "Mensagens - ⬆️ Manual"@
            }),
    {
        if self.auto_scroll {
            "Mensagens - 📍 Auto-scroll".to_owned()
        } else {
            "Mensagens - ⬆️ Manual".to_owned()
        }
    }

    /// Whether the notification pane shows: a notification is raised and
    /// has text.
    pub fn shows_notification(&self) -> (b: bool)
        ensures
            b == (self.show_notification && self.notification_message@.len() > 0),
    {
        self.show_notification && self.notification_message.as_str().unicode_len() > 0
    }
}

} // verus!
