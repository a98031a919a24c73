//! What the screens show, computed from the client's state: titles, the
//! contact list with the selected contact marked, and the lines of the
//! selected conversation. Drawing them is left to the terminal interface.
use vstd::prelude::*;
use vstd::string::StringExecFns;
use crate::client::{direct_ids, first_pos, room_ids, App, AppView};
use crate::lines::{
    joined_line, line_width, padded, span_views, text_line, text_msg_line, text_spans,
    try_pad_line_to_width,
    Line, LineWrapper, Span, SpanView,
};
use crate::text::{char_views, chars_of, lines_of, split_lines, string_from_chars};
use crate::types::{ChannelMsg, ChannelMsgView, msg_views};
use crate::ui::{
    theme_yellow_dark, theme_yellow_light, ActiveEntryScreen, ChannelKind, Color, FileAction,
    RoomAction, SelectorEntryKind, SelectorEntryView,
};
use crate::file_selector::FileSelector;
use crate::room_creator::RoomCreator;

verus! {

/// The title of the message view: the selected user's name or room's name
/// between spaces, or nothing when nothing known is selected.
pub open spec fn messages_title(v: AppView) -> Seq<char> {
    match v.active_channel.id {
        None => Seq::empty(),
        Some(id) => match v.active_channel.kind {
            ChannelKind::Direct => {
                let i = first_pos(direct_ids(v.directs), id);
                if i < 0 {
                    Seq::empty()
                } else {
                    " "@ + v.directs[i].user.username + " "@
                }
            },
            ChannelKind::Room => {
                let i = first_pos(room_ids(v.rooms), id);
                if i < 0 {
                    Seq::empty()
                } else {
                    " "@ + v.rooms[i].name + " "@
                }
            },
        },
    }
}

/// The lines one entry of a conversation is shown as: an image line by
/// line, a notice or a text message as one line.
pub open spec fn msg_lines(m: ChannelMsgView) -> Seq<Seq<SpanView>> {
    match m {
        ChannelMsgView::Img(i) => lines_of(i.cache).map_values(|l: Seq<char>| text_spans(l)),
        ChannelMsgView::JoinNotification(u) => seq![joined_line(u.username)],
        ChannelMsgView::TextMsg(t) => seq![text_msg_line(t.from.username, t.text)],
    }
}

/// The lines of a conversation, entry after entry.
pub open spec fn conversation_lines(ms: Seq<ChannelMsgView>) -> Seq<Seq<SpanView>>
    decreases ms.len(),
{
    if ms.len() == 0 {
        Seq::empty()
    } else {
        conversation_lines(ms.drop_last()) + msg_lines(ms.last())
    }
}

/// The entries of the selected conversation, newest first, or none.
pub open spec fn selected_messages(v: AppView) -> Seq<ChannelMsgView> {
    match v.active_channel.id {
        None => Seq::empty(),
        Some(id) => match v.active_channel.kind {
            ChannelKind::Direct => {
                let i = first_pos(direct_ids(v.directs), id);
                if i < 0 {
                    Seq::empty()
                } else {
                    v.directs[i].messages
                }
            },
            ChannelKind::Room => {
                let i = first_pos(room_ids(v.rooms), id);
                if i < 0 {
                    Seq::empty()
                } else {
                    v.rooms[i].messages
                }
            },
        },
    }
}

/// The views of a list of lines.
pub open spec fn line_views(v: Seq<Line>) -> Seq<Seq<SpanView>> {
    v.map_values(|l: Line| l@)
}

/// One entry of the contact list: its line and whether it is selected.
pub struct ContactLine {
    pub line: Line,
    pub active: bool,
}

/// The contact list as values: the name shown and whether it is selected.
pub open spec fn contact_entries(v: AppView) -> Seq<(Seq<char>, bool)> {
    match v.active_channel.kind {
        ChannelKind::Direct => v.directs.map_values(
            |c: crate::types::DirectChannelView|
                (c.user.username, v.active_channel.id == Some(c.user.id)),
        ),
        ChannelKind::Room => v.rooms.map_values(
            |r: crate::types::TuiRoomView| (r.name, v.active_channel.id == Some(r.id)),
        ),
    }
}

/// The lines of one entry of a conversation.
pub fn channel_msg_lines(m: &ChannelMsg) -> (out: Vec<Line>)
    ensures
        line_views(out@) == msg_lines(m@),
{
    let mut out: Vec<Line> = Vec::new();
    match m {
        ChannelMsg::Img(img) => {
            let chars = chars_of(img.cache.as_str());
            let ls = split_lines(chars.as_slice());
            let ghost target = lines_of(img.cache@).map_values(|l: Seq<char>| text_spans(l));
            let mut i: usize = 0;
            while i < ls.len()
                invariant
                    i <= ls.len(),
                    char_views(ls@) == lines_of(img.cache@),
                    target == lines_of(img.cache@).map_values(|l: Seq<char>| text_spans(l)),
                    line_views(out@) == target.subrange(0, i as int),
                decreases ls.len() - i,
            {
                let ghost before = out@;
                let piece = string_from_chars(ls[i].as_slice());
                let l = text_line(piece.as_str());
                out.push(l);
                proof {
                    assert(char_views(ls@)[i as int] == ls@[i as int]@);
                    assert(target[i as int] == text_spans(ls@[i as int]@));
                    assert(line_views(out@) == line_views(before).push(l@));
                    assert(line_views(out@) =~= target.subrange(0, i + 1));
                }
                i = i + 1;
            }
            assert(target.subrange(0, target.len() as int) == target);
        },
        ChannelMsg::JoinNotification(u) => {
            out.push(LineWrapper::from_user(u).0);
            proof {
                assert(line_views(out@) =~= msg_lines(m@));
            }
        },
        ChannelMsg::TextMsg(t) => {
            out.push(LineWrapper::from_text_msg(t).0);
            proof {
                assert(line_views(out@) =~= msg_lines(m@));
            }
        },
    }
    out
}

/// The lines of a conversation.
pub fn conversation(ms: &std::collections::VecDeque<ChannelMsg>) -> (out: Vec<Line>)
    ensures
        line_views(out@) == conversation_lines(msg_views(ms@)),
{
    let mut out: Vec<Line> = Vec::new();
    let mut i: usize = 0;
    while i < ms.len()
        invariant
            i <= ms@.len(),
            line_views(out@) == conversation_lines(msg_views(ms@).subrange(0, i as int)),
        decreases ms@.len() - i,
    {
        let ls = channel_msg_lines(&ms[i]);
        let ghost before = out@;
        let mut j: usize = 0;
        while j < ls.len()
            invariant
                j <= ls.len(),
                line_views(out@) == line_views(before) + line_views(ls@).subrange(0, j as int),
            decreases ls.len() - j,
        {
            let mut copy: Vec<Span> = Vec::new();
            let mut k: usize = 0;
            while k < ls[j].spans.len()
                invariant
                    k <= ls@[j as int].spans@.len(),
                    j < ls@.len(),
                    span_views(copy@) == span_views(ls@[j as int].spans@).subrange(0, k as int),
                decreases ls@[j as int].spans@.len() - k,
            {
                let sp = &ls[j].spans[k];
                let ghost before_copy = copy@;
                let ns = Span { content: sp.content.clone(), bold: sp.bold };
                copy.push(ns);
                proof {
                    assert(ns@ == span_views(ls@[j as int].spans@)[k as int]);
                    assert(span_views(copy@) == span_views(before_copy).push(ns@));
                    assert(span_views(copy@) =~= span_views(ls@[j as int].spans@).subrange(
                        0,
                        k + 1,
                    ));
                }
                k = k + 1;
            }
            let ghost prev = out@;
            let nl = Line { spans: copy };
            out.push(nl);
            proof {
                assert(line_views(out@) == line_views(prev).push(nl@));
                assert(line_views(ls@)[j as int] == ls@[j as int]@);
                assert(span_views(ls@[j as int].spans@).subrange(
                    0,
                    ls@[j as int].spans@.len() as int,
                ) == span_views(ls@[j as int].spans@));
                assert(line_views(out@) =~= line_views(before) + line_views(ls@).subrange(
                    0,
                    j + 1,
                ));
            }
            j = j + 1;
        }
        proof {
            let p = msg_views(ms@).subrange(0, i + 1);
            assert(p.drop_last() == msg_views(ms@).subrange(0, i as int));
            assert(p.last() == ms@[i as int]@);
            assert(line_views(ls@).subrange(0, ls@.len() as int) == line_views(ls@));
        }
        i = i + 1;
    }
    assert(msg_views(ms@).subrange(0, ms@.len() as int) == msg_views(ms@));
    out
}

/// The icon shown before an entry of the file selector.
pub open spec fn entry_icon(kind: SelectorEntryKind) -> Seq<char> {
    match kind {
        SelectorEntryKind::File => " \u{ea7b}"@,
        SelectorEntryKind::Folder => " \u{ea83}"@,
    }
}

/// The line of an entry of the file selector: its icon, then its name after
/// two spaces.
pub open spec fn entry_line(e: SelectorEntryView) -> Seq<SpanView> {
    seq![
        SpanView { content: entry_icon(e.kind), bold: false },
        SpanView { content: "  "@ + e.name, bold: false },
    ]
}

/// An entry line of the file selector with its colours: the icon's and
/// the name's foreground, and the foreground and background of the whole
/// line when the entry is selected.
pub struct EntryLine {
    pub line: Line,
    pub icon_fg: Color,
    pub name_fg: Color,
    pub highlight: Option<(Color, Color)>,
}

/// The colour of an entry's icon: light yellow for an unselected folder,
/// dark yellow otherwise.
pub open spec fn entry_icon_fg(kind: SelectorEntryKind, selected: bool) -> Color {
    if kind == SelectorEntryKind::Folder && !selected {
        theme_yellow_light()
    } else {
        theme_yellow_dark()
    }
}

/// The colour of an entry's name: white for an unselected file, light grey
/// for an unselected folder, dark yellow for a selected file and dark grey
/// for a selected folder.
pub open spec fn entry_name_fg(kind: SelectorEntryKind, selected: bool) -> Color {
    match (kind, selected) {
        (SelectorEntryKind::File, false) => Color::White,
        (SelectorEntryKind::Folder, false) => Color::Rgb(180, 180, 180),
        (SelectorEntryKind::File, true) => theme_yellow_dark(),
        (SelectorEntryKind::Folder, true) => Color::DarkGray,
    }
}

/// The style of a whole entry line: dark yellow on light yellow when it is
/// selected, none otherwise.
pub open spec fn entry_highlight(selected: bool) -> Option<(Color, Color)> {
    if selected {
        Some((theme_yellow_dark(), theme_yellow_light()))
    } else {
        None
    }
}

/// A line widened to `width` columns, when its width fits in a `usize`.
pub open spec fn widened(spans: Seq<SpanView>, width: nat) -> Seq<SpanView> {
    if line_width(spans) <= usize::MAX {
        padded(spans, width)
    } else {
        spans
    }
}

/// Widens `line` to `width` columns; see `widened`.
fn widen(line: Line, width: u16) -> (out: Line)
    ensures
        out@ == widened(line@, width as nat),
{
    match try_pad_line_to_width(line, width) {
        Ok(l) => l,
        Err(l) => l,
    }
}

impl App {
    /// The title of the message view; see `messages_title`.
    pub fn messages_title_text(&self) -> (s: String)
        ensures
            s@ == messages_title(self@),
    {
        let mut s = String::new();
        match self.active_channel.id {
            None => {},
            Some(id) => match self.active_channel.kind {
                ChannelKind::Direct => match self.find_direct(id) {
                    None => {},
                    Some(i) => {
                        proof {
                            crate::client::lemma_first_pos_bounds(direct_ids(self@.directs), id);
                        }
                        s.append(" ");
                        s.append(self.direct_channels[i].user.username.as_str());
                        s.append(" ");
                    },
                },
                ChannelKind::Room => match self.find_room(id) {
                    None => {},
                    Some(i) => {
                        proof {
                            crate::client::lemma_first_pos_bounds(room_ids(self@.rooms), id);
                        }
                        s.append(" ");
                        s.append(self.room_channels[i].name.as_str());
                        s.append(" ");
                    },
                },
            },
        }
        s
    }

    /// The lines of the selected conversation, newest entry first.
    pub fn message_lines(&self) -> (out: Vec<Line>)
        ensures
            line_views(out@) == conversation_lines(selected_messages(self@)),
    {
        match self.active_channel.id {
            None => Vec::new(),
            Some(id) => match self.active_channel.kind {
                ChannelKind::Direct => match self.find_direct(id) {
                    None => Vec::new(),
                    Some(i) => {
                        proof {
                            crate::client::lemma_first_pos_bounds(direct_ids(self@.directs), id);
                        }
                        conversation(&self.direct_channels[i].messages)
                    },
                },
                ChannelKind::Room => match self.find_room(id) {
                    None => Vec::new(),
                    Some(i) => {
                        proof {
                            crate::client::lemma_first_pos_bounds(room_ids(self@.rooms), id);
                        }
                        conversation(&self.room_channels[i].messages)
                    },
                },
            },
        }
    }

    /// The contact list shown: rooms or users, each marked when selected and
    /// widened to `width` columns.
    pub fn contact_lines(&self, width: u16) -> (out: Vec<ContactLine>)
        ensures
            out@.len() == contact_entries(self@).len(),
            forall|k: int|
                0 <= k < out@.len() ==> (#[trigger] out@[k]).line@ == widened(
                    text_spans(contact_entries(self@)[k].0),
                    width as nat,
                ) && out@[k].active == contact_entries(self@)[k].1,
    {
        let mut out: Vec<ContactLine> = Vec::new();
        match self.active_channel.kind {
            ChannelKind::Direct => {
                let mut i: usize = 0;
                while i < self.direct_channels.len()
                    invariant
                        i <= self.direct_channels.len(),
                        self.active_channel.kind == ChannelKind::Direct,
                        out@.len() == i,
                        forall|k: int|
                            0 <= k < i ==> (#[trigger] out@[k]).line@ == widened(
                                text_spans(contact_entries(self@)[k].0),
                                width as nat,
                            ) && out@[k].active == contact_entries(self@)[k].1,
                    decreases self.direct_channels.len() - i,
                {
                    let c = &self.direct_channels[i];
                    let active = match self.active_channel.id {
                        Some(id) => id == c.user.id,
                        None => false,
                    };
                    let line = widen(LineWrapper::from_direct(c).0, width);
                    out.push(ContactLine { line, active });
                    i = i + 1;
                }
            },
            ChannelKind::Room => {
                let mut i: usize = 0;
                while i < self.room_channels.len()
                    invariant
                        i <= self.room_channels.len(),
                        self.active_channel.kind == ChannelKind::Room,
                        out@.len() == i,
                        forall|k: int|
                            0 <= k < i ==> (#[trigger] out@[k]).line@ == widened(
                                text_spans(contact_entries(self@)[k].0),
                                width as nat,
                            ) && out@[k].active == contact_entries(self@)[k].1,
                    decreases self.room_channels.len() - i,
                {
                    let r = &self.room_channels[i];
                    let active = match self.active_channel.id {
                        Some(id) => id == r.id,
                        None => false,
                    };
                    let line = widen(LineWrapper::from_room(r).0, width);
                    out.push(ContactLine { line, active });
                    i = i + 1;
                }
            },
        }
        out
    }

    /// The title of the contact list.
    pub fn contacts_title_text(&self) -> (s: &'static str)
        ensures
            s@ == match self.active_channel.kind {
                ChannelKind::Direct => " Users "@,
                ChannelKind::Room => " Rooms "@,
            },
    {
        match self.active_channel.kind {
            ChannelKind::Direct => " Users ",
            ChannelKind::Room => " Rooms ",
        }
    }

    /// The headline of the entry screen.
    pub fn entry_headline(&self) -> (s: &'static str)
        ensures
            s@ == match self.active_entry_screen {
                ActiveEntryScreen::ASLogin => "Login"@,
                ActiveEntryScreen::ASRegister => "Register"@,
            },
    {
        match self.active_entry_screen {
            ActiveEntryScreen::ASLogin => "Login",
            ActiveEntryScreen::ASRegister => "Register",
        }
    }
}

impl RoomCreator {
    /// The title of the room form.
    pub fn title_text(&self) -> (s: &'static str)
        ensures
            s@ == match self.active_action {
                RoomAction::Create => " Create room "@,
                RoomAction::Join => " Join room "@,
            },
    {
        match self.active_action {
            RoomAction::Create => " Create room ",
            RoomAction::Join => " Join room ",
        }
    }
}

impl FileSelector {
    /// The lines of the entries, each widened to `width` columns, with their
    /// colours; see `entry_icon_fg`, `entry_name_fg` and `entry_highlight`.
    pub fn entry_lines(&self, width: u16) -> (out: Vec<EntryLine>)
        ensures
            out@.len() == self.entries@.len(),
            forall|k: int|
                0 <= k < out@.len() ==> {
                    let e = #[trigger] self.entries@[k]@;
                    &&& out@[k].line@ == widened(entry_line(e), width as nat)
                    &&& out@[k].icon_fg == entry_icon_fg(e.kind, e.selected)
                    &&& out@[k].name_fg == entry_name_fg(e.kind, e.selected)
                    &&& out@[k].highlight == entry_highlight(e.selected)
                },
    {
        let mut out: Vec<EntryLine> = Vec::new();
        let mut i: usize = 0;
        while i < self.entries.len()
            invariant
                i <= self.entries.len(),
                out@.len() == i,
                forall|k: int|
                    0 <= k < i ==> {
                        let e = #[trigger] self.entries@[k]@;
                        &&& out@[k].line@ == widened(entry_line(e), width as nat)
                        &&& out@[k].icon_fg == entry_icon_fg(e.kind, e.selected)
                        &&& out@[k].name_fg == entry_name_fg(e.kind, e.selected)
                        &&& out@[k].highlight == entry_highlight(e.selected)
                    },
            decreases self.entries.len() - i,
        {
            let e = &self.entries[i];
            let icon = match e.kind {
                SelectorEntryKind::File => " \u{ea7b}",
                SelectorEntryKind::Folder => " \u{ea83}",
            };
            let mut name = String::new();
            name.append("  ");
            name.append(e.name.as_str());
            let mut spans: Vec<Span> = Vec::new();
            spans.push(Span { content: icon.to_string(), bold: false });
            spans.push(Span { content: name, bold: false });
            let line = Line { spans };
            assert(line@ =~= entry_line(e@));
            let yellow_dark = Color::Rgb(219, 188, 127);
            let yellow_light = Color::Rgb(92, 107, 85);
            let icon_fg = match (e.kind, e.selected) {
                (SelectorEntryKind::Folder, false) => yellow_light,
                _ => yellow_dark,
            };
            let name_fg = match (e.kind, e.selected) {
                (SelectorEntryKind::File, false) => Color::White,
                (SelectorEntryKind::Folder, false) => Color::Rgb(180, 180, 180),
                (SelectorEntryKind::File, true) => yellow_dark,
                (SelectorEntryKind::Folder, true) => Color::DarkGray,
            };
            let highlight = if e.selected {
                Some((yellow_dark, yellow_light))
            } else {
                None
            };
            out.push(EntryLine { line: widen(line, width), icon_fg, name_fg, highlight });
            i = i + 1;
        }
        out
    }

    /// The title of the file selector.
    pub fn title_text(&self) -> (s: &'static str)
        ensures
            s@ == match self.active_action {
                FileAction::ASCII => " Send ASCI image "@,
                FileAction::File => " Send file "@,
            },
    {
        match self.active_action {
            FileAction::ASCII => " Send ASCI image ",
            FileAction::File => " Send file ",
        }
    }
}

} // verus!
