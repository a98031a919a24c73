//! Lines of styled text as the terminal interface draws them: spans of text,
//! each plain or bold, and the conversions from messages and contacts.
use vstd::prelude::*;
use vstd::string::StringExecFns;
use crate::text::{char_views, chars_of, lines_of, split_lines, string_from_chars};
use crate::types::{ChannelMsg, ChannelMsgView, DirectChannel, ImgRender, TextMsg, TuiRoom, User};

verus! {

/// The number of terminal columns that the text `s` takes, as the
/// `unicode-width` crate counts them for `ratatui`.
pub uninterp spec fn display_width(s: Seq<char>) -> nat;

/// Calls `ratatui::text::Span::width` on a span holding `s`. Claimed: the
/// result is `display_width(s)`, and a text made only of spaces takes one
/// column per space.
#[verifier::external_body]
fn str_width(s: &str) -> (w: usize)
    ensures
        w == display_width(s@),
        (forall|i: int| 0 <= i < s@.len() ==> s@[i] == ' ') ==> w == s@.len(),
{
    ratatui::text::Span::raw(s).width()
}

/// A piece of text with one style: plain or bold.
#[derive(Debug)]
pub struct Span {
    pub content: String,
    pub bold: bool,
}

/// A span as a value.
pub struct SpanView {
    pub content: Seq<char>,
    pub bold: bool,
}

impl View for Span {
    type V = SpanView;

    open spec fn view(&self) -> SpanView {
        SpanView { content: self.content@, bold: self.bold }
    }
}

/// One line of spans.
#[derive(Debug)]
pub struct Line {
    pub spans: Vec<Span>,
}

/// The views of a list of spans.
pub open spec fn span_views(v: Seq<Span>) -> Seq<SpanView> {
    v.map_values(|s: Span| s@)
}

impl View for Line {
    type V = Seq<SpanView>;

    open spec fn view(&self) -> Seq<SpanView> {
        span_views(self.spans@)
    }
}

/// The number of columns a line takes: the sum over its spans.
pub open spec fn line_width(spans: Seq<SpanView>) -> nat
    decreases spans.len(),
{
    if spans.len() == 0 {
        0
    } else {
        line_width(spans.drop_last()) + display_width(spans.last().content)
    }
}

/// `n` spaces.
pub open spec fn spaces(n: nat) -> Seq<char> {
    Seq::new(n, |i: int| ' ')
}

/// A string of `n` spaces.
fn make_spaces(n: usize) -> (s: String)
    ensures
        s@ == spaces(n as nat),
{
    let mut v: Vec<char> = Vec::new();
    let mut i: usize = 0;
    while i < n
        invariant
            i <= n,
            v@ == spaces(i as nat),
        decreases n - i,
    {
        v.push(' ');
        proof {
            assert(v@ =~= spaces((i + 1) as nat));
        }
        i = i + 1;
    }
    string_from_chars(v.as_slice())
}

impl Line {
    /// The number of columns this line takes.
    pub fn width(&self) -> (w: usize)
        requires
            line_width(self@) <= usize::MAX,
        ensures
            w == line_width(self@),
    {
        let mut total: usize = 0;
        let mut i: usize = 0;
        while i < self.spans.len()
            invariant
                i <= self.spans.len(),
                line_width(self@) <= usize::MAX,
                total == line_width(self@.subrange(0, i as int)),
            decreases self.spans.len() - i,
        {
            proof {
                let p = self@.subrange(0, i + 1);
                assert(p.drop_last() == self@.subrange(0, i as int));
                assert(p.last() == self.spans@[i as int]@);
                lemma_line_width_prefix(self@, i + 1);
            }
            let w = str_width(self.spans[i].content.as_str());
            total = total + w;
            i = i + 1;
        }
        assert(self@.subrange(0, self@.len() as int) == self@);
        total
    }
}

/// A line is at least as wide as any of its prefixes.
pub proof fn lemma_line_width_prefix(spans: Seq<SpanView>, k: int)
    requires
        0 <= k <= spans.len(),
    ensures
        line_width(spans.subrange(0, k)) <= line_width(spans),
    decreases spans.len() - k,
{
    if k < spans.len() {
        lemma_line_width_prefix(spans, k + 1);
        let p = spans.subrange(0, k + 1);
        assert(p.drop_last() == spans.subrange(0, k));
    } else {
        assert(spans.subrange(0, k) == spans);
    }
}

/// What `pad_line_to_width` gives: the line, with a plain span of spaces
/// added when it is narrower than `target`, to make up the difference.
pub open spec fn padded(spans: Seq<SpanView>, target: nat) -> Seq<SpanView> {
    let w = line_width(spans);
    if w < target {
        spans.push(SpanView { content: spaces((target - w) as nat), bold: false })
    } else {
        spans
    }
}

/// Widens `line` with spaces to `target_width` columns; a line that is
/// already as wide is returned as it is. The result is as wide as the wider
/// of the line and the target, so widening it again changes nothing.
pub fn pad_line_to_width(line: Line, target_width: u16) -> (out: Line)
    requires
        line_width(line@) <= usize::MAX,
    ensures
        out@ == padded(line@, target_width as nat),
        line_width(out@) == if line_width(line@) < target_width {
            target_width as nat
        } else {
            line_width(line@)
        },
        line_width(out@) <= usize::MAX,
        padded(out@, target_width as nat) == out@,
{
    let content_width = line.width();
    let mut line = line;
    if content_width < target_width as usize {
        let padding = make_spaces(target_width as usize - content_width);
        let pad_w = str_width(padding.as_str());
        assert(pad_w == target_width - content_width);
        let ghost before = line@;
        line.spans.push(Span { content: padding, bold: false });
        proof {
            assert(line@ == before.push(
                SpanView { content: spaces((target_width - content_width) as nat), bold: false },
            ));
            assert(line@.drop_last() == before);
        }
    }
    line
}

impl Line {
    /// The number of columns this line takes, or `None` when that number
    /// does not fit in a `usize`.
    pub fn checked_width(&self) -> (w: Option<usize>)
        ensures
            match w {
                Some(n) => n == line_width(self@),
                None => line_width(self@) > usize::MAX,
            },
    {
        let mut total: usize = 0;
        let mut i: usize = 0;
        while i < self.spans.len()
            invariant
                i <= self.spans.len(),
                total == line_width(self@.subrange(0, i as int)),
            decreases self.spans.len() - i,
        {
            proof {
                let p = self@.subrange(0, i + 1);
                assert(p.drop_last() == self@.subrange(0, i as int));
                assert(p.last() == self.spans@[i as int]@);
            }
            let w = str_width(self.spans[i].content.as_str());
            if total > usize::MAX - w {
                proof {
                    lemma_line_width_prefix(self@, i + 1);
                }
                return None;
            }
            total = total + w;
            i = i + 1;
        }
        assert(self@.subrange(0, self@.len() as int) == self@);
        Some(total)
    }
}

/// Widens `line` with spaces to `target_width` columns, as
/// `pad_line_to_width` does, when its width fits in a `usize`; otherwise the
/// line is handed back unchanged as the error.
pub fn try_pad_line_to_width(line: Line, target_width: u16) -> (out: Result<Line, Line>)
    ensures
        match out {
            Ok(l) => line_width(line@) <= usize::MAX && l@ == padded(line@, target_width as nat),
            Err(l) => line_width(line@) > usize::MAX && l@ == line@,
        },
{
    match line.checked_width() {
        None => Err(line),
        Some(_) => Ok(pad_line_to_width(line, target_width)),
    }
}

/// A line wrapped so that the interface can turn it into its own type.
pub struct LineWrapper(pub Line);

/// Text of several lines wrapped so that the interface can turn it into its
/// own type.
pub struct TextWrapper(pub Vec<Line>);

/// A contact of the contact list: a direct channel or a room.
pub enum Contact<'a> {
    Direct(&'a DirectChannel),
    Room(&'a TuiRoom),
}

/// A span holding `s`.
fn span_of(s: String, bold: bool) -> (sp: Span)
    ensures
        sp@ == (SpanView { content: s@, bold }),
{
    Span { content: s, bold }
}

/// A line of one plain span holding `s`.
fn single_span_line(s: String) -> (l: Line)
    ensures
        l@ == seq![SpanView { content: s@, bold: false }],
{
    let mut spans: Vec<Span> = Vec::new();
    spans.push(span_of(s, false));
    proof {
        assert(span_views(spans@) =~= seq![SpanView { content: s@, bold: false }]);
    }
    Line { spans }
}

/// The spans of a line made from the text `s` as `ratatui`'s
/// `Line::from` makes them: one plain span per line of the text.
pub open spec fn text_spans(s: Seq<char>) -> Seq<SpanView> {
    lines_of(s).map_values(|l: Seq<char>| SpanView { content: l, bold: false })
}

/// A line made from the text `s`; see `text_spans`.
pub fn text_line(s: &str) -> (l: Line)
    ensures
        l@ == text_spans(s@),
{
    let chars = chars_of(s);
    let ls = split_lines(chars.as_slice());
    let mut spans: Vec<Span> = Vec::new();
    let mut i: usize = 0;
    while i < ls.len()
        invariant
            i <= ls.len(),
            char_views(ls@) == lines_of(s@),
            span_views(spans@) == text_spans(s@).subrange(0, i as int),
        decreases ls.len() - i,
    {
        let ghost before = spans@;
        let sp = span_of(string_from_chars(ls[i].as_slice()), false);
        spans.push(sp);
        proof {
            assert(char_views(ls@)[i as int] == ls@[i as int]@);
            assert(span_views(spans@) == span_views(before).push(sp@));
            assert(span_views(spans@) =~= text_spans(s@).subrange(0, i + 1));
        }
        i = i + 1;
    }
    assert(text_spans(s@).subrange(0, text_spans(s@).len() as int) == text_spans(s@));
    Line { spans }
}

/// The line for a text message: the sender's name and `: ` in bold, then the text.
pub open spec fn text_msg_line(username: Seq<char>, text: Seq<char>) -> Seq<SpanView> {
    seq![
        SpanView { content: username + ": "@, bold: true },
        SpanView { content: text, bold: false },
    ]
}

/// The line announcing that a user joined.
pub open spec fn joined_line(username: Seq<char>) -> Seq<SpanView> {
    seq![SpanView { content: username + ": joined the room"@, bold: false }]
}

impl LineWrapper {
    /// The line for a text message.
    pub fn from_text_msg(msg: &TextMsg) -> (w: LineWrapper)
        ensures
            w.0@ == text_msg_line(msg.from.username@, msg.text@),
    {
        let mut name = msg.from.username.clone();
        name.append(": ");
        let mut spans: Vec<Span> = Vec::new();
        spans.push(span_of(name, true));
        spans.push(span_of(msg.text.clone(), false));
        proof {
            assert(span_views(spans@) =~= text_msg_line(msg.from.username@, msg.text@));
        }
        LineWrapper(Line { spans })
    }

    /// The line announcing that `user` joined.
    pub fn from_user(user: &User) -> (w: LineWrapper)
        ensures
            w.0@ == joined_line(user.username@),
    {
        let mut text = user.username.clone();
        text.append(": joined the room");
        LineWrapper(single_span_line(text))
    }

    /// The line naming a room.
    pub fn from_room(room: &TuiRoom) -> (w: LineWrapper)
        ensures
            w.0@ == text_spans(room.name@),
    {
        LineWrapper(text_line(room.name.as_str()))
    }

    /// The line naming the user of a direct channel.
    pub fn from_direct(c: &DirectChannel) -> (w: LineWrapper)
        ensures
            w.0@ == text_spans(c.user.username@),
    {
        LineWrapper(text_line(c.user.username.as_str()))
    }

    /// The line naming a contact.
    pub fn from_contact(c: &Contact) -> (w: LineWrapper)
        ensures
            w.0@ == match *c {
                Contact::Direct(d) => text_spans(d.user.username@),
                Contact::Room(r) => text_spans(r.name@),
            },
    {
        match c {
            Contact::Direct(d) => LineWrapper::from_direct(d),
            Contact::Room(r) => LineWrapper::from_room(r),
        }
    }

    /// The line for an entry of a message list; images are drawn over
    /// several lines and have no line of their own.
    pub fn from_channel_msg(msg: &ChannelMsg) -> (w: LineWrapper)
        requires
            !(msg is Img),
        ensures
            w.0@ == match msg@ {
                ChannelMsgView::JoinNotification(u) => joined_line(u.username),
                ChannelMsgView::TextMsg(m) => text_msg_line(m.from.username, m.text),
                ChannelMsgView::Img(_) => Seq::empty(),
            },
    {
        match msg {
            ChannelMsg::JoinNotification(u) => LineWrapper::from_user(u),
            ChannelMsg::TextMsg(m) => LineWrapper::from_text_msg(m),
            ChannelMsg::Img(_) => LineWrapper(Line { spans: Vec::new() }),
        }
    }
}

impl TextWrapper {
    /// The text of an image drawn in characters: one line holding all of it.
    pub fn from_img(img: &ImgRender) -> (w: TextWrapper)
        ensures
            w.0@.len() == 1,
            w.0@[0]@ == seq![SpanView { content: img.cache@, bold: false }],
    {
        let mut lines: Vec<Line> = Vec::new();
        lines.push(single_span_line(img.cache.clone()));
        TextWrapper(lines)
    }
}

} // verus!
