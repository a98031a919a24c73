//! The commands of the line-oriented client: each line typed is a message to
//! the public room, a direct message, a file to send, or `.quit`.
use vstd::prelude::*;
use std::collections::HashMap;
use crate::streams::ActiveStream;
use crate::text::{char_views, chars_eq, chars_of, split_whitespace, string_from_chars, words};
use crate::types::Chunk;

verus! {

/// What the `uuid` crate reads from the text `s`: the 128-bit value of the
/// UUID it spells, or `None` when it spells none.
pub uninterp spec fn uuid_text_value(s: Seq<char>) -> Option<u128>;

/// Calls `uuid::Uuid::parse_str` and takes the value with `Uuid::as_u128`.
/// Claimed: the result is `uuid_text_value(text)`, a function of the text
/// alone; which spellings are accepted is left to the crate.
#[verifier::external_body]
pub(crate) fn parse_uuid(text: &str) -> (r: Option<u128>)
    ensures
        r == uuid_text_value(text@),
{
    match uuid::Uuid::parse_str(text) {
        Ok(u) => Some(u.as_u128()),
        Err(_) => None,
    }
}

/// A command typed on one line.
#[derive(Debug, PartialEq, Eq)]
pub enum StdinCommand {
    /// Stop reading.
    Quit,
    /// `.file` with more than one argument; a hint is printed.
    TooManyArguments,
    /// Send the file at this path.
    SendFile(String),
    /// Send the whole line to the user with this id.
    Direct { text: String, to: u128 },
    /// Send the whole line to the public room.
    Room(String),
}

/// What a line asks for, with the recipient of a direct message still as text.
pub enum CommandView {
    Quit,
    TooManyArguments,
    SendFile(Seq<char>),
    Direct(Seq<char>, Seq<char>),
    Room(Seq<char>),
}

/// The command of `line`, by its whitespace-separated words: `.quit` alone
/// quits; `.file` and one path sends that file, with more arguments it is
/// refused; any other line of two or more words is a direct message to the
/// user whose id is the second word; a line of fewer words goes to the
/// public room. Messages carry the whole line.
pub open spec fn command_of(line: Seq<char>) -> CommandView {
    let w = words(line);
    if w.len() == 1 && w[0] == ".quit"@ {
        CommandView::Quit
    } else if w.len() > 2 && w[0] == ".file"@ {
        CommandView::TooManyArguments
    } else if w.len() == 2 && w[0] == ".file"@ {
        CommandView::SendFile(w[1])
    } else if w.len() >= 2 {
        CommandView::Direct(line, w[1])
    } else {
        CommandView::Room(line)
    }
}

/// Whether `line` can be read as a command: a direct message needs the id
/// of a user.
pub open spec fn command_readable(line: Seq<char>) -> bool {
    match command_of(line) {
        CommandView::Direct(_, id) => uuid_text_value(id) is Some,
        _ => true,
    }
}

/// Whether the command `c` is what `line` asks for.
pub open spec fn command_matches(c: StdinCommand, line: Seq<char>) -> bool {
    match (command_of(line), c) {
        (CommandView::Quit, StdinCommand::Quit) => true,
        (CommandView::TooManyArguments, StdinCommand::TooManyArguments) => true,
        (CommandView::SendFile(p), StdinCommand::SendFile(q)) => q@ == p,
        (CommandView::Direct(t, id), StdinCommand::Direct { text, to }) => text@ == t && Some(to)
            == uuid_text_value(id),
        (CommandView::Room(t), StdinCommand::Room(text)) => text@ == t,
        _ => false,
    }
}

/// Reads the command on one typed line. A direct message needs the id of a
/// user as its second word.
pub fn read_command(line: &str) -> (c: StdinCommand)
    requires
        command_readable(line@),
    ensures
        command_matches(c, line@),
{
    let chars = chars_of(line);
    let ws = split_whitespace(chars.as_slice());
    proof {
        reveal_strlit(".quit");
        reveal_strlit(".file");
        assert(char_views(ws@) == words(line@));
        if ws@.len() > 0 {
            assert(ws@[0]@ == words(line@)[0]);
        }
        if ws@.len() > 1 {
            assert(ws@[1]@ == words(line@)[1]);
        }
    }
    let quit = chars_of(".quit");
    let file = chars_of(".file");
    if ws.len() == 1 && chars_eq(ws[0].as_slice(), quit.as_slice()) {
        return StdinCommand::Quit;
    }
    if ws.len() < 2 {
        return StdinCommand::Room(string_from_chars(chars.as_slice()));
    }
    if chars_eq(ws[0].as_slice(), file.as_slice()) {
        if ws.len() > 2 {
            return StdinCommand::TooManyArguments;
        }
        return StdinCommand::SendFile(string_from_chars(ws[1].as_slice()));
    }
    let id_text = string_from_chars(ws[1].as_slice());
    match parse_uuid(id_text.as_str()) {
        Some(to) => StdinCommand::Direct { text: string_from_chars(chars.as_slice()), to },
        None => StdinCommand::Room(string_from_chars(chars.as_slice())),
    }
}

/// Reads the command on one typed line, or `None` when the line is a direct
/// message whose second word is not the id of a user.
pub fn try_read_command(line: &str) -> (c: Option<StdinCommand>)
    ensures
        match c {
            Some(cmd) => command_readable(line@) && command_matches(cmd, line@),
            None => !command_readable(line@),
        },
{
    let chars = chars_of(line);
    let ws = split_whitespace(chars.as_slice());
    proof {
        reveal_strlit(".file");
        assert(char_views(ws@) == words(line@));
        if ws@.len() > 0 {
            assert(ws@[0]@ == words(line@)[0]);
        }
        if ws@.len() > 1 {
            assert(ws@[1]@ == words(line@)[1]);
        }
    }
    let file = chars_of(".file");
    if ws.len() >= 2 && !chars_eq(ws[0].as_slice(), file.as_slice()) {
        let id_text = string_from_chars(ws[1].as_slice());
        if parse_uuid(id_text.as_str()).is_none() {
            return None;
        }
    }
    Some(read_command(line))
}

/// Counts a received chunk against its transfer as the line client does:
/// of the chunk's bytes only those that the file still lacks are written,
/// but the whole chunk is counted, and the transfer ends only when the count
/// meets the file's size exactly; a chunk that overshoots leaves the transfer
/// open with more counted than the file holds. The result is how many of the
/// chunk's first bytes are to be written. The transfer must be known, and
/// must not have overshot already, since the count is taken from the size.
pub fn handle_file_chunk(chunk: &Chunk, data_streams: &mut HashMap<u128, ActiveStream>) -> (write:
    usize)
    requires
        old(data_streams)@.contains_key(chunk.stream_id),
        old(data_streams)@[chunk.stream_id].written <= old(data_streams)@[chunk.stream_id].size,
        old(data_streams)@[chunk.stream_id].written + chunk.data@.len() <= u64::MAX,
    ensures
        ({
            let id = chunk.stream_id;
            let m = old(data_streams)@;
            let s = m[id];
            let len = chunk.data@.len();
            let total = s.written + len;
            &&& write == (if len < s.size - s.written {
                len as int
            } else {
                s.size - s.written
            })
            &&& if total == s.size {
                final(data_streams)@ == m.remove(id)
            } else {
                &&& final(data_streams)@.dom() == m.dom()
                &&& forall|k: u128|
                    k != id && #[trigger] m.contains_key(k) ==> final(data_streams)@[k] == m[k]
                &&& final(data_streams)@[id].written == total
                &&& final(data_streams)@[id].size == s.size
                &&& final(data_streams)@[id].file_name == s.file_name
                &&& final(data_streams)@[id].from == s.from
            }
        }),
{
    broadcast use vstd::std_specs::hash::group_hash_axioms;

    let id = chunk.stream_id;
    let mut stream = data_streams.remove(&id).unwrap();
    let rest: u64 = stream.size - stream.written;
    let len = chunk.data.len();
    let n: usize = if (len as u64) < rest {
        len
    } else {
        rest as usize
    };
    stream.written = stream.written + (len as u64);
    if stream.written != stream.size {
        data_streams.insert(id, stream);
        proof {
            assert(data_streams@.dom() =~= old(data_streams)@.dom());
        }
    }
    n
}

} // verus!
