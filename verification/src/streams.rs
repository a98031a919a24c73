//! Files received in chunks: each transfer is announced with its size, then
//! its chunks are counted until the whole size has arrived. Writing the bytes
//! to disk is left to the caller, which writes what `handle_file_chunk` says.
use vstd::prelude::*;
use vstd::string::StringExecFns;
use std::collections::HashMap;
use crate::file_selector::{suffix, suffix_of};
use crate::text::chars_of;
use crate::types::{Channel, Chunk, FileMetadata, User};

verus! {

/// The folder where received files are stored.
pub const FILES_DIR: &'static str = "./files/";

/// A transfer in progress: how much of the file has arrived, the file's
/// size and name, and where it comes from.
#[derive(Debug)]
pub struct ActiveStream {
    pub written: u64,
    pub size: u64,
    pub file_name: String,
    pub from: Channel,
}

/// Whether every transfer has received at most its size.
pub open spec fn streams_wf(m: Map<u128, ActiveStream>) -> bool {
    forall|k: u128| #[trigger] m.contains_key(k) ==> m[k].written <= m[k].size
}

/// Whether files with suffix `s` are images that are shown drawn in text.
pub open spec fn is_image_suffix(s: Seq<char>) -> bool {
    s == seq!['p', 'n', 'g'] || s == seq!['j', 'p', 'g']
}

/// What a chunk did.
#[derive(Debug, PartialEq, Eq)]
pub enum ChunkOutcome {
    /// The chunk belongs to no transfer in progress and was dropped.
    Unknown,
    /// The first `write` bytes of the chunk are to be written; the file is
    /// not complete yet.
    Partial { write: usize },
    /// The first `write` bytes of the chunk are to be written, which
    /// completes the file; `image` tells whether it is to be shown drawn in
    /// text.
    Complete { write: usize, image: bool },
}

/// The path where a received file named `name` is stored.
pub fn file_path(name: &str) -> (p: String)
    ensures
        p@ == FILES_DIR@ + name@,
{
    let mut p = String::new();
    p.append(FILES_DIR);
    p.append(name);
    p
}

/// Starts following the transfer that `meta` announces: nothing of it has
/// arrived yet. A transfer with the same id is replaced.
pub fn handle_file_metadata(meta: FileMetadata, data_streams: &mut HashMap<u128, ActiveStream>)
    ensures
        streams_wf(old(data_streams)@) ==> streams_wf(final(data_streams)@),
        final(data_streams)@.dom() == old(data_streams)@.dom().insert(meta.stream_id),
        forall|k: u128|
            k != meta.stream_id && #[trigger] old(data_streams)@.contains_key(k)
                ==> final(data_streams)@[k] == old(data_streams)@[k],
        ({
            let s = final(data_streams)@[meta.stream_id];
            &&& s.written == 0
            &&& s.size == meta.size
            &&& s.file_name@ == meta.filename@
            &&& s.from == meta.from
        }),
{
    broadcast use vstd::std_specs::hash::group_hash_axioms;

    let stream = ActiveStream {
        written: 0,
        size: meta.size,
        file_name: meta.filename,
        from: meta.from,
    };
    data_streams.insert(meta.stream_id, stream);
}

/// Counts a chunk against its transfer. Of the chunk's bytes only those
/// that the file still lacks count, and the transfer ends once its whole
/// size has arrived; a completed `png` or `jpg` file is to be shown drawn in
/// text. Chunks of unknown transfers are dropped.
pub fn handle_file_chunk(chunk: &Chunk, data_streams: &mut HashMap<u128, ActiveStream>) -> (out:
    ChunkOutcome)
    requires
        streams_wf(old(data_streams)@),
    ensures
        streams_wf(final(data_streams)@),
        ({
            let id = chunk.stream_id;
            let m = old(data_streams)@;
            if !m.contains_key(id) {
                &&& out == ChunkOutcome::Unknown
                &&& final(data_streams)@ == m
            } else {
                let s = m[id];
                let rest = s.size - s.written;
                let n = if chunk.data@.len() < rest {
                    chunk.data@.len() as int
                } else {
                    rest
                };
                if s.written + n == s.size {
                    &&& out == (ChunkOutcome::Complete {
                        write: n as usize,
                        image: is_image_suffix(suffix_of(s.file_name@)),
                    })
                    &&& final(data_streams)@ == m.remove(id)
                } else {
                    &&& out == ChunkOutcome::Partial { write: n as usize }
                    &&& final(data_streams)@.dom() == m.dom()
                    &&& forall|k: u128|
                        k != id && #[trigger] m.contains_key(k)
                            ==> final(data_streams)@[k] == m[k]
                    &&& final(data_streams)@[id].written == s.written + n
                    &&& final(data_streams)@[id].size == s.size
                    &&& final(data_streams)@[id].file_name == s.file_name
                    &&& final(data_streams)@[id].from == s.from
                }
            }
        }),
{
    broadcast use vstd::std_specs::hash::group_hash_axioms;

    let id = chunk.stream_id;
    let mut stream = match data_streams.remove(&id) {
        None => return ChunkOutcome::Unknown,
        Some(s) => s,
    };
    let rest: u64 = stream.size - stream.written;
    let len = chunk.data.len();
    let n: usize = if (len as u64) < rest {
        len
    } else {
        rest as usize
    };
    stream.written = stream.written + (n as u64);
    if stream.written == stream.size {
        let name = chars_of(stream.file_name.as_str());
        let sfx = suffix(name.as_slice());
        let image = is_image(sfx.as_slice());
        ChunkOutcome::Complete { write: n, image }
    } else {
        data_streams.insert(id, stream);
        proof {
            assert(data_streams@.dom() =~= old(data_streams)@.dom());
        }
        ChunkOutcome::Partial { write: n }
    }
}

/// The announcement of a file about to be sent: its name is the last
/// component of its path.
pub fn outgoing_metadata(path: &Vec<String>, stream_id: u128, to: Channel, from: Channel, size: u64) -> (m:
    FileMetadata)
    requires
        path@.len() > 0,
    ensures
        m.filename@ == path@.last()@,
        m.stream_id == stream_id,
        m.to == to,
        m.from == from,
        m.size == size,
{
    let filename = path[path.len() - 1].clone();
    FileMetadata { filename, stream_id, to, from, size }
}

/// A fresh stream id: `uuid::Uuid::new_v4` taken as a number with
/// `Uuid::as_u128`. Nothing is claimed of its value, which is random.
#[verifier::external_body]
fn new_stream_id() -> (id: u128) {
    uuid::Uuid::new_v4().as_u128()
}

/// The announcement of a new transfer of the file at `path`, under a fresh
/// random stream id; see `outgoing_metadata`.
pub fn announce_file(path: &Vec<String>, to: Channel, from: Channel, size: u64) -> (m: FileMetadata)
    requires
        path@.len() > 0,
    ensures
        m.filename@ == path@.last()@,
        m.to == to,
        m.from == from,
        m.size == size,
{
    let stream_id = new_stream_id();
    outgoing_metadata(path, stream_id, to, from, size)
}

/// One chunk of a file being sent: the whole read buffer, as the sender
/// reads into it, from `sender` to `to`.
pub fn outgoing_chunk(buffer: &[u8], sender: &User, to: Channel, stream_id: u128) -> (c: Chunk)
    ensures
        c.data@ == buffer@,
        c.from@ == sender@,
        c.to == to,
        c.stream_id == stream_id,
{
    let mut data: Vec<u8> = Vec::new();
    let mut i: usize = 0;
    while i < buffer.len()
        invariant
            i <= buffer.len(),
            data@ == buffer@.subrange(0, i as int),
        decreases buffer.len() - i,
    {
        data.push(buffer[i]);
        proof {
            assert(buffer@.subrange(0, i + 1) == buffer@.subrange(0, i as int).push(buffer@[i as int]));
        }
        i = i + 1;
    }
    assert(buffer@.subrange(0, buffer@.len() as int) == buffer@);
    Chunk { from: sender.duplicate(), data, to, stream_id }
}

/// Whether files with suffix `s` are images shown drawn in text.
fn is_image(s: &[char]) -> (b: bool)
    ensures
        b == is_image_suffix(s@),
{
    let b = s.len() == 3 && ((s[0] == 'p' && s[1] == 'n' && s[2] == 'g') || (s[0] == 'j' && s[1]
        == 'p' && s[2] == 'g'));
    proof {
        if s@.len() == 3 {
            assert(s@ == seq![s@[0], s@[1], s@[2]]);
        }
    }
    b
}

} // verus!
