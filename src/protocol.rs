//! The commands the daemon sends, the subsystems it listens to, and the
//! errors its decisions can raise.
use vstd::prelude::*;

use crate::text::{same_text, Pair};

verus! {

#[verifier::external_type_specification]
#[verifier::external_body]
pub struct ExParseIntError(std::num::ParseIntError);

/// A command for the server.
#[derive(Debug)]
pub enum Command {
    /// `idle database player playlist options mixer`
    Idle,
    /// `noidle`
    NoIdle,
    /// `status`
    Status,
    /// `playlistinfo`
    PlaylistInfo,
    /// `list file`
    ListFiles,
    /// `add <file>`
    Add { file: String },
    /// `moveid <id> <position>`
    MoveId { id: String, position: String },
    /// `delete 0:<end>`: every queue entry before position `end`.
    DeletePrefix { end: u32 },
    /// `repeat 0`
    RepeatOff,
    /// `setvol 100`
    VolumeFull,
    /// `crossfade 0`
    CrossfadeOff,
}

/// What the decisions of a session can fail with.
#[derive(Debug)]
pub enum SessionError {
    /// The current queue position is not a decimal integer.
    ParseInt(std::num::ParseIntError),
    /// A `file` or `Id` entry of the queue listing has no partner.
    UnpairedPlaylist,
}

/// The handler that one entry of an idle notification calls for.
#[derive(Debug, Clone, Copy, PartialEq, Eq, Structural)]
pub enum Handler {
    Database,
    Player,
    Playlist,
    Options,
}

/// The handler for one changed-subsystem name, if any.
pub open spec fn handler_of(name: Seq<char>) -> Option<Handler> {
    if name == "database"@ {
        Some(Handler::Database)
    } else if name == "player"@ {
        Some(Handler::Player)
    } else if name == "playlist"@ {
        Some(Handler::Playlist)
    } else if name == "options"@ || name == "mixer"@ {
        Some(Handler::Options)
    } else {
        None
    }
}

/// The handlers an idle notification calls for, one per recognised entry,
/// in the order of the entries.
pub open spec fn handlers_of(ps: Seq<(Seq<char>, Seq<char>)>) -> Seq<Handler>
    decreases ps.len(),
{
    if ps.len() == 0 {
        Seq::empty()
    } else {
        let rest = handlers_of(ps.drop_last());
        match handler_of(ps.last().1) {
            Some(h) => rest.push(h),
            None => rest,
        }
    }
}

/// The handlers a new session runs once, in order, to learn the server's
/// state before it starts idling.
pub fn startup_handlers() -> (r: Vec<Handler>)
    ensures
        r@ == seq![Handler::Options, Handler::Playlist, Handler::Player],
{
    let mut r: Vec<Handler> = Vec::new();
    r.push(Handler::Options);
    r.push(Handler::Playlist);
    r.push(Handler::Player);
    proof {
        assert(r@ =~= seq![Handler::Options, Handler::Playlist, Handler::Player]);
    }
    r
}

/// The handlers to run for an idle notification, in order.
pub fn dispatch(changed: &Vec<Pair>) -> (r: Vec<Handler>)
    ensures
        r@ == handlers_of(crate::text::pairs_view(changed@)),
{
    let mut r: Vec<Handler> = Vec::new();
    let mut i: usize = 0;
    while i < changed.len()
        invariant
            i <= changed.len(),
            r@ == handlers_of(crate::text::pairs_view(changed@.subrange(0, i as int))),
        decreases changed.len() - i,
    {
        proof {
            assert(crate::text::pairs_view(changed@.subrange(0, i + 1)).drop_last()
                =~= crate::text::pairs_view(changed@.subrange(0, i as int)));
        }
        let name = &changed[i].1;
        if same_text(name, "database") {
            r.push(Handler::Database);
        } else if same_text(name, "player") {
            r.push(Handler::Player);
        } else if same_text(name, "playlist") {
            r.push(Handler::Playlist);
        } else if same_text(name, "options") || same_text(name, "mixer") {
            r.push(Handler::Options);
        }
        i = i + 1;
    }
    proof {
        assert(changed@.subrange(0, changed.len() as int) =~= changed@);
    }
    r
}

} // verus!
