//! What the daemon remembers of the player and the queue, and the
//! decisions it takes when either changes.
use vstd::prelude::*;

use crate::protocol::{Command, SessionError};
use crate::text::{last_value, lookup_last, pairs_view, same_text, Pair};

verus! {

/// Whether every character of `s` is an ASCII decimal digit.
pub open spec fn all_digits(s: Seq<char>) -> bool {
    forall|i: int| 0 <= i < s.len() ==> 48 <= #[trigger] (s[i] as u32) <= 57
}

/// The number that the decimal digits `s` spell.
pub open spec fn digits_value(s: Seq<char>) -> int
    decreases s.len(),
{
    if s.len() == 0 {
        0
    } else {
        digits_value(s.drop_last()) * 10 + (s.last() as u32 - 48)
    }
}

/// What `str::parse::<u32>` reads: an optional `+`, then one or more
/// decimal digits whose value fits in 32 bits.
pub open spec fn decimal_u32(s: Seq<char>) -> Option<u32> {
    let d = if s.len() > 0 && s[0] == '+' { s.drop_first() } else { s };
    if d.len() > 0 && all_digits(d) && digits_value(d) <= u32::MAX {
        Some(digits_value(d) as u32)
    } else {
        None
    }
}

/// Relies on `str::parse::<u32>` (`u32::from_str_radix` in base 10): an
/// optional `+` followed by digits only, with overflow an error.
#[verifier::external_body]
fn parse_u32(s: &str) -> (r: Result<u32, std::num::ParseIntError>)
    ensures
        r is Ok <==> decimal_u32(s@) is Some,
        r is Ok ==> r->Ok_0 == decimal_u32(s@)->Some_0,
{
    s.parse::<u32>()
}

/// The fields of a status response that playback decisions read.
#[derive(Debug)]
pub struct Snapshot {
    pub state: String,
    pub song: String,
    pub song_id: String,
    pub next_song_id: String,
}

/// The texts of a snapshot: state, position, current id, next id.
pub type SnapshotView = (Seq<char>, Seq<char>, Seq<char>, Seq<char>);

impl View for Snapshot {
    type V = SnapshotView;

    open spec fn view(&self) -> SnapshotView {
        (self.state@, self.song@, self.song_id@, self.next_song_id@)
    }
}

/// The snapshot a status response describes; a missing field reads empty.
pub open spec fn snapshot_of(status: Seq<(Seq<char>, Seq<char>)>) -> SnapshotView {
    (
        last_value(status, "state"@),
        last_value(status, "song"@),
        last_value(status, "songid"@),
        last_value(status, "nextsongid"@),
    )
}

impl Snapshot {
    /// Reads the tracked fields out of a status response.
    pub fn from_status(status: &Vec<Pair>) -> (r: Snapshot)
        ensures
            r@ == snapshot_of(pairs_view(status@)),
    {
        Snapshot {
            state: lookup_last(status, "state"),
            song: lookup_last(status, "song"),
            song_id: lookup_last(status, "songid"),
            next_song_id: lookup_last(status, "nextsongid"),
        }
    }
}

/// The queue as `(file, queue id)` entries in the order they were listed.
pub type MirrorView = Seq<(Seq<char>, Seq<char>)>;

/// The queue id a file was last listed under, if any.
pub open spec fn mirror_lookup(m: MirrorView, file: Seq<char>) -> Option<Seq<char>>
    decreases m.len(),
{
    if m.len() == 0 {
        None
    } else if m.last().0 == file {
        Some(m.last().1)
    } else {
        mirror_lookup(m.drop_last(), file)
    }
}

/// The queue entries a listing pairs up, scanning from a state with the
/// given pending file and id; `None` where an entry is left unpaired.
pub open spec fn pair_scan(
    ps: Seq<(Seq<char>, Seq<char>)>,
    file: Option<Seq<char>>,
    id: Option<Seq<char>>,
) -> Option<MirrorView>
    decreases ps.len(),
{
    if ps.len() == 0 {
        if file is None && id is None {
            Some(Seq::empty())
        } else {
            None
        }
    } else {
        let k = ps[0].0;
        let v = ps[0].1;
        if k == "file"@ && file is Some {
            None
        } else if k == "Id"@ && id is Some {
            None
        } else {
            let f = if k == "file"@ { Some(v) } else { file };
            let d = if k == "Id"@ { Some(v) } else { id };
            if f is Some && d is Some {
                match pair_scan(ps.drop_first(), None, None) {
                    Some(rest) => Some(seq![(f->Some_0, d->Some_0)] + rest),
                    None => None,
                }
            } else {
                pair_scan(ps.drop_first(), f, d)
            }
        }
    }
}

/// The queue a listing describes, or `None` where it is unpaired.
pub open spec fn mirror_of(listing: Seq<(Seq<char>, Seq<char>)>) -> Option<MirrorView> {
    pair_scan(listing, None, None)
}

/// The text of an optional string, borrowed.
pub open spec fn opt_view_ref(o: Option<&String>) -> Option<Seq<char>> {
    match o {
        Some(s) => Some(s@),
        None => None,
    }
}

/// The text of an optional string.
pub open spec fn opt_view(o: Option<String>) -> Option<Seq<char>> {
    match o {
        Some(s) => Some(s@),
        None => None,
    }
}

/// Pairs up the `file` and `Id` entries of a queue listing.
pub fn pair_entries(listing: &Vec<Pair>) -> (r: Result<Vec<Pair>, SessionError>)
    ensures
        mirror_of(pairs_view(listing@)) is Some <==> r is Ok,
        r is Ok ==> pairs_view(r->Ok_0@) == mirror_of(pairs_view(listing@))->Some_0,
        r is Err ==> r->Err_0 is UnpairedPlaylist,
{
    let ghost all = pairs_view(listing@);
    let mut acc: Vec<Pair> = Vec::new();
    let mut file: Option<String> = None;
    let mut id: Option<String> = None;
    let mut i: usize = 0;
    proof {
        assert(all.skip(0) =~= all);
        assert forall|rest: MirrorView| pairs_view(acc@) + rest == rest by {
            assert(pairs_view(acc@) + rest =~= rest);
        }
    }
    while i < listing.len()
        invariant
            i <= listing.len(),
            all == pairs_view(listing@),
            mirror_of(all) == match pair_scan(all.skip(i as int), opt_view(file), opt_view(id)) {
                Some(rest) => Some(pairs_view(acc@) + rest),
                None => None::<MirrorView>,
            },
        decreases listing.len() - i,
    {
        let ghost tail = all.skip(i as int);
        proof {
            assert(tail.drop_first() =~= all.skip(i + 1));
            assert(tail[0] == all[i as int]);
            assert(all[i as int] == (listing@[i as int].0@, listing@[i as int].1@));
        }
        let ghost fo = opt_view(file);
        let ghost io = opt_view(id);
        let k = &listing[i].0;
        let v = &listing[i].1;
        if same_text(k, "file") {
            if file.is_some() {
                return Err(SessionError::UnpairedPlaylist);
            }
            file = Some(v.clone());
        } else if same_text(k, "Id") {
            if id.is_some() {
                return Err(SessionError::UnpairedPlaylist);
            }
            id = Some(v.clone());
        }
        proof {
            let f1 = opt_view(file);
            let d1 = opt_view(id);
            reveal_strlit("file");
            reveal_strlit("Id");
            assert(tail[0].0 == k@ && tail[0].1 == v@);
            assert(tail.drop_first() == all.skip(i + 1));
            if k@ == "file"@ {
                assert(fo is None);
                assert(f1 == Some(v@));
                assert(d1 == io);
            } else if k@ == "Id"@ {
                assert(io is None);
                assert(d1 == Some(v@));
                assert(f1 == fo);
            } else {
                assert(f1 == fo && d1 == io);
            }
            assert(pair_scan(tail, fo, io) == if f1 is Some && d1 is Some {
                match pair_scan(all.skip(i + 1), None, None) {
                    Some(rest) => Some(seq![(f1->Some_0, d1->Some_0)] + rest),
                    None => None,
                }
            } else {
                pair_scan(all.skip(i + 1), f1, d1)
            });
        }
        if file.is_some() && id.is_some() {
            let f = file.take().unwrap();
            let d = id.take().unwrap();
            let ghost before = pairs_view(acc@);
            acc.push((f, d));
            proof {
                assert(pairs_view(acc@) =~= before.push((f@, d@)));
                assert forall|rest: MirrorView|
                    before + (seq![(f@, d@)] + rest) == pairs_view(acc@) + rest by {
                    assert(before + (seq![(f@, d@)] + rest) =~= pairs_view(acc@) + rest);
                }
            }
        }
        i = i + 1;
    }
    proof {
        assert(pairs_view(acc@) + Seq::<(Seq<char>, Seq<char>)>::empty() =~= pairs_view(acc@));
    }
    if file.is_some() || id.is_some() {
        return Err(SessionError::UnpairedPlaylist);
    }
    Ok(acc)
}


/// What a status change calls for.
#[derive(Debug, Clone, Copy, PartialEq, Eq, Structural)]
pub enum PlayerStep {
    /// Nothing tracked changed: no command is owed.
    Unchanged,
    /// The state changed but nothing is playing: nothing is inserted.
    NotPlaying,
    /// Something is playing: run the selection.
    SelectNext,
}

/// What to do with one candidate drawn from the selection store.
#[derive(Debug)]
pub enum Selection {
    /// The candidate is the current track and the only one there is.
    NoAlternative,
    /// The candidate is the current track: draw another.
    Redraw,
    /// The candidate is queued elsewhere: move that entry after the current one.
    MoveExisting { id: String, position: String },
    /// The candidate is not queued: append it.
    AddNew { file: String },
}

/// The mathematical state of a [`PlayerState`].
pub struct PlayerView {
    pub snapshot: SnapshotView,
    pub playlist: MirrorView,
}

/// The last status snapshot seen and the queue as last listed.
#[derive(Debug)]
pub struct PlayerState {
    pub state: String,
    pub song: String,
    pub song_id: String,
    pub next_song_id: String,
    pub playlist: Vec<Pair>,
}

impl View for PlayerState {
    type V = PlayerView;

    open spec fn view(&self) -> PlayerView {
        PlayerView {
            snapshot: (self.state@, self.song@, self.song_id@, self.next_song_id@),
            playlist: pairs_view(self.playlist@),
        }
    }
}

/// The state and step that a status response leads to.
pub open spec fn player_transition(
    s: PlayerView,
    status: Seq<(Seq<char>, Seq<char>)>,
) -> (PlayerView, PlayerStep) {
    let snap = snapshot_of(status);
    if snap == s.snapshot {
        (s, PlayerStep::Unchanged)
    } else if snap.0 == "play"@ {
        (PlayerView { snapshot: snap, ..s }, PlayerStep::SelectNext)
    } else {
        (PlayerView { snapshot: snap, ..s }, PlayerStep::NotPlaying)
    }
}

/// Whether a selection is owed: nothing queued next, and a non-empty universe.
pub open spec fn wants_next_spec(s: PlayerView, universe_size: nat) -> bool {
    s.snapshot.3.len() == 0 && universe_size > 0
}

/// Whether `r` is what a drawn candidate leads to, in a store of
/// `universe_size` members.
pub open spec fn selection_is(s: PlayerView, candidate: Seq<char>, universe_size: nat, r: Selection) -> bool {
    match mirror_lookup(s.playlist, candidate) {
        Some(id) => {
            if id == s.snapshot.2 {
                if universe_size == 1 {
                    r is NoAlternative
                } else {
                    r is Redraw
                }
            } else {
                r is MoveExisting && r->id@ == id && r->position@ == s.snapshot.1
            }
        },
        None => r is AddNew && r->file@ == candidate,
    }
}

/// The end of the queue prefix to delete so that at most `keep` played
/// entries stay before position `position`; `None` where nothing goes.
pub open spec fn retention_cut_spec(position: u32, keep: u32) -> Option<u32> {
    if position > keep {
        Some((position - keep) as u32)
    } else {
        None
    }
}

/// The prefix delete that follows a selection, for the given retention.
pub open spec fn prune_after_spec(
    s: PlayerView,
    added: bool,
    keep_last: Option<u32>,
) -> Result<Option<u32>, ()> {
    if (added || s.snapshot.3.len() > 0) && keep_last is Some {
        match decimal_u32(s.snapshot.1) {
            Some(p) => Ok(retention_cut_spec(p, keep_last->Some_0)),
            None => Err(()),
        }
    } else {
        Ok(None)
    }
}

/// The end of the prefix to delete, given the current position and the
/// number of played entries to keep.
pub fn retention_cut(position: u32, keep: u32) -> (r: Option<u32>)
    ensures
        r == retention_cut_spec(position, keep),
{
    if position > keep {
        Some(position - keep)
    } else {
        None
    }
}

impl PlayerState {
    /// Nothing seen yet: every field empty, the queue empty.
    pub fn new() -> (r: PlayerState)
        ensures
            r@.snapshot == (Seq::<char>::empty(), Seq::<char>::empty(), Seq::<char>::empty(), Seq::<char>::empty()),
            r@.playlist.len() == 0,
    {
        PlayerState {
            state: String::new(),
            song: String::new(),
            song_id: String::new(),
            next_song_id: String::new(),
            playlist: Vec::new(),
        }
    }

    /// Takes a fresh status response: keeps the state where no tracked
    /// field changed, otherwise replaces the snapshot and says whether a
    /// track is to be selected.
    pub fn player_change(&mut self, status: &Vec<Pair>) -> (r: PlayerStep)
        ensures
            (final(self)@, r) == player_transition(old(self)@, pairs_view(status@)),
            final(self).playlist@ == old(self).playlist@,
    {
        let snap = Snapshot::from_status(status);
        if self.state == snap.state && self.song == snap.song && self.song_id == snap.song_id
            && self.next_song_id == snap.next_song_id {
            return PlayerStep::Unchanged;
        }
        self.state = snap.state;
        self.song = snap.song;
        self.song_id = snap.song_id;
        self.next_song_id = snap.next_song_id;
        if same_text(&self.state, "play") {
            PlayerStep::SelectNext
        } else {
            PlayerStep::NotPlaying
        }
    }

    /// Replaces the queue by a fresh listing. `Ok(true)` where the queue is
    /// now empty, so that a track is to be selected at once.
    pub fn playlist_change(&mut self, listing: &Vec<Pair>) -> (r: Result<bool, SessionError>)
        ensures
            r is Ok <==> mirror_of(pairs_view(listing@)) is Some,
            r is Ok ==> final(self)@ == (PlayerView {
                playlist: mirror_of(pairs_view(listing@))->Some_0,
                ..old(self)@
            }),
            r is Ok ==> r->Ok_0 == (final(self)@.playlist.len() == 0),
            r is Err ==> r->Err_0 is UnpairedPlaylist && final(self)@ == old(self)@,
    {
        match pair_entries(listing) {
            Ok(entries) => {
                self.playlist = entries;
                Ok(self.playlist.len() == 0)
            },
            Err(e) => Err(e),
        }
    }

    /// The queue id under which `file` was last listed.
    pub fn queued_id(&self, file: &String) -> (r: Option<&String>)
        ensures
            opt_view_ref(r) == mirror_lookup(self@.playlist, file@),
    {
        let mut i: usize = self.playlist.len();
        proof {
            assert(self.playlist@.subrange(0, i as int) =~= self.playlist@);
        }
        while i > 0
            invariant
                i <= self.playlist.len(),
                mirror_lookup(self@.playlist, file@)
                    == mirror_lookup(pairs_view(self.playlist@.subrange(0, i as int)), file@),
            decreases i,
        {
            proof {
                assert(pairs_view(self.playlist@.subrange(0, i as int)).drop_last()
                    =~= pairs_view(self.playlist@.subrange(0, i - 1)));
            }
            if self.playlist[i - 1].0 == *file {
                return Some(&self.playlist[i - 1].1);
            }
            i = i - 1;
        }
        None
    }

    /// Whether a track is to be selected: none is queued next and the
    /// selection store is not empty.
    pub fn wants_next(&self, universe_size: usize) -> (r: bool)
        ensures
            r == wants_next_spec(self@, universe_size as nat),
    {
        self.next_song_id.as_str().is_empty() && universe_size > 0
    }

    /// Judges one candidate drawn from a store of `universe_size` members:
    /// the current track is never chosen again; a track queued elsewhere is
    /// moved right after the current one; any other track is appended.
    pub fn maybe_add_next(&self, candidate: &String, universe_size: usize) -> (r: Selection)
        ensures
            selection_is(self@, candidate@, universe_size as nat, r),
    {
        match self.queued_id(candidate) {
            Some(id) => {
                if *id == self.song_id {
                    if universe_size == 1 {
                        Selection::NoAlternative
                    } else {
                        Selection::Redraw
                    }
                } else {
                    Selection::MoveExisting { id: id.clone(), position: self.song.clone() }
                }
            },
            None => Selection::AddNew { file: candidate.clone() },
        }
    }

    /// The prefix delete owed after a selection (`added`: it appended a
    /// track), where a retention `keep_last` is configured and a track was
    /// appended or is queued next. Fails where the current position is not
    /// a decimal number.
    pub fn prune_after(&self, added: bool, keep_last: Option<u32>) -> (r: Result<Option<Command>, SessionError>)
        ensures
            match (r, prune_after_spec(self@, added, keep_last)) {
                (Ok(None), Ok(None)) => true,
                (Ok(Some(Command::DeletePrefix { end })), Ok(Some(e))) => end == e,
                (Err(SessionError::ParseInt(_)), Err(_)) => true,
                _ => false,
            },
    {
        if added || !self.next_song_id.as_str().is_empty() {
            if let Some(keep) = keep_last {
                match parse_u32(self.song.as_str()) {
                    Ok(p) => {
                        return match retention_cut(p, keep) {
                            Some(end) => Ok(Some(Command::DeletePrefix { end })),
                            None => Ok(None),
                        };
                    },
                    Err(e) => {
                        return Err(SessionError::ParseInt(e));
                    },
                }
            }
        }
        Ok(None)
    }
}

/// Feeding the same status response twice: the second time nothing
/// changes and no command is owed.
pub proof fn lemma_player_change_idempotent(s: PlayerView, status: Seq<(Seq<char>, Seq<char>)>)
    ensures
        player_transition(player_transition(s, status).0, status)
            == (player_transition(s, status).0, PlayerStep::Unchanged),
{
}

/// Where the queue is empty, nothing is queued next and the store is not
/// empty, a selection is owed, and whatever is drawn is appended: exactly
/// one add, of the drawn file, and no move.
pub proof fn lemma_empty_queue_appends(s: PlayerView, candidate: Seq<char>, universe_size: nat)
    requires
        s.playlist.len() == 0,
        s.snapshot.3.len() == 0,
        universe_size > 0,
    ensures
        mirror_of(Seq::empty()) == Some(Seq::<(Seq<char>, Seq<char>)>::empty()),
        wants_next_spec(s, universe_size),
        forall|r: Selection| selection_is(s, candidate, universe_size, r)
            <==> (r is AddNew && r->file@ == candidate),
{
}

} // verus!
