//! The playback orchestration core: the player record (current track,
//! transport state, play queue), the transport commands that mutate it, and
//! the end-of-track reconciler that advances the queue when the engine
//! reports that the current media finished.
//!
//! Every command is specified against [`PlayerModel`], a mathematical model
//! of the player, via the [`View`] of [`AudioPlayer`]. The audio engine
//! itself is an external collaborator: commands that must reach it return the
//! track to hand to the engine (or a flag saying whether the engine call is
//! due), and the hosting shell performs the engine I/O around each command.
//! The shell is likewise expected to guard the player behind a lock of its
//! own, so that commands from concurrent callers are serialized and observers
//! only ever see a fully applied mutation.

use vstd::prelude::*;
use vstd::seq_lib::*;

use crate::models::FullTrack;

verus! {

/// Transport state of the player. `Empty` means no track is loaded.
/// `Stopped` is reachable only through an external hard stop and is never
/// entered by the commands here, but clients pattern-match on it, so it stays
/// in the enumeration.
#[derive(Clone, Copy, Debug, PartialEq, Eq, Structural)]
pub enum PlayerState {
    Paused,
    Playing,
    Empty,
    Stopped,
}

/// The mathematical model of the player: what the transport commands are
/// specified against. The queue is in playback order, front (index 0) first.
#[verifier::ext_equal]
pub ghost struct PlayerModel {
    pub currently_playing: Option<FullTrack>,
    pub state: PlayerState,
    pub queue: Seq<FullTrack>,
}

impl PlayerModel {
    /// The player at process startup: nothing loaded, nothing queued.
    pub open spec fn init() -> PlayerModel {
        PlayerModel {
            currently_playing: None,
            state: PlayerState::Empty,
            queue: Seq::empty(),
        }
    }

    /// The player's well-formedness: an `Empty` transport never has a track
    /// loaded. (The converse does not hold: `pause` and `play` act whenever
    /// the transport is not already in their target state, so a `pause`
    /// issued on an empty player leaves it `Paused` with no track.)
    pub open spec fn inv(self) -> bool {
        self.state == PlayerState::Empty ==> self.currently_playing is None
    }

    /// Effect of `load`: the track becomes current, paused; the queue is kept.
    pub open spec fn load(self, track: FullTrack) -> PlayerModel {
        PlayerModel {
            currently_playing: Some(track),
            state: PlayerState::Paused,
            ..self
        }
    }

    /// Whether a `play` command takes effect (and must reach the engine):
    /// only when the transport is neither already `Playing` nor `Empty`.
    pub open spec fn play_starts(self) -> bool {
        self.state != PlayerState::Playing && self.state != PlayerState::Empty
    }

    /// Effect of `play`: a no-op unless [`Self::play_starts`].
    pub open spec fn play(self) -> PlayerModel {
        if self.play_starts() {
            PlayerModel { state: PlayerState::Playing, ..self }
        } else {
            self
        }
    }

    /// Whether a `pause` command takes effect (and must reach the engine).
    pub open spec fn pause_engages(self) -> bool {
        self.state != PlayerState::Paused
    }

    /// Effect of `pause`: a no-op when already `Paused`.
    pub open spec fn pause(self) -> PlayerModel {
        if self.pause_engages() {
            PlayerModel { state: PlayerState::Paused, ..self }
        } else {
            self
        }
    }

    /// Effect of `clear`: no current track, `Empty` transport, empty queue.
    pub open spec fn clear(self) -> PlayerModel {
        PlayerModel {
            currently_playing: None,
            state: PlayerState::Empty,
            queue: Seq::empty(),
        }
    }

    /// Effect of `play_list`: `list[index]` becomes the playing track and the
    /// rest of the list after it replaces the whole queue.
    pub open spec fn play_list(self, list: Seq<FullTrack>, index: int) -> PlayerModel
        recommends
            0 <= index < list.len(),
    {
        PlayerModel {
            currently_playing: Some(list[index]),
            state: PlayerState::Playing,
            queue: list.subrange(index + 1, list.len() as int),
        }
    }

    /// Effect of `play_next`: the track is pushed to the queue front.
    pub open spec fn play_next(self, track: FullTrack) -> PlayerModel {
        PlayerModel { queue: seq![track] + self.queue, ..self }
    }

    /// Effect of `add_to_queue`: the track is pushed to the queue back.
    pub open spec fn add_to_queue(self, track: FullTrack) -> PlayerModel {
        PlayerModel { queue: self.queue.push(track), ..self }
    }

    /// Effect of `add_list_to_queue`: both lists are appended at the back,
    /// `fulltracks` first, each in arrival order.
    pub open spec fn add_list_to_queue(
        self,
        fulltracks: Seq<FullTrack>,
        tracks: Seq<FullTrack>,
    ) -> PlayerModel {
        PlayerModel { queue: self.queue + fulltracks + tracks, ..self }
    }

    /// Effect of `play_list_next`: every given track is pushed to the queue
    /// front one by one, so the combined list ends up reversed at the front.
    pub open spec fn play_list_next(
        self,
        fulltracks: Seq<FullTrack>,
        tracks: Seq<FullTrack>,
    ) -> PlayerModel {
        PlayerModel { queue: (fulltracks + tracks).reverse() + self.queue, ..self }
    }

    /// Effect of `next`: the queue front, if any, becomes the playing track;
    /// an empty queue leaves the player untouched.
    pub open spec fn next(self) -> PlayerModel {
        if self.queue.len() == 0 {
            self
        } else {
            PlayerModel {
                currently_playing: Some(self.queue[0]),
                state: PlayerState::Playing,
                queue: self.queue.drop_first(),
            }
        }
    }

    /// Effect of the end-of-track reconciler: like `next`, except that an
    /// empty queue clears the player instead of leaving the finished track in
    /// place.
    pub open spec fn media_end(self) -> PlayerModel {
        if self.queue.len() == 0 {
            self.clear()
        } else {
            PlayerModel {
                currently_playing: Some(self.queue[0]),
                state: PlayerState::Playing,
                queue: self.queue.drop_first(),
            }
        }
    }

    /// Effect of `change_queue_index`: move the entry at `old_index` to
    /// `new_index`, with the classic move-within-list adjustment: when the
    /// entry moves towards the back, the target index is decremented by one
    /// to account for the removal shift, and the insertion point is clamped
    /// into range. Out-of-range `old_index` is a no-op.
    pub open spec fn change_queue_index(self, old_index: int, new_index: int) -> PlayerModel
        recommends
            0 <= old_index,
            0 <= new_index,
    {
        if 0 <= old_index < self.queue.len() {
            let target = if old_index < new_index {
                new_index - 1
            } else {
                new_index
            };
            let track = self.queue[old_index];
            let rest = self.queue.remove(old_index);
            let dest = if target > rest.len() {
                rest.len() as int
            } else {
                target
            };
            PlayerModel { queue: rest.insert(dest, track), ..self }
        } else {
            self
        }
    }
}

/// The externally observable player record: the single source of truth for
/// what is playing, what is queued, and what state the transport is in. The
/// hosting shell owns one instance per process, created with
/// [`Default::default`], wraps it in its own lock, and publishes a
/// [`AudioPlayer::get_player`] snapshot after every mutation.
#[derive(Debug)]
pub struct AudioPlayer {
    pub currently_playing: Option<FullTrack>,
    pub state: PlayerState,
    pub queue: Vec<FullTrack>,
}

impl View for AudioPlayer {
    type V = PlayerModel;

    open spec fn view(&self) -> PlayerModel {
        PlayerModel {
            currently_playing: self.currently_playing,
            state: self.state,
            queue: self.queue@,
        }
    }
}

impl Default for AudioPlayer {
    /// The startup player: `Empty`, nothing queued.
    fn default() -> (r: Self)
        ensures
            r@ == PlayerModel::init(),
            r@.inv(),
    {
        let r = AudioPlayer {
            currently_playing: None,
            state: PlayerState::Empty,
            queue: Vec::new(),
        };
        proof {
            assert(r@ =~= PlayerModel::init());
        }
        r
    }
}

/// Clone a list of tracks; the copy holds the same tracks in the same order.
fn clone_tracks(v: &Vec<FullTrack>) -> (r: Vec<FullTrack>)
    ensures
        r@ == v@,
{
    let mut r: Vec<FullTrack> = Vec::new();
    let mut i: usize = 0;
    while i < v.len()
        invariant
            i <= v.len(),
            r@ == v@.subrange(0, i as int),
        decreases v.len() - i,
    {
        r.push(v[i].clone());
        i = i + 1;
        proof {
            assert(r@ =~= v@.subrange(0, i as int));
        }
    }
    proof {
        assert(r@ =~= v@);
    }
    r
}

/// Push every element of `list`, in order, to the front of `queue`, so the
/// list ends up reversed before the old queue contents.
fn enqueue_front_in_order(queue: &mut Vec<FullTrack>, list: Vec<FullTrack>)
    ensures
        final(queue)@ == list@.reverse() + old(queue)@,
{
    let mut list = list;
    let ghost orig = list@;
    let ghost q0 = queue@;
    while list.len() > 0
        invariant
            list@.len() <= orig.len(),
            list@ == orig.subrange(orig.len() - list@.len(), orig.len() as int),
            queue@ == orig.subrange(0, orig.len() - list@.len()).reverse() + q0,
        decreases list@.len(),
    {
        let ghost done: int = orig.len() - list@.len();
        let t = list.remove(0);
        queue.insert(0, t);
        proof {
            assert(list@ =~= orig.subrange(orig.len() - list@.len(), orig.len() as int));
            assert(orig.subrange(0, done + 1).reverse() =~= seq![orig[done]] + orig.subrange(
                0,
                done,
            ).reverse());
            assert(queue@ =~= orig.subrange(0, done + 1).reverse() + q0);
        }
    }
    proof {
        assert(orig.subrange(0, orig.len() as int) =~= orig);
    }
}

impl AudioPlayer {
    /// Load `track`: it becomes the current track, paused; the queue is kept.
    /// The caller is expected to hand the track's file path to the engine's
    /// own `load` alongside this command; audio does not start.
    pub fn load(&mut self, track: FullTrack)
        ensures
            final(self)@ == old(self)@.load(track),
            final(self)@.inv(),
    {
        let ghost t = track;
        self.currently_playing = Some(track);
        self.state = PlayerState::Paused;
        proof {
            assert(self@ =~= old(self)@.load(t));
        }
    }

    /// Start playback. A no-op when already `Playing`, and also when `Empty`:
    /// `play` never starts playback from a no-track state. Returns whether
    /// the command took effect, i.e. whether the caller owes the engine a
    /// `play` call; two plays in a row reach the engine at most once.
    pub fn play(&mut self) -> (engine_play: bool)
        ensures
            final(self)@ == old(self)@.play(),
            engine_play == old(self)@.play_starts(),
            old(self)@.inv() ==> final(self)@.inv(),
    {
        let starts = self.state != PlayerState::Playing && self.state != PlayerState::Empty;
        if starts {
            self.state = PlayerState::Playing;
            proof {
                assert(self@ =~= old(self)@.play());
            }
        }
        starts
    }

    /// Pause playback. A no-op when already `Paused`. Returns whether the
    /// command took effect, i.e. whether the caller owes the engine a `pause`
    /// call.
    pub fn pause(&mut self) -> (engine_pause: bool)
        ensures
            final(self)@ == old(self)@.pause(),
            engine_pause == old(self)@.pause_engages(),
            old(self)@.inv() ==> final(self)@.inv(),
    {
        let engages = self.state != PlayerState::Paused;
        if engages {
            self.state = PlayerState::Paused;
            proof {
                assert(self@ =~= old(self)@.pause());
            }
        }
        engages
    }

    /// Drop the current track, empty the queue, and mark the transport
    /// `Empty`. The caller is expected to clear the engine alongside. Calling
    /// it twice yields the same snapshot both times.
    pub fn clear(&mut self)
        ensures
            final(self)@ == old(self)@.clear(),
            final(self)@.inv(),
    {
        self.currently_playing = None;
        self.state = PlayerState::Empty;
        self.queue.clear();
        proof {
            assert(self@ =~= old(self)@.clear());
        }
    }

    /// Play `list[index]` and replace the whole queue (not append) with the
    /// rest of the list after it, in original order. Returns the track now
    /// playing, for the caller to hand to the engine (`load`, then `play`).
    pub fn play_list(&mut self, list: Vec<FullTrack>, index: usize) -> (first: FullTrack)
        requires
            index < list@.len(),
        ensures
            final(self)@ == old(self)@.play_list(list@, index as int),
            first == list@[index as int],
            final(self)@.inv(),
    {
        let ghost l = list@;
        let mut list = list;
        let track = list.remove(index);
        let first = track.clone();
        let tail = list.split_off(index);
        self.currently_playing = Some(track);
        self.state = PlayerState::Playing;
        self.queue = tail;
        proof {
            assert(self.queue@ =~= l.subrange(index + 1, l.len() as int));
            assert(self@ =~= old(self)@.play_list(l, index as int));
        }
        first
    }

    /// Push `track` to the queue front: it plays next. Repeated calls build a
    /// reverse-order stack at the front.
    pub fn play_next(&mut self, track: FullTrack)
        ensures
            final(self)@ == old(self)@.play_next(track),
            old(self)@.inv() ==> final(self)@.inv(),
    {
        let ghost t = track;
        self.queue.insert(0, track);
        proof {
            assert(self.queue@ =~= seq![t] + old(self).queue@);
            assert(self@ =~= old(self)@.play_next(t));
        }
    }

    /// Push `track` to the queue back, preserving arrival order.
    pub fn add_to_queue(&mut self, track: FullTrack)
        ensures
            final(self)@ == old(self)@.add_to_queue(track),
            old(self)@.inv() ==> final(self)@.inv(),
    {
        let ghost t = track;
        self.queue.push(track);
        proof {
            assert(self@ =~= old(self)@.add_to_queue(t));
        }
    }

    /// Append both lists at the queue back, `fulltracks` first, each in
    /// arrival order. The second list is expected to come from the catalog:
    /// the shell resolves bare track references to full tracks (silently
    /// skipping the unresolvable) before handing them in.
    pub fn add_list_to_queue(
        &mut self,
        fulltracks: Option<Vec<FullTrack>>,
        tracks: Option<Vec<FullTrack>>,
    )
        ensures
            final(self)@ == old(self)@.add_list_to_queue(
                opt_track_seq(fulltracks),
                opt_track_seq(tracks),
            ),
            old(self)@.inv() ==> final(self)@.inv(),
    {
        let ghost a = opt_track_seq(fulltracks);
        let ghost b = opt_track_seq(tracks);
        if let Some(mut v) = fulltracks {
            self.queue.append(&mut v);
        }
        if let Some(mut v) = tracks {
            self.queue.append(&mut v);
        }
        proof {
            assert(self.queue@ =~= old(self).queue@ + a + b);
            assert(self@ =~= old(self)@.add_list_to_queue(a, b));
        }
    }

    /// Push every given track to the queue front one by one, `fulltracks`
    /// first, so the combined list ends up reversed at the front. As with
    /// [`Self::add_list_to_queue`], the second list is the catalog-resolved
    /// one.
    pub fn play_list_next(
        &mut self,
        fulltracks: Option<Vec<FullTrack>>,
        tracks: Option<Vec<FullTrack>>,
    )
        ensures
            final(self)@ == old(self)@.play_list_next(
                opt_track_seq(fulltracks),
                opt_track_seq(tracks),
            ),
            old(self)@.inv() ==> final(self)@.inv(),
    {
        let ghost a = opt_track_seq(fulltracks);
        let ghost b = opt_track_seq(tracks);
        let ghost q0 = self.queue@;
        if let Some(v) = fulltracks {
            enqueue_front_in_order(&mut self.queue, v);
        }
        if let Some(v) = tracks {
            enqueue_front_in_order(&mut self.queue, v);
        }
        proof {
            assert(self.queue@ =~= (a + b).reverse() + q0);
            assert(self@ =~= old(self)@.play_list_next(a, b));
        }
    }

    /// Pop the queue front; if a track was popped it becomes the playing
    /// track and is returned for the caller to hand to the engine (`load`,
    /// then `play`). On an empty queue nothing changes: the current track,
    /// the transport state and the queue are all left as they were.
    pub fn next(&mut self) -> (popped: Option<FullTrack>)
        ensures
            final(self)@ == old(self)@.next(),
            popped is Some <==> old(self)@.queue.len() > 0,
            popped matches Some(t) ==> t == old(self)@.queue[0],
            old(self)@.queue.len() == 0 ==> final(self)@ == old(self)@,
            old(self)@.inv() ==> final(self)@.inv(),
    {
        if self.queue.len() == 0 {
            return None;
        }
        let track = self.queue.remove(0);
        let popped = track.clone();
        self.currently_playing = Some(track);
        self.state = PlayerState::Playing;
        proof {
            assert(self.queue@ =~= old(self).queue@.drop_first());
            assert(self@ =~= old(self)@.next());
        }
        Some(popped)
    }

    /// The end-of-track reconciler, to be invoked whenever the engine signals
    /// that the current media finished. Pops the queue front: if a track was
    /// popped it becomes the playing track and is returned for the caller to
    /// hand to the engine (`load`, then `play`); if the queue was empty the
    /// player is cleared instead, and the caller should clear the engine.
    pub fn media_end(&mut self) -> (popped: Option<FullTrack>)
        ensures
            final(self)@ == old(self)@.media_end(),
            popped is Some <==> old(self)@.queue.len() > 0,
            popped matches Some(t) ==> t == old(self)@.queue[0],
            final(self)@.inv(),
    {
        if self.queue.len() == 0 {
            self.clear();
            return None;
        }
        let track = self.queue.remove(0);
        let popped = track.clone();
        self.currently_playing = Some(track);
        self.state = PlayerState::Playing;
        proof {
            assert(self.queue@ =~= old(self).queue@.drop_first());
            assert(self@ =~= old(self)@.media_end());
        }
        Some(popped)
    }

    /// Move the queue entry at `old_index` to `new_index` (a move within the
    /// list, not a swap). When the entry moves towards the back the target is
    /// decremented by one to account for the removal shift; the insertion
    /// point is clamped into range; an out-of-range `old_index` is a no-op.
    pub fn change_queue_index(&mut self, old_index: usize, new_index: usize)
        ensures
            final(self)@ == old(self)@.change_queue_index(old_index as int, new_index as int),
            old(self)@.inv() ==> final(self)@.inv(),
    {
        if old_index >= self.queue.len() {
            return;
        }
        let target: usize = if old_index < new_index {
            new_index - 1
        } else {
            new_index
        };
        let track = self.queue.remove(old_index);
        let dest: usize = if target > self.queue.len() {
            self.queue.len()
        } else {
            target
        };
        self.queue.insert(dest, track);
        proof {
            assert(self@ =~= old(self)@.change_queue_index(old_index as int, new_index as int));
        }
    }

    /// Play a catalog-resolved list of tracks: delegates to
    /// [`Self::play_list`] when the resolution yielded anything, and leaves
    /// the player untouched when it yielded nothing. The shell resolves bare
    /// track references through the catalog (silently skipping the
    /// unresolvable) before handing the list in, so `index` is against the
    /// resolved list.
    pub fn play_tracks(&mut self, full_tracks: Vec<FullTrack>, index: usize) -> (first: Option<
        FullTrack,
    >)
        requires
            full_tracks@.len() > 0 ==> index < full_tracks@.len(),
        ensures
            old(self)@.inv() ==> final(self)@.inv(),
            full_tracks@.len() == 0 ==> final(self)@ == old(self)@ && first is None,
            full_tracks@.len() > 0 ==> final(self)@ == old(self)@.play_list(
                full_tracks@,
                index as int,
            ) && first == Some(full_tracks@[index as int]),
    {
        if full_tracks.len() == 0 {
            return None;
        }
        Some(self.play_list(full_tracks, index))
    }

    /// A point-in-time copy of the whole player record, for observers.
    pub fn get_player(&self) -> (snapshot: AudioPlayer)
        ensures
            snapshot@ == self@,
    {
        let snapshot = AudioPlayer {
            currently_playing: match &self.currently_playing {
                Some(t) => Some(t.clone()),
                None => None,
            },
            state: self.state,
            queue: clone_tracks(&self.queue),
        };
        proof {
            assert(snapshot@ =~= self@);
        }
        snapshot
    }
}

/// The tracks carried by an optional list: its contents, or nothing.
pub open spec fn opt_track_seq(o: Option<Vec<FullTrack>>) -> Seq<FullTrack> {
    match o {
        Some(v) => v@,
        None => Seq::empty(),
    }
}

/// Queueing is first-in first-out: `add_to_queue(a)` then `add_to_queue(b)`
/// appends `[a, b]` at the queue back, in arrival order.
pub proof fn lemma_add_to_queue_fifo(m: PlayerModel, a: FullTrack, b: FullTrack)
    ensures
        m.add_to_queue(a).add_to_queue(b).queue == m.queue + seq![a, b],
        m.add_to_queue(a).add_to_queue(b).currently_playing == m.currently_playing,
        m.add_to_queue(a).add_to_queue(b).state == m.state,
{
    assert(m.add_to_queue(a).add_to_queue(b).queue =~= m.queue + seq![a, b]);
}

/// `play_next` is last-in first-out at the queue front: `play_next(a)` then
/// `play_next(b)` leaves the queue starting `[b, a]`.
pub proof fn lemma_play_next_lifo(m: PlayerModel, a: FullTrack, b: FullTrack)
    ensures
        m.play_next(a).play_next(b).queue == seq![b, a] + m.queue,
        m.play_next(a).play_next(b).currently_playing == m.currently_playing,
        m.play_next(a).play_next(b).state == m.state,
{
    assert(m.play_next(a).play_next(b).queue =~= seq![b, a] + m.queue);
}

/// `play` is idempotent towards the engine: immediately after any `play`,
/// a second `play` neither takes effect (so the engine is reached at most
/// once by the pair) nor changes the player.
pub proof fn lemma_play_idempotent(m: PlayerModel)
    ensures
        !m.play().play_starts(),
        m.play().play() == m.play(),
{
}

/// `clear` is idempotent: clearing twice yields the same snapshot as once.
pub proof fn lemma_clear_idempotent(m: PlayerModel)
    ensures
        m.clear().clear() == m.clear(),
{
}

} // verus!
