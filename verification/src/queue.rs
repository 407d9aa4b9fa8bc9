//! The playback queue: a user-curated FIFO list of tracks awaiting playback.
//! Tracks are appended at the tail and consumed from the head; duplicates are
//! allowed.

use vstd::prelude::*;
use crate::types::Song;

verus! {

/// An ordered sequence of pending tracks with FIFO semantics.
#[derive(Debug, Clone)]
pub struct Queue {
    songs: Vec<Song>,
}

impl View for Queue {
    type V = Seq<Song>;

    closed spec fn view(&self) -> Seq<Song> {
        self.songs@
    }
}

impl Queue {
    /// An empty queue.
    pub fn new() -> (q: Queue)
        ensures
            q@ == Seq::<Song>::empty(),
    {
        Queue { songs: Vec::new() }
    }

    /// Appends a track at the tail.
    pub fn enqueue(&mut self, song: Song)
        ensures
            final(self)@ == old(self)@.push(song),
    {
        self.songs.push(song);
    }

    /// Removes and returns the head track, or `None` if the queue is empty.
    pub fn dequeue_front(&mut self) -> (r: Option<Song>)
        ensures
            old(self)@.len() == 0 ==> r is None && final(self)@ == old(self)@,
            old(self)@.len() > 0 ==> r == Some(old(self)@[0]) && final(self)@ == old(
                self,
            )@.drop_first(),
    {
        if self.songs.len() == 0 {
            None
        } else {
            let song = self.songs.remove(0);
            assert(final(self)@ =~= old(self)@.drop_first());
            Some(song)
        }
    }

    /// Drops the head track without playing it; does nothing when empty.
    pub fn remove_front_discard(&mut self)
        ensures
            old(self)@.len() == 0 ==> final(self)@ == old(self)@,
            old(self)@.len() > 0 ==> final(self)@ == old(self)@.drop_first(),
    {
        if self.songs.len() > 0 {
            self.songs.remove(0);
            assert(final(self)@ =~= old(self)@.drop_first());
        }
    }

    /// Empties the queue.
    pub fn clear(&mut self)
        ensures
            final(self)@ == Seq::<Song>::empty(),
    {
        self.songs.clear();
        assert(final(self)@ =~= Seq::<Song>::empty());
    }

    /// How many tracks are pending.
    pub fn len(&self) -> (n: usize)
        ensures
            n == self@.len(),
    {
        self.songs.len()
    }

    /// Whether no track is pending.
    pub fn is_empty(&self) -> (r: bool)
        ensures
            r == (self@.len() == 0),
    {
        self.songs.is_empty()
    }

    /// A read-only look at the head track, if any.
    pub fn front(&self) -> (r: Option<&Song>)
        ensures
            self@.len() == 0 ==> r is None,
            self@.len() > 0 ==> r == Some(&self@[0]),
    {
        if self.songs.len() == 0 {
            None
        } else {
            Some(&self.songs[0])
        }
    }
}

/// The queue preserves FIFO order. A queue whose contents are `s` holds
/// `s.skip(k)` once `k` tracks have been dequeued (each dequeue drops the
/// first element, and dropping the first of `s.skip(k)` gives `s.skip(k + 1)`),
/// so the `k`-th dequeue returns `s[k]`: tracks come out in the order they
/// were enqueued.
pub proof fn lemma_queue_fifo(s: Seq<Song>, k: int)
    requires
        0 <= k < s.len(),
    ensures
        s.skip(k)[0] == s[k],
        s.skip(k).drop_first() == s.skip(k + 1),
{
    assert(s.skip(k)[0] == s[k]);
    assert(s.skip(k).drop_first() =~= s.skip(k + 1));
}

} // verus!
