//! Playback state and the sequencer that decides which playlist position
//! plays next or previous under shuffle and repeat.

use rand::seq::SliceRandom;
use std::collections::VecDeque;
use vstd::prelude::*;

verus! {

/// What happens when the end of a song or of the playlist is reached.
#[derive(Debug, Clone, Copy, PartialEq, Eq, Structural)]
pub enum RepeatMode {
    /// Play through the playlist once.
    Off,
    /// Repeat the current song.
    Single,
    /// Repeat the entire playlist.
    Playlist,
}

impl Default for RepeatMode {
    fn default() -> (mode: Self)
        ensures
            mode == RepeatMode::Off,
    {
        RepeatMode::Off
    }
}

/// The positions `0, 1, .., n - 1` in playlist order.
pub open spec fn positions(n: nat) -> Seq<usize> {
    Seq::new(n, |i: int| i as usize)
}

/// `queue` is one pass over a playlist of `n` songs: every position below
/// `n` exactly once, in some order.
pub open spec fn is_pass(queue: Seq<usize>, n: nat) -> bool {
    &&& queue.len() == n
    &&& queue.no_duplicates()
    &&& forall|p: usize| queue.contains(p) <==> p < n
}

/// `queue` is one pass over a playlist of `n` songs from which position
/// `skipped` was left out: every other position below `n` exactly once.
pub open spec fn is_pass_without(queue: Seq<usize>, n: nat, skipped: usize) -> bool {
    &&& queue.len() == if skipped < n { n - 1 } else { n as int }
    &&& queue.no_duplicates()
    &&& forall|p: usize| queue.contains(p) <==> (p < n && p != skipped)
}

/// What the sequencer tracks between songs.
#[derive(Debug, PartialEq)]
pub struct PlaybackState {
    pub shuffle: bool,
    pub repeat_mode: RepeatMode,
    pub current_song_index: usize,
    pub is_playing: bool,
    pub is_paused: bool,
    /// Positions still to play in the running shuffle pass, next one first.
    pub shuffle_queue: VecDeque<usize>,
    /// The playlist order as it was when shuffle was switched on.
    pub original_order: Vec<usize>,
}

impl Default for PlaybackState {
    fn default() -> (state: Self)
        ensures
            state.is_initial(),
    {
        PlaybackState {
            shuffle: false,
            repeat_mode: RepeatMode::Off,
            current_song_index: 0,
            is_playing: false,
            is_paused: false,
            shuffle_queue: VecDeque::new(),
            original_order: Vec::new(),
        }
    }
}

/// `rand`'s `SliceRandom::shuffle` with the thread-local generator of
/// `rand::rng`: the items are rearranged in place, so the vector afterwards
/// holds the same items as before, each as often as before. Which
/// arrangement comes out is not stated.
#[verifier::external_body]
fn shuffle_in_place(items: &mut Vec<usize>)
    ensures
        final(items)@.to_multiset() == old(items)@.to_multiset(),
{
    items.shuffle(&mut rand::rng());
}

/// Any rearrangement of `positions(n)` is a pass over `n` songs.
proof fn lemma_rearranged_positions_form_pass(queue: Seq<usize>, n: nat)
    requires
        queue.to_multiset() == positions(n).to_multiset(),
        n <= usize::MAX,
    ensures
        is_pass(queue, n),
{
    let base = positions(n);
    queue.to_multiset_ensures();
    base.to_multiset_ensures();
    assert(base.no_duplicates());
    base.lemma_multiset_has_no_duplicates();
    queue.lemma_multiset_has_no_duplicates_conv();
    assert forall|p: usize| queue.contains(p) <==> p < n by {
        assert(queue.contains(p) <==> queue.to_multiset().count(p) > 0);
        assert(base.contains(p) <==> base.to_multiset().count(p) > 0);
        if p < n {
            assert(base[p as int] == p);
            assert(base.contains(p));
        }
        if base.contains(p) {
            let i = choose|i: int| 0 <= i < base.len() && base[i] == p;
            assert(p < n);
        }
    }
}

fn ordered_positions(n: usize) -> (order: Vec<usize>)
    ensures
        order@ == positions(n as nat),
{
    let mut order: Vec<usize> = Vec::new();
    let mut i: usize = 0;
    while i < n
        invariant
            i <= n,
            order@ == positions(i as nat),
        decreases n - i,
    {
        order.push(i);
        i += 1;
        assert(order@ =~= positions(i as nat));
    }
    order
}

fn queue_of(pass: &Vec<usize>) -> (queue: VecDeque<usize>)
    ensures
        queue@ == pass@,
{
    let mut queue: VecDeque<usize> = VecDeque::new();
    let mut i: usize = 0;
    while i < pass.len()
        invariant
            i <= pass.len(),
            queue@ == pass@.take(i as int),
        decreases pass.len() - i,
    {
        queue.push_back(pass[i]);
        i += 1;
        assert(queue@ =~= pass@.take(i as int));
    }
    assert(pass@.take(pass.len() as int) =~= pass@);
    queue
}

fn queue_without(pass: &Vec<usize>, skipped: usize) -> (queue: VecDeque<usize>)
    requires
        is_pass(pass@, pass@.len()),
    ensures
        is_pass_without(queue@, pass@.len(), skipped),
{
    let mut queue: VecDeque<usize> = VecDeque::new();
    let mut left_out: usize = 0;
    let mut i: usize = 0;
    while i < pass.len()
        invariant
            i <= pass.len(),
            is_pass(pass@, pass@.len()),
            queue@.len() + left_out == i,
            left_out <= 1,
            left_out == 1 <==> exists|m: int| 0 <= m < i && pass@[m] == skipped,
            queue@.no_duplicates(),
            forall|j: int|
                0 <= j < queue@.len() ==> queue@[j] != skipped && exists|m: int|
                    0 <= m < i && pass@[m] == #[trigger] queue@[j],
            forall|m: int|
                0 <= m < i && pass@[m] != skipped ==> queue@.contains(#[trigger] pass@[m]),
        decreases pass.len() - i,
    {
        let p = pass[i];
        let ghost before = queue@;
        if p == skipped {
            assert(left_out == 0) by {
                if left_out == 1 {
                    let m = choose|m: int| 0 <= m < i && pass@[m] == skipped;
                    assert(pass@[m] == pass@[i as int]);
                }
            }
            left_out = 1;
        } else {
            queue.push_back(p);
            assert forall|a: int, b: int|
                0 <= a < queue@.len() && 0 <= b < queue@.len() && a != b implies queue@[a]
                != queue@[b] by {
                if a == before.len() {
                    let m = choose|m: int| 0 <= m < i && pass@[m] == before[b];
                    assert(pass@[m] != pass@[i as int]);
                } else if b == before.len() {
                    let m = choose|m: int| 0 <= m < i && pass@[m] == before[a];
                    assert(pass@[m] != pass@[i as int]);
                }
            }
            assert forall|m: int| 0 <= m < i + 1 && pass@[m] != skipped implies queue@.contains(
                #[trigger] pass@[m],
            ) by {
                if m == i {
                    assert(queue@[before.len() as int] == p);
                } else {
                    let j = choose|j: int| 0 <= j < before.len() && before[j] == pass@[m];
                    assert(queue@[j] == pass@[m]);
                }
            }
            assert(left_out == 1 <==> exists|m: int| 0 <= m < i + 1 && pass@[m] == skipped) by {
                if exists|m: int| 0 <= m < i + 1 && pass@[m] == skipped {
                    let m = choose|m: int| 0 <= m < i + 1 && pass@[m] == skipped;
                    assert(m < i);
                }
            }
        }
        i += 1;
    }
    proof {
        let n = pass@.len();
        assert forall|p: usize| queue@.contains(p) <==> (p < n && p != skipped) by {
            if queue@.contains(p) {
                let j = choose|j: int| 0 <= j < queue@.len() && queue@[j] == p;
                let m = choose|m: int| 0 <= m < i && pass@[m] == queue@[j];
                assert(pass@.contains(p));
            }
            if p < n && p != skipped {
                assert(pass@.contains(p));
                let m = choose|m: int| 0 <= m < pass@.len() && pass@[m] == p;
                assert(queue@.contains(pass@[m]));
            }
        }
        if skipped < n {
            assert(pass@.contains(skipped));
            let m = choose|m: int| 0 <= m < pass@.len() && pass@[m] == skipped;
            assert(left_out == 1);
        } else {
            if left_out == 1 {
                let m = choose|m: int| 0 <= m < i && pass@[m] == skipped;
                assert(pass@.contains(skipped));
            }
        }
    }
    queue
}

impl PlaybackState {
    /// The state a player starts in: nothing playing, shuffle off, no
    /// repeat, first position, no shuffle pass.
    pub open spec fn is_initial(self) -> bool {
        &&& !self.shuffle
        &&& self.repeat_mode == RepeatMode::Off
        &&& self.current_song_index == 0
        &&& !self.is_playing
        &&& !self.is_paused
        &&& self.shuffle_queue@.len() == 0
        &&& self.original_order@.len() == 0
    }

    /// The two states agree on everything but the shuffle pass and the
    /// remembered order.
    pub open spec fn same_controls(self, other: Self) -> bool {
        &&& self.shuffle == other.shuffle
        &&& self.repeat_mode == other.repeat_mode
        &&& self.current_song_index == other.current_song_index
        &&& self.is_playing == other.is_playing
        &&& self.is_paused == other.is_paused
    }

    /// `self` is `before` after a shuffle pass was started for a playlist of
    /// `n` songs: the playlist order is remembered and the queue holds every
    /// position but the current one exactly once. For an empty playlist both
    /// are empty, whatever they held before.
    pub open spec fn shuffle_enabled_from(self, before: Self, n: usize) -> bool {
        &&& self.same_controls(before)
        &&& self.original_order@ == positions(n as nat)
        &&& is_pass_without(self.shuffle_queue@, n as nat, before.current_song_index)
    }

    /// `self` and `next` are `before` and the answer after the sequencer was
    /// asked for the position that follows, in a playlist of `n` songs.
    pub open spec fn advanced_from(self, before: Self, n: usize, next: Option<usize>) -> bool {
        if n == 0 {
            next is None && self == before
        } else if before.repeat_mode == RepeatMode::Single {
            next == Some(before.current_song_index) && self == before
        } else if before.shuffle {
            if before.shuffle_queue@.len() > 0 {
                &&& next == Some(before.shuffle_queue@[0])
                &&& self.same_controls(before)
                &&& self.shuffle_queue@ == before.shuffle_queue@.skip(1)
                &&& self.original_order == before.original_order
            } else if before.repeat_mode == RepeatMode::Playlist {
                &&& next is Some
                &&& self.same_controls(before)
                &&& is_pass(seq![next->0] + self.shuffle_queue@, n as nat)
                &&& self.original_order@ == positions(n as nat)
            } else {
                next is None && self == before
            }
        } else {
            &&& self == before
            &&& next == if before.repeat_mode == RepeatMode::Off && before.current_song_index
                == n - 1 {
                None
            } else {
                Some(((before.current_song_index + 1) % (n as int)) as usize)
            }
        }
    }

    /// The position before the current one in a playlist of `n` songs,
    /// wrapping from the first to the last; the current one under single
    /// repeat; none in an empty playlist.
    pub open spec fn previous_position(self, n: usize) -> Option<usize> {
        if n == 0 {
            None
        } else if self.repeat_mode == RepeatMode::Single {
            Some(self.current_song_index)
        } else if self.current_song_index == 0 {
            Some((n - 1) as usize)
        } else {
            Some((self.current_song_index - 1) as usize)
        }
    }

    /// The state with nothing playing.
    pub open spec fn halted(self) -> Self {
        PlaybackState { is_playing: false, is_paused: false, ..self }
    }

    /// A fresh playback state.
    pub fn new() -> (state: Self)
        ensures
            state.is_initial(),
    {
        Self::default()
    }

    /// Marks playback as running.
    pub fn play(&mut self)
        ensures
            *final(self) == (PlaybackState { is_playing: true, is_paused: false, ..*old(self) }),
    {
        self.is_playing = true;
        self.is_paused = false;
    }

    /// Marks playback as paused.
    pub fn pause(&mut self)
        ensures
            *final(self) == (PlaybackState { is_playing: false, is_paused: true, ..*old(self) }),
    {
        self.is_playing = false;
        self.is_paused = true;
    }

    /// Marks playback as stopped.
    pub fn stop(&mut self)
        ensures
            *final(self) == (PlaybackState { is_playing: false, is_paused: false, ..*old(self) }),
    {
        self.is_playing = false;
        self.is_paused = false;
    }

    /// Steps the repeat mode: none, single, playlist, none again.
    pub fn cycle_repeat_mode(&mut self)
        ensures
            *final(self) == (PlaybackState {
                repeat_mode: match old(self).repeat_mode {
                    RepeatMode::Off => RepeatMode::Single,
                    RepeatMode::Single => RepeatMode::Playlist,
                    RepeatMode::Playlist => RepeatMode::Off,
                },
                ..*old(self)
            }),
    {
        self.repeat_mode = match self.repeat_mode {
            RepeatMode::Off => RepeatMode::Single,
            RepeatMode::Single => RepeatMode::Playlist,
            RepeatMode::Playlist => RepeatMode::Off,
        };
    }

    /// Flips shuffle. Switching it on starts a shuffle pass that leaves the
    /// current position out; switching it off drops the pass and the
    /// remembered order.
    pub fn toggle_shuffle(&mut self, playlist_size: usize)
        ensures
            final(self).shuffle == !old(self).shuffle,
            final(self).shuffle ==> final(self).shuffle_enabled_from(
                PlaybackState { shuffle: true, ..*old(self) },
                playlist_size,
            ),
            !final(self).shuffle ==> final(self).same_controls(
                PlaybackState { shuffle: false, ..*old(self) },
            ) && final(self).shuffle_queue@.len() == 0 && final(self).original_order@.len() == 0,
    {
        self.shuffle = !self.shuffle;
        if self.shuffle {
            self.enable_shuffle(playlist_size);
        } else {
            self.disable_shuffle();
        }
    }

    /// Starts a shuffle pass over a playlist of `playlist_size` songs: the
    /// queue becomes a random arrangement of all positions but the current
    /// one. For an empty playlist that leaves the queue and the remembered
    /// order empty: nothing of an earlier playlist stays.
    pub fn enable_shuffle(&mut self, playlist_size: usize)
        ensures
            final(self).shuffle_enabled_from(*old(self), playlist_size),
            playlist_size == 0 ==> final(self).shuffle_queue@.len() == 0,
            playlist_size == 0 ==> final(self).original_order@.len() == 0,
    {
        let order = ordered_positions(playlist_size);
        let mut pass = ordered_positions(playlist_size);
        shuffle_in_place(&mut pass);
        proof {
            lemma_rearranged_positions_form_pass(pass@, playlist_size as nat);
        }
        let queue = queue_without(&pass, self.current_song_index);
        self.original_order = order;
        self.shuffle_queue = queue;
    }

    /// Drops the shuffle pass and the remembered order.
    pub fn disable_shuffle(&mut self)
        ensures
            final(self).same_controls(*old(self)),
            final(self).shuffle_queue@.len() == 0,
            final(self).original_order@.len() == 0,
    {
        self.shuffle_queue.clear();
        self.original_order.clear();
    }

    /// The position that plays after the current one, or `None` where
    /// playback ends. The current position itself is left as it is: the
    /// caller commits the answer once the song has started.
    pub fn next_song_index(&mut self, playlist_size: usize) -> (next: Option<usize>)
        ensures
            final(self).advanced_from(*old(self), playlist_size, next),
            playlist_size == 0 ==> next is None,
            playlist_size > 0 && old(self).repeat_mode == RepeatMode::Single ==> next == Some(
                old(self).current_song_index,
            ),
            old(self).repeat_mode == RepeatMode::Off && !old(self).shuffle && old(
                self,
            ).current_song_index == playlist_size - 1 ==> next is None,
    {
        if playlist_size == 0 {
            return None;
        }
        match self.repeat_mode {
            RepeatMode::Single => Some(self.current_song_index),
            RepeatMode::Off | RepeatMode::Playlist => {
                if self.shuffle {
                    if self.shuffle_queue.len() > 0 {
                        self.shuffle_queue.pop_front()
                    } else if self.repeat_mode == RepeatMode::Playlist {
                        let order = ordered_positions(playlist_size);
                        let mut pass = ordered_positions(playlist_size);
                        shuffle_in_place(&mut pass);
                        proof {
                            lemma_rearranged_positions_form_pass(pass@, playlist_size as nat);
                        }
                        let mut queue = queue_of(&pass);
                        let first = queue.pop_front();
                        assert(seq![pass@[0]] + pass@.skip(1) =~= pass@);
                        self.original_order = order;
                        self.shuffle_queue = queue;
                        first
                    } else {
                        None
                    }
                } else {
                    let last = playlist_size - 1;
                    if self.repeat_mode == RepeatMode::Off && self.current_song_index == last {
                        None
                    } else {
                        let here = self.current_song_index % playlist_size;
                        let next = if here == last {
                            0
                        } else {
                            here + 1
                        };
                        assert(next == (self.current_song_index + 1) % (playlist_size as int))
                            by (nonlinear_arith)
                            requires
                                playlist_size > 0,
                                here == self.current_song_index % playlist_size,
                                last == playlist_size - 1,
                                next == if here == last {
                                    0
                                } else {
                                    here + 1
                                },
                        ;
                        Some(next)
                    }
                }
            },
        }
    }

    /// The position that plays before the current one; shuffle has no say
    /// in it.
    pub fn previous_song_index(&mut self, playlist_size: usize) -> (previous: Option<usize>)
        ensures
            *final(self) == *old(self),
            previous == old(self).previous_position(playlist_size),
            playlist_size == 0 ==> previous is None,
    {
        if playlist_size == 0 {
            return None;
        }
        match self.repeat_mode {
            RepeatMode::Single => Some(self.current_song_index),
            RepeatMode::Off | RepeatMode::Playlist => {
                if self.current_song_index == 0 {
                    Some(playlist_size - 1)
                } else {
                    Some(self.current_song_index - 1)
                }
            },
        }
    }

    /// Commits `index` as the current position. Where shuffle is on and its
    /// pass has run out, a new pass is started that leaves `index` out.
    pub fn set_current_song_index(&mut self, index: usize, playlist_size: usize)
        ensures
            final(self).current_song_index == index,
            if old(self).shuffle && old(self).shuffle_queue@.len() == 0 && playlist_size > 0 {
                final(self).shuffle_enabled_from(
                    PlaybackState { current_song_index: index, ..*old(self) },
                    playlist_size,
                )
            } else {
                *final(self) == (PlaybackState { current_song_index: index, ..*old(self) })
            },
    {
        self.current_song_index = index;
        if self.shuffle && self.shuffle_queue.len() == 0 && playlist_size > 0 {
            self.enable_shuffle(playlist_size);
        }
    }
}

proof fn lemma_pass_is_played_in_order(
    states: Seq<PlaybackState>,
    answers: Seq<Option<usize>>,
    n: usize,
    k: nat,
)
    requires
        n > 0,
        states.len() == n + 1,
        answers.len() == n,
        states[0].shuffle,
        states[0].repeat_mode == RepeatMode::Playlist,
        states[0].shuffle_queue@.len() == 0,
        forall|i: int|
            0 <= i < n ==> states[i + 1].advanced_from(states[i], n, #[trigger] answers[i]),
        1 <= k <= n,
    ensures
        states[k as int].same_controls(states[0]),
        answers[0] is Some,
        is_pass(seq![answers[0]->0] + states[1].shuffle_queue@, n as nat),
        states[k as int].shuffle_queue@ == (seq![answers[0]->0] + states[1].shuffle_queue@).skip(
            k as int,
        ),
        forall|j: int|
            0 <= j < k ==> answers[j] == Some(
                (seq![answers[0]->0] + states[1].shuffle_queue@)[j],
            ),
    decreases k,
{
    let pass = seq![answers[0]->0] + states[1].shuffle_queue@;
    assert(states[1].advanced_from(states[0], n, answers[0]));
    if k == 1 {
        assert(states[1].shuffle_queue@ =~= pass.skip(1));
    } else {
        lemma_pass_is_played_in_order(states, answers, n, (k - 1) as nat);
        let i = (k - 1) as int;
        assert(states[i + 1].advanced_from(states[i], n, answers[i]));
        assert(states[i].shuffle_queue@.len() == n - i);
        assert(pass.skip(i)[0] == pass[i]);
        assert(pass.skip(i).skip(1) =~= pass.skip(k as int));
    }
}

/// A shuffle pass is exhaustive and fair: from a state with shuffle on,
/// playlist repeat and a used-up queue, `n` questions in a row for the next
/// position of a playlist of `n > 0` songs are all answered, the answers name
/// every position below `n` exactly once, and the pass is used up again
/// afterwards. `states[i]` is the state before question `i`, `answers[i]`
/// what it returned.
pub proof fn lemma_shuffle_pass_visits_each_position_once(
    states: Seq<PlaybackState>,
    answers: Seq<Option<usize>>,
    n: usize,
)
    requires
        n > 0,
        states.len() == n + 1,
        answers.len() == n,
        states[0].shuffle,
        states[0].repeat_mode == RepeatMode::Playlist,
        states[0].shuffle_queue@.len() == 0,
        forall|i: int|
            0 <= i < n ==> states[i + 1].advanced_from(states[i], n, #[trigger] answers[i]),
    ensures
        forall|i: int| 0 <= i < n ==> (#[trigger] answers[i]) is Some,
        is_pass(Seq::new(n as nat, |i: int| answers[i]->0), n as nat),
        states[n as int].shuffle_queue@.len() == 0,
{
    lemma_pass_is_played_in_order(states, answers, n, n as nat);
    let pass = seq![answers[0]->0] + states[1].shuffle_queue@;
    assert forall|i: int| 0 <= i < n implies (#[trigger] answers[i]) == Some(pass[i]) by {}
    assert(Seq::new(n as nat, |i: int| answers[i]->0) =~= pass);
}

/// Switching shuffle on keeps the current song from being picked next: once
/// shuffle was toggled on at current position `k`, the next question is not
/// answered with `k`. Left out are single repeat, which always answers `k`,
/// and a one-song playlist under playlist repeat, whose new pass can only
/// start with its one song.
pub proof fn lemma_toggle_keeps_current_from_next(
    before: PlaybackState,
    toggled: PlaybackState,
    after: PlaybackState,
    n: usize,
    next: Option<usize>,
)
    requires
        toggled.shuffle,
        toggled.shuffle_enabled_from(PlaybackState { shuffle: true, ..before }, n),
        after.advanced_from(toggled, n, next),
        before.repeat_mode != RepeatMode::Single,
        !(n == 1 && before.current_song_index == 0 && before.repeat_mode
            == RepeatMode::Playlist),
    ensures
        next != Some(before.current_song_index),
{
    if n > 0 {
        let queue = toggled.shuffle_queue@;
        if queue.len() > 0 {
            assert(queue.contains(queue[0]));
        }
    }
}

/// A pass that is started because the queue ran out under playlist repeat
/// leaves no position out, the current one included: it is either the
/// answer or still waiting in the queue.
pub proof fn lemma_new_pass_holds_current(
    before: PlaybackState,
    after: PlaybackState,
    n: usize,
    next: Option<usize>,
)
    requires
        before.shuffle,
        before.repeat_mode == RepeatMode::Playlist,
        before.shuffle_queue@.len() == 0,
        before.current_song_index < n,
        after.advanced_from(before, n, next),
    ensures
        next == Some(before.current_song_index) || after.shuffle_queue@.contains(
            before.current_song_index,
        ),
{
    let pass = seq![next->0] + after.shuffle_queue@;
    let k = before.current_song_index;
    assert(pass.contains(k));
    let i = choose|i: int| 0 <= i < pass.len() && pass[i] == k;
    if i > 0 {
        assert(after.shuffle_queue@[i - 1] == k);
    }
}

impl Clone for PlaybackState {
    fn clone(&self) -> (copy: Self)
        ensures
            copy.same_controls(*self),
            copy.shuffle_queue@ == self.shuffle_queue@,
            copy.original_order@ == self.original_order@,
    {
        PlaybackState {
            shuffle: self.shuffle,
            repeat_mode: self.repeat_mode,
            current_song_index: self.current_song_index,
            is_playing: self.is_playing,
            is_paused: self.is_paused,
            shuffle_queue: self.shuffle_queue.clone(),
            original_order: self.original_order.clone(),
        }
    }
}

} // verus!
