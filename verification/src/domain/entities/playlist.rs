//! The playlist entity and its builder.

use crate::domain::value_objects::{PlaylistId, SongId};
use crate::ids::is_random_identifier;
use crate::shared::errors::DomainError;
use crate::stamp::{current_time, Timestamp};
use crate::text::{decimal, decimal_text, is_blank, lemma_trimmed_shape, trimmed};
use vstd::prelude::*;

verus! {

/// An ordered list of songs under a name. Name and description are kept
/// trimmed; a description of which nothing is left is dropped.
#[derive(Debug, PartialEq, Eq)]
pub struct Playlist {
    id: PlaylistId,
    name: String,
    description: Option<String>,
    song_ids: Vec<SongId>,
    created_at: Timestamp,
    updated_at: Timestamp,
}

/// What a playlist holds.
pub struct PlaylistView {
    pub id: Seq<char>,
    pub name: Seq<char>,
    pub description: Option<Seq<char>>,
    pub song_ids: Seq<Seq<char>>,
    pub created_at: Timestamp,
    pub updated_at: Timestamp,
}

/// The texts of a list of song identifiers.
pub open spec fn id_texts(ids: Seq<SongId>) -> Seq<Seq<char>> {
    ids.map_values(|id: SongId| id@)
}

/// A description as it is kept: trimmed, and dropped where nothing is left.
pub open spec fn kept_description(description: Option<String>) -> Option<Seq<char>> {
    match description {
        Some(d) => if is_blank(d@) {
            None
        } else {
            Some(trimmed(d@))
        },
        None => None,
    }
}

/// Why `name` cannot name a playlist, if it cannot: it is blank, or longer
/// than 100 characters.
pub open spec fn name_refusal(name: Seq<char>) -> Option<Seq<char>> {
    if is_blank(name) {
        Some("Name cannot be empty"@)
    } else if name.len() > 100 {
        Some("Name cannot exceed 100 characters"@)
    } else {
        None
    }
}

/// `ids` without every entry equal to `id`.
pub open spec fn without(ids: Seq<Seq<char>>, id: Seq<char>) -> Seq<Seq<char>> {
    ids.filter(|other: Seq<char>| other != id)
}

/// `ids` with the entry at `from` moved to position `to`.
pub open spec fn moved(ids: Seq<Seq<char>>, from: int, to: int) -> Seq<Seq<char>> {
    ids.remove(from).insert(to, ids[from])
}

/// `ids` without the entries that repeat an earlier one.
pub open spec fn first_occurrences(ids: Seq<Seq<char>>) -> Seq<Seq<char>>
    decreases ids.len(),
{
    if ids.len() == 0 {
        ids
    } else if first_occurrences(ids.drop_last()).contains(ids.last()) {
        first_occurrences(ids.drop_last())
    } else {
        first_occurrences(ids.drop_last()).push(ids.last())
    }
}

impl PlaylistView {
    /// The name with the number of songs, as shown in lists.
    pub open spec fn info(self) -> Seq<char> {
        self.name + " ("@ + decimal(self.song_ids.len()) + if self.song_ids.len() == 1 {
            " song)"@
        } else {
            " songs)"@
        }
    }
}

impl View for Playlist {
    type V = PlaylistView;

    closed spec fn view(&self) -> PlaylistView {
        PlaylistView {
            id: self.id@,
            name: self.name@,
            description: match self.description {
                Some(d) => Some(d@),
                None => None,
            },
            song_ids: id_texts(self.song_ids@),
            created_at: self.created_at,
            updated_at: self.updated_at,
        }
    }
}

/// Leaving entries out of a list without repeats leaves a list without
/// repeats.
pub proof fn lemma_without_keeps_distinct(ids: Seq<Seq<char>>, id: Seq<char>)
    requires
        ids.no_duplicates(),
    ensures
        without(ids, id).no_duplicates(),
        forall|other: Seq<char>| without(ids, id).contains(other) ==> ids.contains(other),
    decreases ids.len(),
{
    reveal_with_fuel(Seq::filter, 2);
    if ids.len() > 0 {
        let rest = ids.drop_last();
        let kept = without(rest, id);
        lemma_without_keeps_distinct(rest, id);
        assert forall|other: Seq<char>| rest.contains(other) implies ids.contains(other) by {
            let j = choose|j: int| 0 <= j < rest.len() && rest[j] == other;
            assert(ids[j] == other);
        }
        assert(ids[ids.len() - 1] == ids.last());
        if ids.last() != id {
            let grown = kept.push(ids.last());
            assert(without(ids, id) == grown);
            assert(!kept.contains(ids.last())) by {
                if kept.contains(ids.last()) {
                    assert(rest.contains(ids.last()));
                    let j = choose|j: int| 0 <= j < rest.len() && rest[j] == ids.last();
                    assert(rest[j] == ids[j]);
                    assert(ids[j] == ids[ids.len() - 1]);
                }
            }
            assert forall|a: int, b: int|
                0 <= a < grown.len() && 0 <= b < grown.len() && a != b implies grown[a]
                != grown[b] by {
                if a == kept.len() {
                    assert(kept.contains(kept[b]));
                } else if b == kept.len() {
                    assert(kept.contains(kept[a]));
                }
            }
            assert forall|other: Seq<char>| grown.contains(other) implies ids.contains(other) by {
                let j = choose|j: int| 0 <= j < grown.len() && grown[j] == other;
                if j < kept.len() {
                    assert(kept.contains(other));
                }
            }
        } else {
            assert(without(ids, id) == kept);
        }
    }
}

/// Moving an entry of a list without repeats leaves a list without
/// repeats.
pub proof fn lemma_moved_keeps_distinct(ids: Seq<Seq<char>>, from: int, to: int)
    requires
        ids.no_duplicates(),
        0 <= from < ids.len(),
        0 <= to < ids.len(),
    ensures
        moved(ids, from, to).no_duplicates(),
        moved(ids, from, to).to_multiset() == ids.to_multiset(),
{
    let taken = ids.remove(from);
    vstd::seq_lib::to_multiset_remove(ids, from);
    vstd::seq_lib::to_multiset_insert(taken, to, ids[from]);
    ids.to_multiset_ensures();
    assert(ids.contains(ids[from]));
    assert(moved(ids, from, to).to_multiset() =~= ids.to_multiset());
    ids.lemma_multiset_has_no_duplicates();
    moved(ids, from, to).lemma_multiset_has_no_duplicates_conv();
}

/// The first occurrences of a list hold every entry of the list, each
/// once.
pub proof fn lemma_first_occurrences_are_distinct(ids: Seq<Seq<char>>)
    ensures
        first_occurrences(ids).no_duplicates(),
        forall|id: Seq<char>| first_occurrences(ids).contains(id) <==> ids.contains(id),
    decreases ids.len(),
{
    if ids.len() > 0 {
        let rest = ids.drop_last();
        let firsts = first_occurrences(rest);
        lemma_first_occurrences_are_distinct(rest);
        assert forall|id: Seq<char>| first_occurrences(ids).contains(id) <==> ids.contains(
            id,
        ) by {
            if ids.contains(id) {
                let j = choose|j: int| 0 <= j < ids.len() && ids[j] == id;
                if j < rest.len() {
                    assert(rest[j] == id);
                    assert(rest.contains(id));
                }
            }
            if rest.contains(id) {
                let j = choose|j: int| 0 <= j < rest.len() && rest[j] == id;
                assert(ids[j] == id);
            }
            if !firsts.contains(ids.last()) {
                let grown = firsts.push(ids.last());
                assert(grown[firsts.len() as int] == ids.last());
                if firsts.contains(id) {
                    let j = choose|j: int| 0 <= j < firsts.len() && firsts[j] == id;
                    assert(grown[j] == id);
                }
                if grown.contains(id) {
                    let j = choose|j: int| 0 <= j < grown.len() && grown[j] == id;
                    if j < firsts.len() {
                        assert(firsts[j] == id);
                    }
                }
            }
            assert(ids[ids.len() - 1] == ids.last());
        }
        if !firsts.contains(ids.last()) {
            let grown = firsts.push(ids.last());
            assert forall|a: int, b: int|
                0 <= a < grown.len() && 0 <= b < grown.len() && a != b implies grown[a]
                != grown[b] by {
                if a == firsts.len() {
                    assert(firsts.contains(firsts[b]));
                } else if b == firsts.len() {
                    assert(firsts.contains(firsts[a]));
                }
            }
        }
    }
}

fn kept(description: Option<String>) -> (result: Option<String>)
    ensures
        match result {
            Some(d) => kept_description(description) == Some(d@) && d@.len() > 0,
            None => kept_description(description) is None,
        },
{
    match description {
        Some(d) => {
            proof {
                lemma_trimmed_shape(d@);
            }
            let text = d.as_str().trim();
            if text.is_empty() {
                None
            } else {
                Some(text.to_string())
            }
        },
        None => None,
    }
}

fn position_of(ids: &Vec<SongId>, id: &SongId) -> (position: Option<usize>)
    ensures
        match position {
            Some(i) => i < ids@.len() && ids@[i as int]@ == id@ && id_texts(ids@).contains(id@),
            None => !id_texts(ids@).contains(id@),
        },
{
    let mut i: usize = 0;
    while i < ids.len()
        invariant
            i <= ids.len(),
            forall|j: int| 0 <= j < i ==> ids@[j]@ != id@,
        decreases ids.len() - i,
    {
        if ids[i].same_as(id) {
            assert(id_texts(ids@)[i as int] == id@);
            return Some(i);
        }
        i += 1;
    }
    assert(!id_texts(ids@).contains(id@)) by {
        if id_texts(ids@).contains(id@) {
            let j = choose|j: int| 0 <= j < id_texts(ids@).len() && id_texts(ids@)[j] == id@;
            assert(ids@[j]@ == id@);
        }
    }
    None
}

impl Playlist {
    /// An empty playlist with the given identifier, created at `now`.
    /// Refused where the name is blank or longer than 100 characters.
    pub fn new_at(id: PlaylistId, now: Timestamp, name: String, description: Option<String>) -> (
        result: Result<Self, DomainError>
    )
        ensures
            match result {
                Ok(playlist) => name_refusal(name@) is None && playlist@ == (PlaylistView {
                    id: id@,
                    name: trimmed(name@),
                    description: kept_description(description),
                    song_ids: Seq::empty(),
                    created_at: now,
                    updated_at: now,
                }),
                Err(DomainError::InvalidPlaylistName(reason)) => name_refusal(name@) == Some(
                    reason@,
                ),
                Err(_) => false,
            },
    {
        proof {
            lemma_trimmed_shape(name@);
        }
        if name.as_str().trim().is_empty() {
            return Err(DomainError::InvalidPlaylistName("Name cannot be empty".to_string()));
        }
        if name.as_str().unicode_len() > 100 {
            return Err(
                DomainError::InvalidPlaylistName("Name cannot exceed 100 characters".to_string()),
            );
        }
        let playlist = Playlist {
            id,
            name: name.as_str().trim().to_string(),
            description: kept(description),
            song_ids: Vec::new(),
            created_at: now,
            updated_at: now,
        };
        assert(id_texts(playlist.song_ids@) =~= Seq::empty());
        Ok(playlist)
    }

    /// An empty playlist with a fresh random identifier, created now.
    /// Refused where the name is blank or longer than 100 characters.
    pub fn new(name: String, description: Option<String>) -> (result: Result<Self, DomainError>)
        ensures
            match result {
                Ok(playlist) => {
                    &&& name_refusal(name@) is None
                    &&& is_random_identifier(playlist@.id)
                    &&& playlist@.name == trimmed(name@)
                    &&& playlist@.description == kept_description(description)
                    &&& playlist@.song_ids.len() == 0
                    &&& playlist@.created_at == playlist@.updated_at
                },
                Err(DomainError::InvalidPlaylistName(reason)) => name_refusal(name@) == Some(
                    reason@,
                ),
                Err(_) => false,
            },
    {
        Playlist::new_at(PlaylistId::new(), current_time(), name, description)
    }

    /// A playlist as it was stored. Refused where the name is blank.
    pub fn from_existing(
        id: PlaylistId,
        name: String,
        description: Option<String>,
        song_ids: Vec<SongId>,
        created_at: Timestamp,
        updated_at: Timestamp,
    ) -> (result: Result<Self, DomainError>)
        ensures
            match result {
                Ok(playlist) => !is_blank(name@) && playlist@ == (PlaylistView {
                    id: id@,
                    name: trimmed(name@),
                    description: kept_description(description),
                    song_ids: id_texts(song_ids@),
                    created_at,
                    updated_at,
                }),
                Err(DomainError::InvalidPlaylistName(reason)) => is_blank(name@) && reason@
                    == "Name cannot be empty"@,
                Err(_) => false,
            },
    {
        proof {
            lemma_trimmed_shape(name@);
        }
        if name.as_str().trim().is_empty() {
            return Err(DomainError::InvalidPlaylistName("Name cannot be empty".to_string()));
        }
        Ok(
            Playlist {
                id,
                name: name.as_str().trim().to_string(),
                description: kept(description),
                song_ids,
                created_at,
                updated_at,
            },
        )
    }

    /// The playlist's identifier.
    pub fn id(&self) -> (id: &PlaylistId)
        ensures
            id@ == self@.id,
    {
        &self.id
    }

    /// The playlist's name.
    pub fn name(&self) -> (name: &str)
        ensures
            name@ == self@.name,
    {
        self.name.as_str()
    }

    /// The playlist's description.
    pub fn description(&self) -> (description: Option<&str>)
        ensures
            match description {
                Some(d) => self@.description == Some(d@),
                None => self@.description is None,
            },
    {
        match &self.description {
            Some(d) => Some(d.as_str()),
            None => None,
        }
    }

    /// The songs of the playlist, in order.
    pub fn song_ids(&self) -> (ids: &[SongId])
        ensures
            id_texts(ids@) == self@.song_ids,
    {
        self.song_ids.as_slice()
    }

    /// When the playlist was created.
    pub fn created_at(&self) -> (at: Timestamp)
        ensures
            at == self@.created_at,
    {
        self.created_at
    }

    /// When the playlist was last changed.
    pub fn updated_at(&self) -> (at: Timestamp)
        ensures
            at == self@.updated_at,
    {
        self.updated_at
    }

    /// The number of songs in the playlist.
    pub fn song_count(&self) -> (count: usize)
        ensures
            count == self@.song_ids.len(),
    {
        self.song_ids.len()
    }

    /// Whether the playlist holds no song.
    pub fn is_empty(&self) -> (empty: bool)
        ensures
            empty == (self@.song_ids.len() == 0),
    {
        self.song_ids.len() == 0
    }

    /// Whether the playlist holds the song.
    pub fn contains_song(&self, song_id: &SongId) -> (found: bool)
        ensures
            found == self@.song_ids.contains(song_id@),
    {
        position_of(&self.song_ids, song_id).is_some()
    }

    /// Appends the song at time `now`. Refused, with the playlist left as
    /// it is, where the playlist holds the song already.
    pub fn add_song_at(&mut self, song_id: SongId, now: Timestamp) -> (result: Result<
        (),
        DomainError,
    >)
        ensures
            match result {
                Ok(()) => !old(self)@.song_ids.contains(song_id@) && final(self)@ == (PlaylistView {
                    song_ids: old(self)@.song_ids.push(song_id@),
                    updated_at: now,
                    ..old(self)@
                }),
                Err(DomainError::BusinessRuleViolation(reason)) => old(self)@.song_ids.contains(
                    song_id@,
                ) && reason@ == "Song already exists in playlist"@ && final(self)@ == old(self)@,
                Err(_) => false,
            },
            old(self)@.song_ids.no_duplicates() ==> final(self)@.song_ids.no_duplicates(),
    {
        if self.contains_song(&song_id) {
            return Err(
                DomainError::BusinessRuleViolation("Song already exists in playlist".to_string()),
            );
        }
        self.song_ids.push(song_id);
        self.updated_at = now;
        assert(id_texts(self.song_ids@) =~= id_texts(old(self).song_ids@).push(song_id@));
        proof {
            let before = old(self)@.song_ids;
            let after = before.push(song_id@);
            if before.no_duplicates() {
                assert forall|a: int, b: int|
                    0 <= a < after.len() && 0 <= b < after.len() && a != b implies after[a]
                    != after[b] by {
                    if a == before.len() {
                        assert(before.contains(before[b]));
                    } else if b == before.len() {
                        assert(before.contains(before[a]));
                    }
                }
            }
        }
        Ok(())
    }

    /// Appends the song. Refused, with the playlist left as it is, where
    /// the playlist holds the song already.
    pub fn add_song(&mut self, song_id: SongId) -> (result: Result<(), DomainError>)
        ensures
            match result {
                Ok(()) => !old(self)@.song_ids.contains(song_id@) && final(self)@ == (PlaylistView {
                    song_ids: old(self)@.song_ids.push(song_id@),
                    updated_at: final(self)@.updated_at,
                    ..old(self)@
                }),
                Err(DomainError::BusinessRuleViolation(reason)) => old(self)@.song_ids.contains(
                    song_id@,
                ) && reason@ == "Song already exists in playlist"@ && final(self)@ == old(self)@,
                Err(_) => false,
            },
            old(self)@.song_ids.no_duplicates() ==> final(self)@.song_ids.no_duplicates(),
    {
        self.add_song_at(song_id, current_time())
    }

    /// Removes every entry of the song at time `now`. Refused, with the
    /// playlist left as it is, where the playlist does not hold the song.
    pub fn remove_song_at(&mut self, song_id: &SongId, now: Timestamp) -> (result: Result<
        (),
        DomainError,
    >)
        ensures
            match result {
                Ok(()) => old(self)@.song_ids.contains(song_id@) && final(self)@ == (PlaylistView {
                    song_ids: without(old(self)@.song_ids, song_id@),
                    updated_at: now,
                    ..old(self)@
                }),
                Err(DomainError::SongNotFound(missing)) => !old(self)@.song_ids.contains(song_id@)
                    && missing@ == song_id@ && final(self)@ == old(self)@,
                Err(_) => false,
            },
            old(self)@.song_ids.no_duplicates() ==> final(self)@.song_ids.no_duplicates(),
    {
        if !self.contains_song(song_id) {
            return Err(DomainError::SongNotFound(song_id.as_str().to_string()));
        }
        proof {
            if self@.song_ids.no_duplicates() {
                lemma_without_keeps_distinct(self@.song_ids, song_id@);
            }
        }
        let mut remaining: Vec<SongId> = Vec::new();
        let mut i: usize = 0;
        while i < self.song_ids.len()
            invariant
                i <= self.song_ids.len(),
                id_texts(remaining@) == without(id_texts(self.song_ids@.take(i as int)), song_id@),
            decreases self.song_ids.len() - i,
        {
            let ghost seen = id_texts(self.song_ids@.take(i as int));
            let ghost next = id_texts(self.song_ids@.take(i + 1));
            assert(next =~= seen.push(self.song_ids@[i as int]@));
            assert(next.drop_last() =~= seen);
            reveal_with_fuel(Seq::filter, 2);
            if !self.song_ids[i].same_as(song_id) {
                remaining.push(self.song_ids[i].clone());
                assert(id_texts(remaining@) =~= without(seen, song_id@).push(
                    self.song_ids@[i as int]@,
                ));
            }
            i += 1;
        }
        assert(self.song_ids@.take(self.song_ids.len() as int) =~= self.song_ids@);
        self.song_ids = remaining;
        self.updated_at = now;
        Ok(())
    }

    /// Removes every entry of the song. Refused, with the playlist left as
    /// it is, where the playlist does not hold the song.
    pub fn remove_song(&mut self, song_id: &SongId) -> (result: Result<(), DomainError>)
        ensures
            match result {
                Ok(()) => old(self)@.song_ids.contains(song_id@) && final(self)@ == (PlaylistView {
                    song_ids: without(old(self)@.song_ids, song_id@),
                    updated_at: final(self)@.updated_at,
                    ..old(self)@
                }),
                Err(DomainError::SongNotFound(missing)) => !old(self)@.song_ids.contains(song_id@)
                    && missing@ == song_id@ && final(self)@ == old(self)@,
                Err(_) => false,
            },
            old(self)@.song_ids.no_duplicates() ==> final(self)@.song_ids.no_duplicates(),
    {
        self.remove_song_at(song_id, current_time())
    }

    /// Moves the song at position `from_index` to position `to_index` at
    /// time `now`. Refused, with the playlist left as it is, where either
    /// position lies outside the playlist.
    pub fn move_song_at(&mut self, from_index: usize, to_index: usize, now: Timestamp) -> (result:
        Result<(), DomainError>)
        ensures
            match result {
                Ok(()) => from_index < old(self)@.song_ids.len() && to_index < old(self)@.song_ids.len() && final(self)@ == (PlaylistView {
                    song_ids: moved(old(self)@.song_ids, from_index as int, to_index as int),
                    updated_at: now,
                    ..old(self)@
                }),
                Err(DomainError::BusinessRuleViolation(reason)) => (from_index >= old(self)@.song_ids.len() || to_index >= old(self)@.song_ids.len()) && reason@
                    == "Invalid song position"@ && final(self)@ == old(self)@,
                Err(_) => false,
            },
            old(self)@.song_ids.no_duplicates() ==> final(self)@.song_ids.no_duplicates(),
    {
        if from_index >= self.song_ids.len() || to_index >= self.song_ids.len() {
            return Err(DomainError::BusinessRuleViolation("Invalid song position".to_string()));
        }
        proof {
            if self@.song_ids.no_duplicates() {
                lemma_moved_keeps_distinct(self@.song_ids, from_index as int, to_index as int);
            }
        }
        let song_id = self.song_ids.remove(from_index);
        self.song_ids.insert(to_index, song_id);
        self.updated_at = now;
        assert(id_texts(self.song_ids@) =~= moved(
            id_texts(old(self).song_ids@),
            from_index as int,
            to_index as int,
        ));
        Ok(())
    }

    /// Moves the song at position `from_index` to position `to_index`.
    /// Refused, with the playlist left as it is, where either position lies
    /// outside the playlist.
    pub fn move_song(&mut self, from_index: usize, to_index: usize) -> (result: Result<
        (),
        DomainError,
    >)
        ensures
            match result {
                Ok(()) => from_index < old(self)@.song_ids.len() && to_index < old(self)@.song_ids.len() && final(self)@ == (PlaylistView {
                    song_ids: moved(old(self)@.song_ids, from_index as int, to_index as int),
                    updated_at: final(self)@.updated_at,
                    ..old(self)@
                }),
                Err(DomainError::BusinessRuleViolation(reason)) => (from_index >= old(self)@.song_ids.len() || to_index >= old(self)@.song_ids.len()) && reason@
                    == "Invalid song position"@ && final(self)@ == old(self)@,
                Err(_) => false,
            },
            old(self)@.song_ids.no_duplicates() ==> final(self)@.song_ids.no_duplicates(),
    {
        self.move_song_at(from_index, to_index, current_time())
    }

    /// Removes every song at time `now`.
    pub fn clear_at(&mut self, now: Timestamp)
        ensures
            final(self)@ == (PlaylistView {
                song_ids: Seq::empty(),
                updated_at: now,
                ..old(self)@
            }),
    {
        self.song_ids.clear();
        self.updated_at = now;
        assert(id_texts(self.song_ids@) =~= Seq::empty());
    }

    /// Removes every song.
    pub fn clear(&mut self)
        ensures
            final(self)@ == (PlaylistView {
                song_ids: Seq::empty(),
                updated_at: final(self)@.updated_at,
                ..old(self)@
            }),
    {
        self.clear_at(current_time())
    }

    /// Replaces name and description at time `now`. Refused, with the
    /// playlist left as it is, where the name is blank or longer than 100
    /// characters.
    pub fn update_metadata_at(&mut self, name: String, description: Option<String>, now: Timestamp) -> (
        result: Result<(), DomainError>
    )
        ensures
            match result {
                Ok(()) => name_refusal(name@) is None && final(self)@ == (PlaylistView {
                    name: trimmed(name@),
                    description: kept_description(description),
                    updated_at: now,
                    ..old(self)@
                }),
                Err(DomainError::InvalidPlaylistName(reason)) => name_refusal(name@) == Some(
                    reason@,
                ) && final(self)@ == old(self)@,
                Err(_) => false,
            },
    {
        proof {
            lemma_trimmed_shape(name@);
        }
        if name.as_str().trim().is_empty() {
            return Err(DomainError::InvalidPlaylistName("Name cannot be empty".to_string()));
        }
        if name.as_str().unicode_len() > 100 {
            return Err(
                DomainError::InvalidPlaylistName("Name cannot exceed 100 characters".to_string()),
            );
        }
        self.name = name.as_str().trim().to_string();
        self.description = kept(description);
        self.updated_at = now;
        Ok(())
    }

    /// Replaces name and description. Refused, with the playlist left as it
    /// is, where the name is blank or longer than 100 characters.
    pub fn update_metadata(&mut self, name: String, description: Option<String>) -> (result: Result<
        (),
        DomainError,
    >)
        ensures
            match result {
                Ok(()) => name_refusal(name@) is None && final(self)@ == (PlaylistView {
                    name: trimmed(name@),
                    description: kept_description(description),
                    updated_at: final(self)@.updated_at,
                    ..old(self)@
                }),
                Err(DomainError::InvalidPlaylistName(reason)) => name_refusal(name@) == Some(
                    reason@,
                ) && final(self)@ == old(self)@,
                Err(_) => false,
            },
    {
        self.update_metadata_at(name, description, current_time())
    }

    /// The name with the number of songs, as shown in lists.
    pub fn display_info(&self) -> (info: String)
        ensures
            info@ == self@.info(),
    {
        let count = self.song_count();
        let mut info = self.name.clone();
        info.append(" (");
        let number = decimal_text(count as u64);
        info.append(number.as_str());
        if count == 1 {
            info.append(" song)");
        } else {
            info.append(" songs)");
        }
        assert(info@ =~= self@.info());
        info
    }
}

impl Clone for Playlist {
    fn clone(&self) -> (copy: Self)
        ensures
            copy@ == self@,
    {
        let mut song_ids: Vec<SongId> = Vec::new();
        let mut i: usize = 0;
        while i < self.song_ids.len()
            invariant
                i <= self.song_ids.len(),
                song_ids@.len() == i,
                forall|j: int| 0 <= j < i ==> song_ids@[j]@ == self.song_ids@[j]@,
            decreases self.song_ids.len() - i,
        {
            song_ids.push(self.song_ids[i].clone());
            i += 1;
        }
        assert(id_texts(song_ids@) =~= id_texts(self.song_ids@));
        Playlist {
            id: self.id.clone(),
            name: self.name.clone(),
            description: match &self.description {
                Some(d) => Some(d.clone()),
                None => None,
            },
            song_ids,
            created_at: self.created_at,
            updated_at: self.updated_at,
        }
    }
}

/// Collects what a playlist is made of, then builds it.
pub struct PlaylistBuilder {
    name: Option<String>,
    description: Option<String>,
    song_ids: Vec<SongId>,
}

/// What a playlist builder holds.
pub struct PlaylistBuilderView {
    pub name: Option<Seq<char>>,
    pub description: Option<Seq<char>>,
    pub song_ids: Seq<Seq<char>>,
}

impl View for PlaylistBuilder {
    type V = PlaylistBuilderView;

    closed spec fn view(&self) -> PlaylistBuilderView {
        PlaylistBuilderView {
            name: match self.name {
                Some(n) => Some(n@),
                None => None,
            },
            description: match self.description {
                Some(d) => Some(d@),
                None => None,
            },
            song_ids: id_texts(self.song_ids@),
        }
    }
}

impl PlaylistBuilderView {
    /// Why no playlist can be built, if none can: no name was given, or
    /// the name cannot name a playlist.
    pub open spec fn refusal(self) -> Option<Seq<char>> {
        match self.name {
            None => Some("Name is required"@),
            Some(name) => name_refusal(name),
        }
    }

    /// The description as the playlist keeps it.
    pub open spec fn kept_description(self) -> Option<Seq<char>> {
        match self.description {
            Some(d) => if is_blank(d) {
                None
            } else {
                Some(trimmed(d))
            },
            None => None,
        }
    }
}

impl PlaylistBuilder {
    /// A builder that holds nothing yet.
    pub fn new() -> (builder: Self)
        ensures
            builder@ == (PlaylistBuilderView {
                name: None,
                description: None,
                song_ids: Seq::empty(),
            }),
    {
        let builder = PlaylistBuilder { name: None, description: None, song_ids: Vec::new() };
        assert(id_texts(builder.song_ids@) =~= Seq::empty());
        builder
    }

    /// Sets the playlist's name.
    pub fn name(self, name: &str) -> (builder: Self)
        ensures
            builder@ == (PlaylistBuilderView { name: Some(name@), ..self@ }),
    {
        PlaylistBuilder {
            name: Some(name.to_string()),
            description: self.description,
            song_ids: self.song_ids,
        }
    }

    /// Sets the playlist's description.
    pub fn description(self, description: &str) -> (builder: Self)
        ensures
            builder@ == (PlaylistBuilderView { description: Some(description@), ..self@ }),
    {
        PlaylistBuilder {
            name: self.name,
            description: Some(description.to_string()),
            song_ids: self.song_ids,
        }
    }

    /// Adds a song to the playlist.
    pub fn add_song(self, song_id: SongId) -> (builder: Self)
        ensures
            builder@ == (PlaylistBuilderView {
                song_ids: self@.song_ids.push(song_id@),
                ..self@
            }),
    {
        let mut song_ids = self.song_ids;
        song_ids.push(song_id);
        assert(id_texts(song_ids@) =~= id_texts(self.song_ids@).push(song_id@));
        PlaylistBuilder { name: self.name, description: self.description, song_ids }
    }

    /// Adds songs to the playlist, in their order.
    pub fn add_songs(self, song_ids: Vec<SongId>) -> (builder: Self)
        ensures
            builder@ == (PlaylistBuilderView {
                song_ids: self@.song_ids + id_texts(song_ids@),
                ..self@
            }),
    {
        let mut all = self.song_ids;
        let mut more = song_ids;
        all.append(&mut more);
        assert(id_texts(all@) =~= id_texts(self.song_ids@) + id_texts(song_ids@));
        PlaylistBuilder { name: self.name, description: self.description, song_ids: all }
    }

    /// Builds the playlist with the given identifier and creation time:
    /// the songs in the order they were added, each once. Refused where no
    /// name was given or the name cannot name a playlist.
    pub fn build_at(self, id: PlaylistId, now: Timestamp) -> (result: Result<Playlist, DomainError>)
        ensures
            match result {
                Ok(playlist) => self@.refusal() is None && playlist@ == (PlaylistView {
                    id: id@,
                    name: trimmed(self@.name->0),
                    description: self@.kept_description(),
                    song_ids: first_occurrences(self@.song_ids),
                    created_at: now,
                    updated_at: now,
                }) && playlist@.song_ids.no_duplicates(),
                Err(DomainError::InvalidPlaylistName(reason)) => self@.refusal() == Some(reason@),
                Err(_) => false,
            },
    {
        proof {
            lemma_first_occurrences_are_distinct(self@.song_ids);
        }
        let name = match self.name {
            Some(name) => name,
            None => {
                return Err(DomainError::InvalidPlaylistName("Name is required".to_string()));
            },
        };
        let mut playlist = match Playlist::new_at(id, now, name, self.description) {
            Ok(playlist) => playlist,
            Err(e) => {
                return Err(e);
            },
        };
        let ghost base = playlist@;
        let mut i: usize = 0;
        assert(playlist@.song_ids =~= first_occurrences(id_texts(self.song_ids@.take(0)))) by {
            assert(id_texts(self.song_ids@.take(0)) =~= Seq::empty());
        }
        while i < self.song_ids.len()
            invariant
                i <= self.song_ids.len(),
                playlist@ == (PlaylistView {
                    song_ids: first_occurrences(id_texts(self.song_ids@.take(i as int))),
                    ..base
                }),
            decreases self.song_ids.len() - i,
        {
            let ghost seen = id_texts(self.song_ids@.take(i as int));
            let ghost next = id_texts(self.song_ids@.take(i + 1));
            assert(next =~= seen.push(self.song_ids@[i as int]@));
            assert(next.drop_last() =~= seen);
            if !playlist.contains_song(&self.song_ids[i]) {
                playlist.append_unchecked(self.song_ids[i].clone());
            }
            i += 1;
        }
        assert(self.song_ids@.take(self.song_ids.len() as int) =~= self.song_ids@);
        Ok(playlist)
    }

    /// Builds the playlist with a fresh random identifier, created now.
    /// Refused where no name was given or the name cannot name a playlist.
    pub fn build(self) -> (result: Result<Playlist, DomainError>)
        ensures
            match result {
                Ok(playlist) => {
                    &&& self@.refusal() is None
                    &&& is_random_identifier(playlist@.id)
                    &&& playlist@.name == trimmed(self@.name->0)
                    &&& playlist@.description == self@.kept_description()
                    &&& playlist@.song_ids == first_occurrences(self@.song_ids)
                    &&& playlist@.song_ids.no_duplicates()
                    &&& playlist@.created_at == playlist@.updated_at
                },
                Err(DomainError::InvalidPlaylistName(reason)) => self@.refusal() == Some(reason@),
                Err(_) => false,
            },
    {
        self.build_at(PlaylistId::new(), current_time())
    }
}

impl Playlist {
    fn append_unchecked(&mut self, song_id: SongId)
        ensures
            final(self)@ == (PlaylistView {
                song_ids: old(self)@.song_ids.push(song_id@),
                ..old(self)@
            }),
    {
        self.song_ids.push(song_id);
        assert(id_texts(self.song_ids@) =~= id_texts(old(self).song_ids@).push(song_id@));
    }
}

impl Default for PlaylistBuilder {
    fn default() -> (builder: Self)
        ensures
            builder@ == (PlaylistBuilderView {
                name: None,
                description: None,
                song_ids: Seq::empty(),
            }),
    {
        Self::new()
    }
}

} // verus!
