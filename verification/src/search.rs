//! The join of index hits with the songs held in memory.

use crate::song::Song;
use vstd::prelude::*;

verus! {

/// The most hits that one query asks the index for.
pub const RESULT_LIMIT: usize = 10;

/// What the index is asked: the text as it was typed, and a cap on the
/// number of hits.
#[derive(Debug, PartialEq, Eq)]
pub struct SearchRequest {
    pub query: String,
    pub limit: usize,
}

/// The request for an inline query: its text unchanged, capped at
/// `RESULT_LIMIT` hits.
pub fn search_request(query: String) -> (request: SearchRequest)
    ensures
        request.query == query,
        request.limit == RESULT_LIMIT,
{
    SearchRequest { query, limit: RESULT_LIMIT }
}

/// The song that a document identifier stands for: the one at that position
/// of the song list, if the list is long enough.
pub open spec fn song_at(songs: Seq<Song>, id: u32) -> Option<Song> {
    if (id as int) < songs.len() {
        Some(songs[id as int])
    } else {
        None
    }
}

/// The songs that a list of hits stands for, in the order of the hits;
/// identifiers without a song are passed over.
pub open spec fn resolved(ids: Seq<u32>, songs: Seq<Song>) -> Seq<Song> {
    ids.filter_map(|id: u32| song_at(songs, id))
}

/// No more songs are resolved than there are hits.
pub proof fn lemma_resolved_len(ids: Seq<u32>, songs: Seq<Song>)
    ensures
        resolved(ids, songs).len() <= ids.len(),
    decreases ids.len(),
{
    if ids.len() > 0 {
        lemma_resolved_len(ids.drop_last(), songs);
    }
}

/// Resolving goes hit by hit: the songs of two lists of hits, one after the
/// other, are the songs of the first followed by those of the second.
pub proof fn lemma_resolved_concat(first: Seq<u32>, second: Seq<u32>, songs: Seq<Song>)
    ensures
        resolved(first + second, songs) == resolved(first, songs) + resolved(second, songs),
    decreases second.len(),
{
    if second.len() == 0 {
        assert(first + second =~= first);
    } else {
        assert((first + second).drop_last() =~= first + second.drop_last());
        lemma_resolved_concat(first, second.drop_last(), songs);
    }
}

/// A hit without a song in the list changes nothing: the hits before it and
/// after it resolve as if it had not been returned.
pub proof fn lemma_missing_song_skipped(
    before: Seq<u32>,
    stale: u32,
    after: Seq<u32>,
    songs: Seq<Song>,
)
    requires
        stale >= songs.len(),
    ensures
        resolved(before.push(stale) + after, songs) == resolved(before + after, songs),
        resolved(before.push(stale) + after, songs) == resolved(before, songs) + resolved(
            after,
            songs,
        ),
{
    lemma_resolved_concat(before.push(stale), after, songs);
    lemma_resolved_concat(before, after, songs);
    assert(before.push(stale).drop_last() =~= before);
}

/// Where every hit has a song in the list, every hit is resolved: the result
/// holds, for each hit in order, the song at its position.
pub proof fn lemma_known_hits_all_resolved(ids: Seq<u32>, songs: Seq<Song>)
    requires
        forall|k: int| 0 <= k < ids.len() ==> ids[k] < songs.len(),
    ensures
        resolved(ids, songs).len() == ids.len(),
        forall|k: int| 0 <= k < ids.len() ==> resolved(ids, songs)[k] == songs[ids[k] as int],
    decreases ids.len(),
{
    if ids.len() > 0 {
        lemma_known_hits_all_resolved(ids.drop_last(), songs);
    }
}

/// The songs that a list of references points to.
pub open spec fn songs_of(matches: Seq<&Song>) -> Seq<Song> {
    Seq::new(matches.len(), |k: int| *matches[k])
}

/// Looks up each hit in the song list, in order, and passes over the
/// identifiers that the list has no song for.
pub fn resolve<'a>(ids: &Vec<u32>, songs: &'a Vec<Song>) -> (matches: Vec<&'a Song>)
    ensures
        songs_of(matches@) == resolved(ids@, songs@),
        matches@.len() <= ids@.len(),
{
    let mut matches: Vec<&'a Song> = Vec::new();
    let mut k: usize = 0;
    while k < ids.len()
        invariant
            k <= ids.len(),
            matches@.len() <= k,
            songs_of(matches@) == resolved(ids@.take(k as int), songs@),
        decreases ids.len() - k,
    {
        let id = ids[k];
        proof {
            ids@.lemma_filter_map_take_succ(|id: u32| song_at(songs@, id), k as int);
        }
        if (id as usize) < songs.len() {
            matches.push(&songs[id as usize]);
        }
        k += 1;
    }
    assert(ids@.take(ids@.len() as int) =~= ids@);
    matches
}

/// Turns the outcome of an index query into the matched songs: the hits
/// resolved against the song list, or the failure handed on as it came.
pub fn search<'a, E>(hits: Result<Vec<u32>, E>, songs: &'a Vec<Song>) -> (found: Result<
    Vec<&'a Song>,
    E,
>)
    ensures
        match hits {
            Ok(ids) => found is Ok && songs_of(found->Ok_0@) == resolved(ids@, songs@)
                && found->Ok_0@.len() <= ids@.len(),
            Err(failure) => found == Err::<Vec<&'a Song>, E>(failure),
        },
{
    match hits {
        Ok(ids) => Ok(resolve(&ids, songs)),
        Err(failure) => Err(failure),
    }
}

} // verus!
