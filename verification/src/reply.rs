//! The answer to an inline query.

use crate::article::{
    article_views, inline_results, match_views, song_articles, Article, ArticleView,
    DESCRIPTION_LIMIT,
};
use crate::search::{resolved, search, songs_of, RESULT_LIMIT};
use crate::song::{Song, SongView};
use vstd::prelude::*;

verus! {

/// What is sent back for one inline query.
#[derive(Debug, PartialEq, Eq)]
pub struct Reply {
    /// The identifier of the query that is answered.
    pub query_id: String,
    pub results: Vec<Article>,
}

/// A list of songs as plain values.
pub open spec fn song_views(songs: Seq<Song>) -> Seq<SongView> {
    Seq::new(songs.len(), |k: int| songs[k]@)
}

/// The hits of an index query, where it gave any: a failed query counts as
/// one without hits.
pub open spec fn hits_or_none<E>(hits: Result<Vec<u32>, E>) -> Seq<u32> {
    match hits {
        Ok(ids) => ids@,
        Err(_) => Seq::empty(),
    }
}

/// The results owed for the hits `ids` over the song list `songs`: the
/// articles of the songs that the hits stand for.
pub open spec fn answer_articles(ids: Seq<u32>, songs: Seq<Song>) -> Seq<ArticleView> {
    song_articles(song_views(resolved(ids, songs)))
}

/// The results shown for the outcome of a search: the articles of the
/// matched songs, or none where the search failed.
pub fn inline_answer<E>(found: &Result<Vec<&Song>, E>) -> (articles: Vec<Article>)
    ensures
        match found {
            Ok(matches) => article_views(articles@) == song_articles(match_views(matches@))
                && articles@.len() == matches@.len(),
            Err(_) => articles@.len() == 0,
        },
        forall|k: int|
            0 <= k < articles@.len() ==> (#[trigger] articles@[k])@.description.len()
                <= DESCRIPTION_LIMIT,
{
    match found {
        Ok(matches) => inline_results(matches),
        Err(_) => Vec::new(),
    }
}

/// Answers the query `query_id` from what the index returned for it. Hits
/// without a song in `songs` are left out, and a failed index query is
/// answered like one without hits.
pub fn reply_to<E>(query_id: String, hits: Result<Vec<u32>, E>, songs: &Vec<Song>) -> (reply: Reply)
    ensures
        reply.query_id == query_id,
        article_views(reply.results@) == answer_articles(hits_or_none(hits), songs@),
        reply.results@.len() <= hits_or_none(hits).len(),
        hits_or_none(hits).len() == 0 ==> reply.results@.len() == 0,
        hits_or_none(hits).len() <= RESULT_LIMIT ==> reply.results@.len() <= RESULT_LIMIT,
        forall|k: int|
            0 <= k < reply.results@.len() ==> (#[trigger] reply.results@[k])@.description.len()
                <= DESCRIPTION_LIMIT,
{
    let found = search(hits, songs);
    let results = inline_answer(&found);
    Reply { query_id, results }
}

} // verus!
