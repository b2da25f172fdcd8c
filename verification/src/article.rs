//! Inline results: one article for each matched song.

use crate::decimal::{decimal_digits, decimal_string, lemma_decimal_digits_injective};
use crate::song::{Song, SongView};
use vstd::prelude::*;

verus! {

/// The most characters of lyrics that a description shows.
pub const DESCRIPTION_LIMIT: usize = 100;

/// How the chat platform is to read a message text.
#[derive(Clone, Copy, Debug, PartialEq, Eq, Structural)]
pub enum Markup {
    Plain,
    Html,
}

/// One inline result.
#[derive(Debug, PartialEq, Eq)]
pub struct Article {
    /// Tells the results of one answer apart.
    pub id: String,
    pub title: String,
    /// The message that is sent when the result is chosen.
    pub message_text: String,
    pub markup: Markup,
    pub disable_web_page_preview: bool,
    /// The short text shown under the title.
    pub description: String,
}

/// An inline result as plain values.
pub struct ArticleView {
    pub id: Seq<char>,
    pub title: Seq<char>,
    pub message_text: Seq<char>,
    pub markup: Markup,
    pub disable_web_page_preview: bool,
    pub description: Seq<char>,
}

impl View for Article {
    type V = ArticleView;

    open spec fn view(&self) -> ArticleView {
        ArticleView {
            id: self.id@,
            title: self.title@,
            message_text: self.message_text@,
            markup: self.markup,
            disable_web_page_preview: self.disable_web_page_preview,
            description: self.description@,
        }
    }
}

/// The description of a song: its lyrics, cut after `DESCRIPTION_LIMIT`
/// characters where they are longer.
pub open spec fn description_text(lyrics: Seq<char>) -> Seq<char> {
    if lyrics.len() <= DESCRIPTION_LIMIT {
        lyrics
    } else {
        lyrics.take(DESCRIPTION_LIMIT as int)
    }
}

/// A description is the start of the lyrics, never longer than
/// `DESCRIPTION_LIMIT` characters and never longer than the lyrics; lyrics
/// within the limit are shown whole.
pub proof fn lemma_description_bounded(lyrics: Seq<char>)
    ensures
        description_text(lyrics).len() <= DESCRIPTION_LIMIT,
        description_text(lyrics).len() <= lyrics.len(),
        description_text(lyrics) == lyrics.take(description_text(lyrics).len() as int),
        lyrics.len() <= DESCRIPTION_LIMIT ==> description_text(lyrics) == lyrics,
        lyrics.len() > DESCRIPTION_LIMIT ==> description_text(lyrics).len() == DESCRIPTION_LIMIT,
{
}

/// The message of a song: its name in bold, an empty line, its lyrics.
pub open spec fn message_body(name: Seq<char>, lyrics: Seq<char>) -> Seq<char> {
    "<b>"@ + name + "</b>\n\n"@ + lyrics
}

/// The article for the song that stands at `position` in a result list.
pub open spec fn song_article(position: nat, song: SongView) -> ArticleView {
    ArticleView {
        id: decimal_digits(position),
        title: song.name,
        message_text: message_body(song.name, song.lyrics),
        markup: Markup::Html,
        disable_web_page_preview: true,
        description: description_text(song.lyrics),
    }
}

/// The articles for a result list, in its order.
pub open spec fn song_articles(songs: Seq<SongView>) -> Seq<ArticleView> {
    Seq::new(songs.len(), |k: int| song_article(k as nat, songs[k]))
}

/// The articles of one result list can be told apart by their identifiers.
pub proof fn lemma_article_ids_distinct(songs: Seq<SongView>, j: int, k: int)
    requires
        0 <= j < songs.len(),
        0 <= k < songs.len(),
        j != k,
    ensures
        song_articles(songs)[j].id != song_articles(songs)[k].id,
{
    if decimal_digits(j as nat) == decimal_digits(k as nat) {
        lemma_decimal_digits_injective(j as nat, k as nat);
    }
}

/// The songs that a list of matches refers to, as plain values.
pub open spec fn match_views(matches: Seq<&Song>) -> Seq<SongView> {
    Seq::new(matches.len(), |k: int| matches[k]@)
}

/// A list of articles as plain values.
pub open spec fn article_views(articles: Seq<Article>) -> Seq<ArticleView> {
    Seq::new(articles.len(), |k: int| articles[k]@)
}

/// The first `DESCRIPTION_LIMIT` characters of `lyrics`, or all of them
/// where there are fewer.
pub fn description_of(lyrics: &str) -> (description: String)
    ensures
        description@ == description_text(lyrics@),
        description@.len() <= DESCRIPTION_LIMIT,
        description@.len() <= lyrics@.len(),
        description@ == lyrics@.take(description@.len() as int),
{
    if lyrics.unicode_len() <= DESCRIPTION_LIMIT {
        String::from_str(lyrics)
    } else {
        String::from_str(lyrics.substring_char(0, DESCRIPTION_LIMIT))
    }
}

/// The message sent for a song: `<b>`, the name, `</b>`, an empty line and
/// the lyrics.
pub fn message_text(name: &str, lyrics: &str) -> (text: String)
    ensures
        text@ == message_body(name@, lyrics@),
{
    let mut text = String::from_str("<b>");
    text.append(name);
    text.append("</b>\n\n");
    text.append(lyrics);
    text
}

/// Builds the article for the song that stands at `position` in a result
/// list.
pub fn article_for(position: usize, song: &Song) -> (article: Article)
    ensures
        article@ == song_article(position as nat, song@),
        article@.description.len() <= DESCRIPTION_LIMIT,
{
    Article {
        id: decimal_string(position),
        title: song.name.clone(),
        message_text: message_text(song.name.as_str(), song.lyrics.as_str()),
        markup: Markup::Html,
        disable_web_page_preview: true,
        description: description_of(song.lyrics.as_str()),
    }
}

/// Builds the articles for a list of matches: one for each match, in the
/// order of the list, numbered from zero.
pub fn inline_results(matches: &Vec<&Song>) -> (articles: Vec<Article>)
    ensures
        article_views(articles@) == song_articles(match_views(matches@)),
        articles@.len() == matches@.len(),
        forall|k: int|
            0 <= k < articles@.len() ==> (#[trigger] articles@[k])@.description.len()
                <= DESCRIPTION_LIMIT,
{
    let mut articles: Vec<Article> = Vec::new();
    let mut position: usize = 0;
    while position < matches.len()
        invariant
            position <= matches.len(),
            articles@.len() == position,
            forall|k: int|
                0 <= k < position ==> (#[trigger] articles@[k])@ == song_article(
                    k as nat,
                    matches@[k]@,
                ),
        decreases matches.len() - position,
    {
        articles.push(article_for(position, matches[position]));
        position += 1;
    }
    articles
}

} // verus!
