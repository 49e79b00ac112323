//! What the bot says of the song that is playing.
use crate::text::Text;
use vstd::prelude::*;

verus! {

/// What the music player is at.
#[derive(Debug, PartialEq, Eq)]
pub enum Playing {
    /// A track, with its artists.
    Track { artists: Vec<String>, title: String },
    /// Something that is no track.
    Other,
    /// Nothing.
    Nothing,
    /// It could not be asked.
    Unknown,
}

/// The artists of a track, from the `i`th on: commas between them, and a dash
/// after the last.
pub open spec fn credits(artists: Seq<Text>, i: int) -> Text
    decreases artists.len() - i,
{
    if 0 <= i < artists.len() {
        artists[i] + (if i + 1 < artists.len() {
            ", "@
        } else {
            " - "@
        }) + credits(artists, i + 1)
    } else {
        Seq::empty()
    }
}

/// What each of the strings says.
pub open spec fn views(v: Seq<String>) -> Seq<Text> {
    Seq::new(v.len(), |i: int| v[i]@)
}

/// What the bot says of what is playing.
pub open spec fn song_text(playing: Playing) -> Text {
    match playing {
        Playing::Track { artists, title } => credits(views(artists@), 0) + title@,
        Playing::Other => "no song, I'm just listening to Folding@Home podcast :)"@,
        Playing::Nothing => "Error: No song is currently playing."@,
        Playing::Unknown => "Error: Couldn't get the current song."@,
    }
}

/// Says what is playing.
pub fn song_message(playing: &Playing) -> (r: String)
    ensures
        r@ == song_text(*playing),
{
    match playing {
        Playing::Track { artists, title } => {
            let mut message = String::new();
            let n: usize = artists.len();
            let ghost names = views(artists@);
            let mut i: usize = 0;
            assert(message@ + credits(names, 0) == credits(names, 0));
            while i < n
                invariant
                    n == artists.len(),
                    names == views(artists@),
                    i <= n,
                    message@ + credits(names, i as int) == credits(names, 0),
                decreases n - i,
            {
                let ghost before = message@;
                message.append(artists[i].as_str());
                if i + 1 != n {
                    message.append(", ");
                } else {
                    message.append(" - ");
                }
                assert(message@ + credits(names, i + 1) =~= before + credits(names, i as int));
                i = i + 1;
            }
            assert(message@ == credits(names, 0));
            message.append(title.as_str());
            message
        },
        Playing::Other => "no song, I'm just listening to Folding@Home podcast :)".to_owned(),
        Playing::Nothing => "Error: No song is currently playing.".to_owned(),
        Playing::Unknown => "Error: Couldn't get the current song.".to_owned(),
    }
}

proof fn lemma_credits_shift(artist: Text, rest: Seq<Text>, i: int)
    requires
        0 <= i <= rest.len(),
    ensures
        credits(seq![artist] + rest, i + 1) == credits(rest, i),
    decreases rest.len() - i,
{
    if i < rest.len() {
        lemma_credits_shift(artist, rest, i + 1);
        assert((seq![artist] + rest)[i + 1] == rest[i]);
    }
}

/// The credits of a track: nothing without artists, an artist and a dash for one,
/// and an artist and a comma before the credits of the others.
pub proof fn law_credits(artist: Text, rest: Seq<Text>)
    ensures
        credits(Seq::empty(), 0) == Seq::<char>::empty(),
        credits(seq![artist], 0) == artist + " - "@,
        rest.len() > 0 ==> credits(seq![artist] + rest, 0) == artist + ", "@ + credits(rest, 0),
{
    assert(credits(seq![artist], 1) == Seq::<char>::empty());
    assert(artist + " - "@ + credits(seq![artist], 1) =~= artist + " - "@);
    lemma_credits_shift(artist, rest, 0);
    assert((seq![artist] + rest)[0] == artist);
}

/// What is said of what is playing: of a track, its credits and its title.
pub proof fn law_songs_in_words(artists: Vec<String>, title: String, names: Seq<Text>)
    requires
        names.len() == artists@.len(),
        forall|i: int| 0 <= i < names.len() ==> #[trigger] names[i] == artists@[i]@,
    ensures
        song_text(Playing::Track { artists, title }) == credits(names, 0) + title@,
        song_text(Playing::Other) == "no song, I'm just listening to Folding@Home podcast :)"@,
        song_text(Playing::Nothing) == "Error: No song is currently playing."@,
        song_text(Playing::Unknown) == "Error: Couldn't get the current song."@,
{
    assert(views(artists@) =~= names);
}

} // verus!
