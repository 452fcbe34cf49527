//! What is known of a song at a lyric service, what has to be asked of the
//! service for it, and how it is shown in a list.

use vstd::prelude::*;
use vstd::string::*;
use unicode_truncate::{Alignment, UnicodeTruncateStr};
use crate::text::{clone_opt_string, opt_text, parse_u64, str_eq};

verus! {

/// A song as a lyric service lists it.
#[derive(Debug, Clone)]
pub struct SongTag {
    pub artist: Vec<String>,
    pub title: Option<String>,
    pub album: Option<String>,
    pub lang_ext: Option<String>,
    pub service_provider: Option<String>,
    pub song_id: Option<String>,
    pub lyric_id: Option<String>,
    pub url: Option<String>,
    pub pic_id: Option<String>,
}

/// A lyric service.
#[derive(Debug, Clone, Copy, PartialEq, Eq, Structural)]
pub enum Provider {
    Kugou,
    Netease,
}

/// The service that the name `name` stands for.
pub open spec fn provider_of(name: Seq<char>) -> Option<Provider> {
    if name == "kugou"@ {
        Some(Provider::Kugou)
    } else if name == "netease"@ {
        Some(Provider::Netease)
    } else {
        None
    }
}

/// The service that the name `name` stands for.
pub fn provider_of_exec(name: &str) -> (r: Option<Provider>)
    ensures
        r == provider_of(name@),
{
    if str_eq(name, "kugou") {
        Some(Provider::Kugou)
    } else if str_eq(name, "netease") {
        Some(Provider::Netease)
    } else {
        None
    }
}

/// What has to be asked of a service to get the lyric of a song.
#[derive(Debug, Clone)]
pub enum LyricFetch {
    /// The lyric with this id at this service.
    Ask(Provider, String),
    /// Nothing: the lyric is the empty text.
    Nothing,
}

/// Why a download cannot be started.
#[derive(Debug, Clone)]
pub enum DownloadError {
    /// The song has no id at its service.
    NoSongId,
    /// The id of the song is not the number that the service wants.
    BadSongId(std::num::ParseIntError),
}

impl DownloadError {
    /// The failure in words.
    pub fn to_string(&self) -> (r: String)
        ensures
            self is NoSongId ==> r@ == "error downloading because no song id is found"@,
    {
        match self {
            DownloadError::NoSongId => String::from_str(
                "error downloading because no song id is found",
            ),
            DownloadError::BadSongId(e) => crate::text::int_error_text(e),
        }
    }
}

/// What has to be done to download a song, as far as the song itself says
/// it.
#[derive(Debug, Clone)]
pub struct DownloadPlan {
    pub provider: Provider,
    /// The id of the song at its service.
    pub song_id: String,
    /// The id as a number, for the service that wants one.
    pub song_number: Option<u64>,
    /// All artists, one after the other.
    pub artists: String,
    pub title: String,
    pub album: String,
    /// The pattern of the name of the file that is written.
    pub filename: String,
    /// Where the finished file stands.
    pub target: String,
    /// The id of the picture at the service.
    pub pic_id: Option<String>,
}

/// All of `parts`, one after the other.
pub open spec fn concat_all(parts: Seq<String>) -> Seq<char>
    decreases parts.len(),
{
    if parts.len() == 0 {
        Seq::<char>::empty()
    } else {
        concat_all(parts.drop_last()) + parts.last()@
    }
}

/// The text of `value`, or `default` where there is none.
pub open spec fn text_or(value: Option<String>, default: Seq<char>) -> Seq<char> {
    match value {
        Some(t) => t@,
        None => default,
    }
}

/// The pattern of the name of the downloaded file.
pub open spec fn filename_pattern(artists: Seq<char>, title: Seq<char>) -> Seq<char> {
    artists + "-"@ + title + ".%(ext)s"@
}

/// Where the finished file stands.
pub open spec fn target_path(parent: Seq<char>, artists: Seq<char>, title: Seq<char>) -> Seq<char> {
    parent + "/"@ + artists + "-"@ + title + ".mp3"@
}

/// One line of the list of songs: the four columns with a space between.
pub open spec fn line_text(
    artists: Seq<char>,
    title: Seq<char>,
    album: Seq<char>,
    provider: Seq<char>,
) -> Seq<char> {
    artists + " "@ + title + " "@ + album + " "@ + provider
}

/// What `unicode_pad` with alignment to the left and with truncation makes
/// of `text` for a column of `width` cells.
pub uninterp spec fn unicode_pad_left(text: Seq<char>, width: nat) -> Seq<char>;

/// `UnicodeTruncateStr::unicode_pad` with `Alignment::Left` and
/// truncation: `text` cut or filled up with spaces so that it takes `width`
/// cells of the terminal.
#[verifier::external_body]
fn pad_left(text: &str, width: usize) -> (r: String)
    ensures
        r@ == unicode_pad_left(text@, width as nat),
{
    text.unicode_pad(width, Alignment::Left, true).into_owned()
}

/// The text of `value`, or `default` where there is none.
fn text_or_exec(value: &Option<String>, default: &str) -> (r: String)
    ensures
        r@ == text_or(*value, default@),
{
    match value {
        Some(t) => t.clone(),
        None => String::from_str(default),
    }
}

/// One line of the list of songs: the four columns with a space between.
pub fn format_line(artists: &str, title: &str, album: &str, provider: &str) -> (r: String)
    ensures
        r@ == line_text(artists@, title@, album@, provider@),
{
    let mut r = String::from_str(artists);
    r.append(" ");
    r.append(title);
    r.append(" ");
    r.append(album);
    r.append(" ");
    r.append(provider);
    r
}

impl SongTag {
    /// All artists, one after the other.
    pub fn artists(&self) -> (r: String)
        ensures
            r@ == concat_all(self.artist@),
    {
        let mut artists = String::new();
        let mut i: usize = 0;
        assert(self.artist@.take(0) =~= Seq::<String>::empty());
        while i < self.artist.len()
            invariant
                i <= self.artist.len(),
                artists@ == concat_all(self.artist@.take(i as int)),
            decreases self.artist.len() - i,
        {
            assert(self.artist@.take(i as int + 1).drop_last() =~= self.artist@.take(i as int));
            artists.append(self.artist[i].as_str());
            i += 1;
        }
        assert(self.artist@.take(i as int) =~= self.artist@);
        artists
    }

    /// What has to be asked to get the lyric: the lyric with the song's
    /// lyric id at its service, where the service is known and the song has
    /// such an id, and else nothing.
    pub fn fetch_lyric(&self) -> (r: LyricFetch)
        requires
            self.service_provider is Some,
        ensures
            match (provider_of(self.service_provider->0@), self.lyric_id) {
                (Some(p), Some(id)) => r matches LyricFetch::Ask(q, asked) && q == p && asked@
                    == id@,
                _ => r is Nothing,
            },
    {
        let name = match &self.service_provider {
            Some(s) => s.as_str(),
            None => "",
        };
        match (provider_of_exec(name), &self.lyric_id) {
            (Some(p), Some(id)) => LyricFetch::Ask(p, id.clone()),
            _ => LyricFetch::Nothing,
        }
    }

    /// What has to be done to download the song into the directory
    /// `parent`. `Ok(None)` where the service is not known. The song needs
    /// an id, and at Netease this id has to be a number.
    pub fn download(&self, parent: &str) -> (r: Result<Option<DownloadPlan>, DownloadError>)
        requires
            self.service_provider is Some,
        ensures
            match provider_of(self.service_provider->0@) {
                None => r matches Ok(None),
                Some(p) => match self.song_id {
                    None => r matches Err(DownloadError::NoSongId),
                    Some(id) => if p == Provider::Netease && parse_decimal_u64_of(id@) is None {
                        r matches Err(DownloadError::BadSongId(_))
                    } else {
                        r matches Ok(Some(plan)) && self.plans(parent@, p, plan)
                    },
                },
            },
    {
        let name = match &self.service_provider {
            Some(s) => s.as_str(),
            None => "",
        };
        let provider = match provider_of_exec(name) {
            Some(p) => p,
            None => {
                return Ok(None);
            },
        };
        let song_id = match &self.song_id {
            Some(id) => id.clone(),
            None => {
                return Err(DownloadError::NoSongId);
            },
        };
        let song_number = match provider {
            Provider::Netease => match parse_u64(song_id.as_str()) {
                Ok(n) => Some(n),
                Err(e) => {
                    return Err(DownloadError::BadSongId(e));
                },
            },
            Provider::Kugou => None,
        };
        let artists = self.artists();
        let title = text_or_exec(&self.title, "Unknown Title");
        let album = text_or_exec(&self.album, "N/A");
        let mut filename = artists.clone();
        filename.append("-");
        filename.append(title.as_str());
        filename.append(".%(ext)s");
        let mut target = String::from_str(parent);
        target.append("/");
        target.append(artists.as_str());
        target.append("-");
        target.append(title.as_str());
        target.append(".mp3");
        Ok(
            Some(
                DownloadPlan {
                    provider,
                    song_id,
                    song_number,
                    artists,
                    title,
                    album,
                    filename,
                    target,
                    pic_id: clone_opt_string(&self.pic_id),
                },
            ),
        )
    }

    /// `plan` is the plan to download this song from `provider` into
    /// `parent`.
    pub open spec fn plans(&self, parent: Seq<char>, provider: Provider, plan: DownloadPlan) -> bool {
        &&& plan.provider == provider
        &&& self.song_id matches Some(id) && plan.song_id@ == id@
        &&& plan.song_number == if provider == Provider::Netease {
            parse_decimal_u64_of(plan.song_id@)
        } else {
            None
        }
        &&& plan.artists@ == concat_all(self.artist@)
        &&& plan.title@ == text_or(self.title, "Unknown Title"@)
        &&& plan.album@ == text_or(self.album, "N/A"@)
        &&& plan.filename@ == filename_pattern(plan.artists@, plan.title@)
        &&& plan.target@ == target_path(parent, plan.artists@, plan.title@)
        &&& opt_text(plan.pic_id) == opt_text(self.pic_id)
    }

    /// The line that shows the song in a list: artists, title, album and
    /// service, each cut or filled up to the width of its column.
    pub fn to_string(&self) -> (r: String)
        ensures
            r@ == line_text(
                unicode_pad_left(concat_all(self.artist@), 10),
                unicode_pad_left(text_or(self.title, "Unknown Title"@), 16),
                unicode_pad_left(text_or(self.album, "Unknown Album"@), 16),
                unicode_pad_left(text_or(self.service_provider, "unknown source"@), 7),
            ),
    {
        let artists = self.artists();
        let artists_truncated = pad_left(artists.as_str(), 10);
        let title = text_or_exec(&self.title, "Unknown Title");
        let title_truncated = pad_left(title.as_str(), 16);
        let album = text_or_exec(&self.album, "Unknown Album");
        let album_truncated = pad_left(album.as_str(), 16);
        let service_provider = text_or_exec(&self.service_provider, "unknown source");
        let service_provider_truncated = pad_left(service_provider.as_str(), 7);
        format_line(
            artists_truncated.as_str(),
            title_truncated.as_str(),
            album_truncated.as_str(),
            service_provider_truncated.as_str(),
        )
    }
}

/// The number that the id `id` writes, if it writes one.
pub open spec fn parse_decimal_u64_of(id: Seq<char>) -> Option<u64> {
    crate::text::parse_decimal_u64(id)
}

/// A song of the library.
#[derive(Debug, Clone)]
pub struct Song {
    pub title: Option<String>,
    pub artist: Option<String>,
    pub file: Option<String>,
}

/// What is searched for at the lyric services: title and artist, or, where
/// the two together are shorter than three bytes and the file has a name,
/// that name.
pub open spec fn search_text(title: Seq<char>, artist: Seq<char>, file_stem: Option<Seq<char>>) -> Seq<
    char,
> {
    if vstd::utf8::encode_utf8(title + " "@ + artist).len() < 3 && file_stem is Some {
        file_stem->0
    } else {
        title + " "@ + artist
    }
}

impl Song {
    /// What is searched for at the lyric services to find this song.
    /// `file_stem` is the name of the song's file without its extension, if
    /// the song has a file.
    pub fn lyric_options(&self, file_stem: Option<&str>) -> (r: String)
        requires
            self.title is Some,
            self.artist is Some,
        ensures
            r@ == search_text(
                self.title->0@,
                self.artist->0@,
                match file_stem {
                    Some(s) => Some(s@),
                    None => None,
                },
            ),
    {
        let mut search_str = match &self.title {
            Some(t) => t.clone(),
            None => String::new(),
        };
        search_str.append(" ");
        match &self.artist {
            Some(a) => {
                search_str.append(a.as_str());
            },
            None => {},
        }
        if search_str.as_str().as_bytes().len() < 3 {
            match file_stem {
                Some(stem) => {
                    search_str = String::from_str(stem);
                },
                None => {},
            }
        }
        search_str
    }
}

} // verus!
