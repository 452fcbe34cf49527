use termusic::lyric::{
    format_line, provider_of_exec, DownloadError, LyricFetch, Provider, Song, SongTag,
};

fn tag(provider: &str) -> SongTag {
    SongTag {
        artist: vec!["Ann".to_string(), "Bob".to_string()],
        title: Some("Song".to_string()),
        album: None,
        lang_ext: None,
        service_provider: Some(provider.to_string()),
        song_id: Some("123".to_string()),
        lyric_id: Some("L9".to_string()),
        url: None,
        pic_id: Some("pic".to_string()),
    }
}

#[test]
fn provider_names() {
    assert_eq!(provider_of_exec("kugou"), Some(Provider::Kugou));
    assert_eq!(provider_of_exec("netease"), Some(Provider::Netease));
    assert_eq!(provider_of_exec("Netease"), None);
    assert_eq!(provider_of_exec(""), None);
}

#[test]
fn lyric_is_asked_of_the_song_s_service() {
    match tag("kugou").fetch_lyric() {
        LyricFetch::Ask(p, id) => {
            assert_eq!(p, Provider::Kugou);
            assert_eq!(id, "L9");
        }
        LyricFetch::Nothing => panic!("nothing"),
    }
    assert!(matches!(
        tag("netease").fetch_lyric(),
        LyricFetch::Ask(Provider::Netease, _)
    ));
    assert!(matches!(tag("elsewhere").fetch_lyric(), LyricFetch::Nothing));
    let mut t = tag("kugou");
    t.lyric_id = None;
    assert!(matches!(t.fetch_lyric(), LyricFetch::Nothing));
}

#[test]
fn download_plan_for_netease() {
    let plan = tag("netease").download("/home/me/Music").unwrap().unwrap();
    assert_eq!(plan.provider, Provider::Netease);
    assert_eq!(plan.song_id, "123");
    assert_eq!(plan.song_number, Some(123));
    assert_eq!(plan.artists, "AnnBob");
    assert_eq!(plan.title, "Song");
    assert_eq!(plan.album, "N/A");
    assert_eq!(plan.filename, "AnnBob-Song.%(ext)s");
    assert_eq!(plan.target, "/home/me/Music/AnnBob-Song.mp3");
    assert_eq!(plan.pic_id, Some("pic".to_string()));
}

#[test]
fn download_plan_for_kugou() {
    let mut t = tag("kugou");
    t.song_id = Some("abc".to_string());
    t.title = None;
    t.album = Some("Album".to_string());
    t.artist = vec![];
    t.pic_id = None;
    let plan = t.download("dir").unwrap().unwrap();
    assert_eq!(plan.provider, Provider::Kugou);
    assert_eq!(plan.song_id, "abc");
    assert_eq!(plan.song_number, None);
    assert_eq!(plan.artists, "");
    assert_eq!(plan.title, "Unknown Title");
    assert_eq!(plan.album, "Album");
    assert_eq!(plan.filename, "-Unknown Title.%(ext)s");
    assert_eq!(plan.target, "dir/-Unknown Title.mp3");
    assert_eq!(plan.pic_id, None);
}

#[test]
fn download_needs_a_song_id() {
    let mut t = tag("netease");
    t.song_id = None;
    let e = t.download("dir").unwrap_err();
    assert!(matches!(e, DownloadError::NoSongId));
    assert_eq!(
        e.to_string(),
        "error downloading because no song id is found"
    );
    t.song_id = Some("12a".to_string());
    assert!(matches!(
        t.download("dir"),
        Err(DownloadError::BadSongId(_))
    ));
    t.song_id = Some("18446744073709551616".to_string());
    assert!(matches!(
        t.download("dir"),
        Err(DownloadError::BadSongId(_))
    ));
    t.song_id = Some("+18446744073709551615".to_string());
    assert_eq!(
        t.download("dir").unwrap().unwrap().song_number,
        Some(u64::MAX)
    );
    assert!(matches!(tag("elsewhere").download("dir"), Ok(None)));
}

#[test]
fn line_is_padded_to_the_columns() {
    let mut t = tag("netease");
    t.title = Some("A very long title of a song".to_string());
    assert_eq!(
        t.to_string(),
        "AnnBob     A very long titl Unknown Album    netease"
    );
    let t = SongTag {
        artist: vec!["你好吗你好吗".to_string()],
        title: None,
        album: Some("".to_string()),
        lang_ext: None,
        service_provider: None,
        song_id: None,
        lyric_id: None,
        url: None,
        pic_id: None,
    };
    assert_eq!(
        t.to_string(),
        "你好吗你好 Unknown Title                     unknown"
    );
    assert_eq!(format_line("a", "b", "c", "d"), "a b c d");
    assert_eq!(format_line("", "", "", ""), "   ");
}

#[test]
fn search_text_for_a_song() {
    let mut s = Song {
        title: Some("Title".to_string()),
        artist: Some("Artist".to_string()),
        file: Some("/music/file.mp3".to_string()),
    };
    assert_eq!(s.lyric_options(Some("file")), "Title Artist");
    s.title = Some("".to_string());
    s.artist = Some("x".to_string());
    assert_eq!(s.lyric_options(Some("file")), "file");
    assert_eq!(s.lyric_options(None), " x");
    s.artist = Some("xy".to_string());
    assert_eq!(s.lyric_options(Some("file")), " xy");
    s.artist = Some("é".to_string());
    assert_eq!(s.lyric_options(Some("file")), " é");
}
