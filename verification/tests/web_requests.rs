use stremio_shell_ng::web_requests::{
    open_external_link, pipe_open_media, play_external_launch, route_web_request, ExternalPlayer,
    WebAction,
};

#[test]
fn handshake_without_method() {
    assert!(matches!(route_web_request(None, true, None, ""), WebAction::SendHandshake));
    assert!(matches!(route_web_request(None, false, None, ""), WebAction::Ignore));
}

#[test]
fn window_requests() {
    assert!(matches!(route_web_request(Some("win-set-visibility"), false, None, ""), WebAction::ToggleFullScreen));
    assert!(matches!(route_web_request(Some("quit"), false, None, ""), WebAction::Quit));
    assert!(matches!(route_web_request(Some("win-focus"), false, None, ""), WebAction::Focus));
    assert!(matches!(route_web_request(Some("app-error"), false, Some("boom"), ""), WebAction::AppError));
    assert!(matches!(
        route_web_request(Some("autoupdater-notif-clicked"), false, None, ""),
        WebAction::RunUpdateSetup
    ));
}

#[test]
fn app_ready_opens_the_start_media() {
    match route_web_request(Some("app-ready"), false, None, "magnet:?xt=abc") {
        WebAction::AppReady { open_media: Some(m) } => assert_eq!(m, "magnet:?xt=abc"),
        other => panic!("unexpected {:?}", other),
    }
    assert!(matches!(
        route_web_request(Some("app-ready"), false, None, ""),
        WebAction::AppReady { open_media: None }
    ));
}

#[test]
fn player_methods_and_unknown_ones() {
    assert!(matches!(route_web_request(Some("mpv-command"), false, None, ""), WebAction::PlayerCommand));
    assert!(matches!(route_web_request(Some("mpv-"), false, None, ""), WebAction::PlayerCommand));
    assert!(matches!(route_web_request(Some("mpv"), false, None, ""), WebAction::Unsupported));
    assert!(matches!(route_web_request(Some("Quit"), false, None, ""), WebAction::Unsupported));
    assert!(matches!(route_web_request(Some(""), true, None, ""), WebAction::Unsupported));
}

#[test]
fn open_external_allows_web_links_only() {
    assert_eq!(open_external_link("https://www.stremio.com").as_deref(), Some("https://www.stremio.com"));
    assert_eq!(open_external_link("HTTP://Example.org/A").as_deref(), Some("HTTP://Example.org/A"));
    assert_eq!(open_external_link("rtps://host").as_deref(), Some("rtps://host"));
    assert_eq!(open_external_link("Ipfs://cid").as_deref(), Some("Ipfs://cid"));
    assert_eq!(open_external_link("ftp://files"), Some("ftp://files".to_string()));
    assert_eq!(open_external_link("file:///C:/Windows/calc.exe"), None);
    assert_eq!(open_external_link("calc"), None);
    assert_eq!(open_external_link(""), None);
    assert_eq!(open_external_link("http:/x"), None);
}

#[test]
fn open_external_request() {
    match route_web_request(Some("open-external"), false, Some("https://a.b"), "") {
        WebAction::OpenExternal { url: Some(u) } => assert_eq!(u, "https://a.b"),
        other => panic!("unexpected {:?}", other),
    }
    assert!(matches!(
        route_web_request(Some("open-external"), false, Some("javascript:x"), ""),
        WebAction::OpenExternal { url: None }
    ));
    assert!(matches!(
        route_web_request(Some("open-external"), false, None, ""),
        WebAction::OpenExternal { url: None }
    ));
}

#[test]
fn play_external_with_mpv_strips_the_scheme() {
    match play_external_launch("MPV://https://host/video.mkv") {
        Some(ExternalPlayer::Mpv { stream_url }) => assert_eq!(stream_url, "https://host/video.mkv"),
        other => panic!("unexpected {:?}", other),
    }
    match play_external_launch("mpv://") {
        Some(ExternalPlayer::Mpv { stream_url }) => assert_eq!(stream_url, ""),
        other => panic!("unexpected {:?}", other),
    }
}

#[test]
fn play_external_with_other_players_opens_the_link() {
    match play_external_launch("vlc://https://host/v") {
        Some(ExternalPlayer::Open { target }) => assert_eq!(target, "vlc://https://host/v"),
        other => panic!("unexpected {:?}", other),
    }
    match play_external_launch("PotPlayer://x") {
        Some(ExternalPlayer::Open { target }) => assert_eq!(target, "PotPlayer://x"),
        other => panic!("unexpected {:?}", other),
    }
}

#[test]
fn play_external_refuses_other_links() {
    assert!(play_external_launch("").is_none());
    assert!(play_external_launch("https://host/v").is_none());
    assert!(play_external_launch("mpv:/x").is_none());
    assert!(matches!(
        route_web_request(Some("play-external"), false, None, ""),
        WebAction::PlayExternal { launch: None }
    ));
    assert!(matches!(
        route_web_request(Some("play-external"), false, Some("vlc://a"), ""),
        WebAction::PlayExternal { launch: Some(ExternalPlayer::Open { .. }) }
    ));
}

#[test]
fn pipe_messages_must_be_utf8() {
    assert_eq!(pipe_open_media(b"magnet:?xt=1").as_deref(), Some("magnet:?xt=1"));
    assert_eq!(pipe_open_media("héllo".as_bytes()).as_deref(), Some("héllo"));
    assert_eq!(pipe_open_media(&[0x66, 0xff, 0x67]), None);
    assert_eq!(pipe_open_media(&[]).as_deref(), Some(""));
}

use stremio_shell_ng::web_requests::{mpv_candidates, mpv_launch_args};

#[test]
fn mpv_options_end_before_the_stream() {
    assert_eq!(mpv_launch_args("--script=evil.lua"), vec!["--", "--script=evil.lua"]);
    assert_eq!(mpv_launch_args("https://h/v"), vec!["--", "https://h/v"]);
}

#[test]
fn mpv_candidate_paths() {
    assert_eq!(
        mpv_candidates(Some("C:\\Program Files"), Some("C:\\Program Files (x86)"), Some("C:\\Users\\u\\AppData\\Local")),
        vec![
            "C:\\Program Files\\mpv\\mpv.exe",
            "C:\\Program Files (x86)\\mpv\\mpv.exe",
            "C:\\Users\\u\\AppData\\Local\\Programs\\mpv\\mpv.exe",
            "C:\\Users\\u\\AppData\\Local\\mpv\\mpv.exe",
            "mpv.exe",
        ]
    );
    assert_eq!(mpv_candidates(None, None, None), vec!["mpv.exe"]);
    assert_eq!(mpv_candidates(None, Some("D:"), None), vec!["D:\\mpv\\mpv.exe", "mpv.exe"]);
}
