use vstd::prelude::*;
use vstd::string::*;
use vstd::utf8::*;

use crate::text::{has_prefix, opt_text_view, lowercase, starts_with, str_equals, to_lowercase, utf8_text};

verus! {

/// How a stream is handed to a player outside the shell.
#[derive(Debug)]
pub enum ExternalPlayer {
    /// mpv is started on the stream that follows the `mpv://` scheme.
    Mpv { stream_url: String },
    /// The link is opened by the program that the system associates with it.
    Open { target: String },
}

/// What the shell does on a request of the web UI.
#[derive(Debug)]
pub enum WebAction {
    /// Answer the handshake with the shell's data.
    SendHandshake,
    /// Switch full screen.
    ToggleFullScreen,
    /// Quit the shell.
    Quit,
    /// Hide the splash screen, report the window visible, start the update checks and,
    /// when the shell was started on a media, open it.
    AppReady { open_media: Option<String> },
    /// Hide the splash screen and report the web UI's error.
    AppError,
    /// Open a link with the system, when it is one of the allowed kinds.
    OpenExternal { url: Option<String> },
    /// Play a stream in an outside player, when it is one of the allowed kinds.
    PlayExternal { launch: Option<ExternalPlayer> },
    /// Bring the window to the front.
    Focus,
    /// Run the downloaded update's setup and quit.
    RunUpdateSetup,
    /// Hand the request's arguments to the player.
    PlayerCommand,
    /// Report a request that the shell does not know.
    Unsupported,
    /// Do nothing.
    Ignore,
}

/// The view of an outside player request, over texts.
pub enum ExternalPlayerView {
    Mpv { stream_url: Seq<char> },
    Open { target: Seq<char> },
}

/// The view of a web UI request's action, over texts.
pub enum WebActionView {
    SendHandshake,
    ToggleFullScreen,
    Quit,
    AppReady { open_media: Option<Seq<char>> },
    AppError,
    OpenExternal { url: Option<Seq<char>> },
    PlayExternal { launch: Option<ExternalPlayerView> },
    Focus,
    RunUpdateSetup,
    PlayerCommand,
    Unsupported,
    Ignore,
}

impl View for ExternalPlayer {
    type V = ExternalPlayerView;

    open spec fn view(&self) -> ExternalPlayerView {
        match self {
            ExternalPlayer::Mpv { stream_url } => ExternalPlayerView::Mpv { stream_url: stream_url@ },
            ExternalPlayer::Open { target } => ExternalPlayerView::Open { target: target@ },
        }
    }
}

impl View for WebAction {
    type V = WebActionView;

    open spec fn view(&self) -> WebActionView {
        match self {
            WebAction::SendHandshake => WebActionView::SendHandshake,
            WebAction::ToggleFullScreen => WebActionView::ToggleFullScreen,
            WebAction::Quit => WebActionView::Quit,
            WebAction::AppReady { open_media } => WebActionView::AppReady {
                open_media: opt_text_view(*open_media),
            },
            WebAction::AppError => WebActionView::AppError,
            WebAction::OpenExternal { url } => WebActionView::OpenExternal {
                url: opt_text_view(*url),
            },
            WebAction::PlayExternal { launch } => WebActionView::PlayExternal {
                launch: match launch {
                    Some(p) => Some(p@),
                    None => None,
                },
            },
            WebAction::Focus => WebActionView::Focus,
            WebAction::RunUpdateSetup => WebActionView::RunUpdateSetup,
            WebAction::PlayerCommand => WebActionView::PlayerCommand,
            WebAction::Unsupported => WebActionView::Unsupported,
            WebAction::Ignore => WebActionView::Ignore,
        }
    }
}

/// The kinds of links that may be opened with the system, by their lowercase text.
pub open spec fn open_external_allowed(lc: Seq<char>) -> bool {
    ||| starts_with(lc, "http://"@)
    ||| starts_with(lc, "https://"@)
    ||| starts_with(lc, "rtp://"@)
    ||| starts_with(lc, "rtps://"@)
    ||| starts_with(lc, "ftp://"@)
    ||| starts_with(lc, "ipfs://"@)
}

/// The kinds of streams that may be played outside, by their lowercase text.
pub open spec fn play_external_allowed(lc: Seq<char>) -> bool {
    ||| starts_with(lc, "mpv://"@)
    ||| starts_with(lc, "vlc://"@)
    ||| starts_with(lc, "potplayer://"@)
}

/// The link to open for an "open-external" request with this argument, if any.
pub open spec fn open_external_target(arg: Seq<char>) -> Option<Seq<char>> {
    if open_external_allowed(lowercase(arg)) {
        Some(arg)
    } else {
        None
    }
}

/// How to play a stream for a "play-external" request with this argument, if at all:
/// an `mpv://` link starts mpv on what follows the scheme, any other allowed link is
/// opened with the system.
pub open spec fn play_external_target(arg: Seq<char>) -> Option<ExternalPlayerView> {
    let lc = lowercase(arg);
    if arg.len() > 0 && play_external_allowed(lc) {
        if starts_with(lc, "mpv://"@) {
            if arg.len() >= 6 {
                Some(ExternalPlayerView::Mpv { stream_url: arg.skip(6) })
            } else {
                None
            }
        } else {
            Some(ExternalPlayerView::Open { target: arg })
        }
    } else {
        None
    }
}

/// What the shell does on a request of the web UI: `method` is the request's method,
/// if it has one; `is_handshake` whether it is the handshake; `param` its first
/// argument's text (empty when that argument is not a text), if it has one; `command`
/// the media that the shell was started on (empty if none).
pub open spec fn route_spec(
    method: Option<Seq<char>>,
    is_handshake: bool,
    param: Option<Seq<char>>,
    command: Seq<char>,
) -> WebActionView {
    match method {
        None => if is_handshake {
            WebActionView::SendHandshake
        } else {
            WebActionView::Ignore
        },
        Some(m) => if m == "win-set-visibility"@ {
            WebActionView::ToggleFullScreen
        } else if m == "quit"@ {
            WebActionView::Quit
        } else if m == "app-ready"@ {
            WebActionView::AppReady {
                open_media: if command.len() > 0 {
                    Some(command)
                } else {
                    None
                },
            }
        } else if m == "app-error"@ {
            WebActionView::AppError
        } else if m == "open-external"@ {
            WebActionView::OpenExternal {
                url: match param {
                    Some(a) => open_external_target(a),
                    None => None,
                },
            }
        } else if m == "play-external"@ {
            WebActionView::PlayExternal {
                launch: match param {
                    Some(a) => play_external_target(a),
                    None => None,
                },
            }
        } else if m == "win-focus"@ {
            WebActionView::Focus
        } else if m == "autoupdater-notif-clicked"@ {
            WebActionView::RunUpdateSetup
        } else if starts_with(m, "mpv-"@) {
            WebActionView::PlayerCommand
        } else {
            WebActionView::Unsupported
        },
    }
}

/// The link to open for an "open-external" request: the argument itself when its
/// lowercase text starts with one of the allowed schemes.
pub fn open_external_link(arg: &str) -> (r: Option<String>)
    ensures
        opt_text_view(r) == open_external_target(arg@),
{
    let lc = to_lowercase(arg);
    let lc = lc.as_str();
    if has_prefix(lc, "http://") || has_prefix(lc, "https://") || has_prefix(lc, "rtp://")
        || has_prefix(lc, "rtps://") || has_prefix(lc, "ftp://") || has_prefix(lc, "ipfs://") {
        Some(String::from_str(arg))
    } else {
        None
    }
}

/// How to play the stream of a "play-external" request. The argument must not be
/// empty and its lowercase text must start with an allowed scheme; an `mpv://` link
/// starts mpv on the text after the scheme's six characters (a text whose lowercase
/// starts with `mpv://` starts with those six characters), any other is opened with
/// the system.
pub fn play_external_launch(arg: &str) -> (r: Option<ExternalPlayer>)
    ensures
        (match r {
            Some(p) => Some(p@),
            None => None,
        }) == play_external_target(arg@),
{
    let lc = to_lowercase(arg);
    let lc = lc.as_str();
    let len = arg.unicode_len();
    let is_mpv = has_prefix(lc, "mpv://");
    let allowed = is_mpv || has_prefix(lc, "vlc://") || has_prefix(lc, "potplayer://");
    if len > 0 && allowed {
        if is_mpv {
            if len >= 6 {
                let stream = arg.substring_char(6, len);
                proof {
                    assert(arg@.subrange(6, len as int) =~= arg@.skip(6));
                }
                Some(ExternalPlayer::Mpv { stream_url: String::from_str(stream) })
            } else {
                None
            }
        } else {
            Some(ExternalPlayer::Open { target: String::from_str(arg) })
        }
    } else {
        None
    }
}

/// What the shell does on a request of the web UI (see `route_spec`).
pub fn route_web_request(
    method: Option<&str>,
    is_handshake: bool,
    param: Option<&str>,
    command: &str,
) -> (r: WebAction)
    ensures
        r@ == route_spec(
            match method {
                Some(m) => Some(m@),
                None => None,
            },
            is_handshake,
            match param {
                Some(p) => Some(p@),
                None => None,
            },
            command@,
        ),
{
    let m = match method {
        None => {
            return if is_handshake {
                WebAction::SendHandshake
            } else {
                WebAction::Ignore
            };
        },
        Some(m) => m,
    };
    if str_equals(m, "win-set-visibility") {
        WebAction::ToggleFullScreen
    } else if str_equals(m, "quit") {
        WebAction::Quit
    } else if str_equals(m, "app-ready") {
        let open_media = if command.unicode_len() > 0 {
            Some(String::from_str(command))
        } else {
            None
        };
        WebAction::AppReady { open_media }
    } else if str_equals(m, "app-error") {
        WebAction::AppError
    } else if str_equals(m, "open-external") {
        let url = match param {
            Some(a) => open_external_link(a),
            None => None,
        };
        WebAction::OpenExternal { url }
    } else if str_equals(m, "play-external") {
        let launch = match param {
            Some(a) => play_external_launch(a),
            None => None,
        };
        WebAction::PlayExternal { launch }
    } else if str_equals(m, "win-focus") {
        WebAction::Focus
    } else if str_equals(m, "autoupdater-notif-clicked") {
        WebAction::RunUpdateSetup
    } else if has_prefix(m, "mpv-") {
        WebAction::PlayerCommand
    } else {
        WebAction::Unsupported
    }
}

/// The media to open for a message received on the single-instance pipe: the
/// message's text when it is valid UTF-8.
pub fn pipe_open_media(message: &[u8]) -> (r: Option<String>)
    ensures
        r is Some <==> valid_utf8(message@),
        r matches Some(s) ==> s@ == decode_utf8(message@),
{
    utf8_text(message)
}

/// An "open-external" request opens nothing but its own argument, and only when the
/// argument's lowercase text starts with an allowed scheme.
pub proof fn lemma_opened_links_are_allowed(
    is_handshake: bool,
    param: Option<Seq<char>>,
    command: Seq<char>,
)
    ensures
        route_spec(Some("open-external"@), is_handshake, param, command) matches WebActionView::OpenExternal { url }
            && (url matches Some(u) ==> param == Some(u) && open_external_allowed(lowercase(u))),
{
    reveal_strlit("open-external");
    reveal_strlit("win-set-visibility");
    reveal_strlit("quit");
    reveal_strlit("app-ready");
    reveal_strlit("app-error");
    assert("open-external"@[0] != "win-set-visibility"@[0]);
    assert("open-external"@[0] != "quit"@[0]);
    assert("open-external"@[0] != "app-ready"@[0]);
    assert("open-external"@[0] != "app-error"@[0]);
}

/// A launch is of the request's own argument, which is not empty and whose lowercase
/// text starts with an allowed scheme; mpv gets what follows `mpv://`, the system gets
/// the argument itself, which then is not an `mpv://` link.
pub open spec fn launch_is_allowed(param: Option<Seq<char>>, launch: Option<ExternalPlayerView>) -> bool {
    match (param, launch) {
        (_, None) => true,
        (None, Some(_)) => false,
        (Some(a), Some(ExternalPlayerView::Mpv { stream_url })) => {
            &&& a.len() > 0
            &&& play_external_allowed(lowercase(a))
            &&& starts_with(lowercase(a), "mpv://"@)
            &&& stream_url == a.skip(6)
        },
        (Some(a), Some(ExternalPlayerView::Open { target })) => {
            &&& a.len() > 0
            &&& play_external_allowed(lowercase(a))
            &&& !starts_with(lowercase(a), "mpv://"@)
            &&& target == a
        },
    }
}

/// A "play-external" request never launches an empty argument nor one whose lowercase
/// text has no allowed scheme; mpv gets what follows `mpv://`, the system gets the
/// argument itself, which then is not an `mpv://` link.
pub proof fn lemma_played_streams_are_allowed(
    is_handshake: bool,
    param: Option<Seq<char>>,
    command: Seq<char>,
)
    ensures
        route_spec(Some("play-external"@), is_handshake, param, command) matches WebActionView::PlayExternal { launch }
            && launch_is_allowed(param, launch),
{
    reveal_strlit("play-external");
    reveal_strlit("win-set-visibility");
    reveal_strlit("quit");
    reveal_strlit("app-ready");
    reveal_strlit("app-error");
    reveal_strlit("open-external");
    assert("play-external"@[0] != "win-set-visibility"@[0]);
    assert("play-external"@[0] != "quit"@[0]);
    assert("play-external"@[0] != "app-ready"@[0]);
    assert("play-external"@[0] != "app-error"@[0]);
    assert("play-external"@[0] != "open-external"@[0]);
}

/// Every method that starts with `mpv-` is handed to the player.
pub proof fn lemma_player_methods_reach_player(
    method: Seq<char>,
    is_handshake: bool,
    param: Option<Seq<char>>,
    command: Seq<char>,
)
    requires
        starts_with(method, "mpv-"@),
    ensures
        route_spec(Some(method), is_handshake, param, command) == WebActionView::PlayerCommand,
{
    reveal_strlit("mpv-");
    reveal_strlit("win-set-visibility");
    reveal_strlit("quit");
    reveal_strlit("app-ready");
    reveal_strlit("app-error");
    reveal_strlit("open-external");
    reveal_strlit("play-external");
    reveal_strlit("win-focus");
    reveal_strlit("autoupdater-notif-clicked");
    assert(method.subrange(0, 4)[0] == method[0]);
    assert("mpv-"@[0] == 'm');
    assert(method != "win-set-visibility"@ && method != "quit"@ && method != "app-ready"@
        && method != "app-error"@ && method != "open-external"@ && method != "play-external"@
        && method != "win-focus"@ && method != "autoupdater-notif-clicked"@) by {
        assert("win-set-visibility"@[0] == 'w');
        assert("quit"@[0] == 'q');
        assert("app-ready"@[0] == 'a');
        assert("app-error"@[0] == 'a');
        assert("open-external"@[0] == 'o');
        assert("play-external"@[0] == 'p');
        assert("win-focus"@[0] == 'w');
        assert("autoupdater-notif-clicked"@[0] == 'a');
    }
}

/// The media the shell was started on is opened when the web UI is ready, and only
/// when there is one.
pub proof fn lemma_start_media_opened_when_ready(
    is_handshake: bool,
    param: Option<Seq<char>>,
    command: Seq<char>,
)
    ensures
        route_spec(Some("app-ready"@), is_handshake, param, command) == (WebActionView::AppReady {
            open_media: if command.len() > 0 {
                Some(command)
            } else {
                None
            },
        }),
{
    reveal_strlit("app-ready");
    reveal_strlit("win-set-visibility");
    reveal_strlit("quit");
    assert("app-ready"@[0] != "win-set-visibility"@[0]);
    assert("app-ready"@[0] != "quit"@[0]);
}

/// The arguments mpv is started with to play a stream: `--` first, which ends mpv's
/// options, so that the stream cannot pass any, then the stream.
pub open spec fn mpv_launch_args_spec(stream_url: Seq<char>) -> Seq<Seq<char>> {
    seq!["--"@, stream_url]
}

/// A candidate program path from a directory read from the environment, if it was set.
pub open spec fn candidate_under(dir: Option<Seq<char>>, suffix: Seq<char>) -> Seq<Seq<char>> {
    match dir {
        Some(d) => seq![d + suffix],
        None => Seq::empty(),
    }
}

/// The paths tried, in order, to start mpv: under the program directories, under the
/// local application data (in `Programs` first), and last `mpv.exe` found on the path.
pub open spec fn mpv_candidates_spec(
    program_files: Option<Seq<char>>,
    program_files_x86: Option<Seq<char>>,
    local_app_data: Option<Seq<char>>,
) -> Seq<Seq<char>> {
    candidate_under(program_files, "\\mpv\\mpv.exe"@) + candidate_under(
        program_files_x86,
        "\\mpv\\mpv.exe"@,
    ) + candidate_under(local_app_data, "\\Programs\\mpv\\mpv.exe"@) + candidate_under(
        local_app_data,
        "\\mpv\\mpv.exe"@,
    ) + seq!["mpv.exe"@]
}

/// The view of an optional text slice.
pub open spec fn opt_str_view(t: Option<&str>) -> Option<Seq<char>> {
    match t {
        Some(s) => Some(s@),
        None => None,
    }
}

/// The arguments mpv is started with to play a stream.
pub fn mpv_launch_args(stream_url: &str) -> (r: Vec<String>)
    ensures
        r.deep_view() == mpv_launch_args_spec(stream_url@),
{
    let mut args: Vec<String> = Vec::new();
    args.push(String::from_str("--"));
    args.push(String::from_str(stream_url));
    proof {
        assert(args.deep_view() =~= mpv_launch_args_spec(stream_url@));
    }
    args
}

fn push_candidate(paths: &mut Vec<String>, dir: Option<&str>, suffix: &str)
    ensures
        final(paths).deep_view() == old(paths).deep_view() + candidate_under(
            opt_str_view(dir),
            suffix@,
        ),
{
    let ghost before = paths.deep_view();
    match dir {
        Some(d) => {
            paths.push(String::from_str(d).concat(suffix));
            assert(paths.deep_view() =~= before + candidate_under(opt_str_view(dir), suffix@));
        },
        None => {
            assert(paths.deep_view() =~= before + candidate_under(opt_str_view(dir), suffix@));
        },
    }
}

/// The paths tried, in order, to start mpv, from the program directories and the
/// local application data directory read from the environment (`None` when unset).
pub fn mpv_candidates(
    program_files: Option<&str>,
    program_files_x86: Option<&str>,
    local_app_data: Option<&str>,
) -> (r: Vec<String>)
    ensures
        r.deep_view() == mpv_candidates_spec(
            opt_str_view(program_files),
            opt_str_view(program_files_x86),
            opt_str_view(local_app_data),
        ),
{
    let mut paths: Vec<String> = Vec::new();
    push_candidate(&mut paths, program_files, "\\mpv\\mpv.exe");
    push_candidate(&mut paths, program_files_x86, "\\mpv\\mpv.exe");
    push_candidate(&mut paths, local_app_data, "\\Programs\\mpv\\mpv.exe");
    push_candidate(&mut paths, local_app_data, "\\mpv\\mpv.exe");
    let ghost before = paths.deep_view();
    paths.push(String::from_str("mpv.exe"));
    proof {
        assert(paths.deep_view() =~= before + seq!["mpv.exe"@]);
        assert(Seq::<Seq<char>>::empty() + before =~= before);
    }
    paths
}

/// The methods that the web UI's requests name are all different.
proof fn lemma_method_names_distinct()
    ensures
        "win-set-visibility"@ != "quit"@,
        "win-set-visibility"@ != "app-ready"@,
        "win-set-visibility"@ != "app-error"@,
        "win-set-visibility"@ != "open-external"@,
        "win-set-visibility"@ != "play-external"@,
        "win-set-visibility"@ != "win-focus"@,
        "win-set-visibility"@ != "autoupdater-notif-clicked"@,
        "quit"@ != "app-ready"@,
        "quit"@ != "app-error"@,
        "quit"@ != "open-external"@,
        "quit"@ != "play-external"@,
        "quit"@ != "win-focus"@,
        "quit"@ != "autoupdater-notif-clicked"@,
        "app-ready"@ != "app-error"@,
        "app-ready"@ != "open-external"@,
        "app-ready"@ != "play-external"@,
        "app-ready"@ != "win-focus"@,
        "app-ready"@ != "autoupdater-notif-clicked"@,
        "app-error"@ != "open-external"@,
        "app-error"@ != "play-external"@,
        "app-error"@ != "win-focus"@,
        "app-error"@ != "autoupdater-notif-clicked"@,
        "open-external"@ != "play-external"@,
        "open-external"@ != "win-focus"@,
        "open-external"@ != "autoupdater-notif-clicked"@,
        "play-external"@ != "win-focus"@,
        "play-external"@ != "autoupdater-notif-clicked"@,
        "win-focus"@ != "autoupdater-notif-clicked"@,
{
    reveal_strlit("win-set-visibility");
    reveal_strlit("quit");
    reveal_strlit("app-ready");
    reveal_strlit("app-error");
    reveal_strlit("open-external");
    reveal_strlit("play-external");
    reveal_strlit("win-focus");
    reveal_strlit("autoupdater-notif-clicked");
    assert("win-set-visibility"@[0] != "quit"@[0]);
    assert("win-set-visibility"@[0] != "app-ready"@[0]);
    assert("win-set-visibility"@[0] != "app-error"@[0]);
    assert("win-set-visibility"@[0] != "open-external"@[0]);
    assert("win-set-visibility"@[0] != "play-external"@[0]);
    assert("win-set-visibility"@[4] != "win-focus"@[4]);
    assert("win-set-visibility"@[0] != "autoupdater-notif-clicked"@[0]);
    assert("quit"@[0] != "app-ready"@[0]);
    assert("quit"@[0] != "app-error"@[0]);
    assert("quit"@[0] != "open-external"@[0]);
    assert("quit"@[0] != "play-external"@[0]);
    assert("quit"@[0] != "win-focus"@[0]);
    assert("quit"@[0] != "autoupdater-notif-clicked"@[0]);
    assert("app-ready"@[4] != "app-error"@[4]);
    assert("app-ready"@[0] != "open-external"@[0]);
    assert("app-ready"@[0] != "play-external"@[0]);
    assert("app-ready"@[0] != "win-focus"@[0]);
    assert("app-ready"@[1] != "autoupdater-notif-clicked"@[1]);
    assert("app-error"@[0] != "open-external"@[0]);
    assert("app-error"@[0] != "play-external"@[0]);
    assert("app-error"@[0] != "win-focus"@[0]);
    assert("app-error"@[1] != "autoupdater-notif-clicked"@[1]);
    assert("open-external"@[0] != "play-external"@[0]);
    assert("open-external"@[0] != "win-focus"@[0]);
    assert("open-external"@[0] != "autoupdater-notif-clicked"@[0]);
    assert("play-external"@[0] != "win-focus"@[0]);
    assert("play-external"@[0] != "autoupdater-notif-clicked"@[0]);
    assert("win-focus"@[0] != "autoupdater-notif-clicked"@[0]);
}

/// Requests whose method names a window or application action lead to that action,
/// whatever their argument, handshake flag or start media; a request without a method
/// is answered only when it is the handshake.
pub proof fn lemma_fixed_methods_ignore_arguments(
    is_handshake: bool,
    param: Option<Seq<char>>,
    command: Seq<char>,
)
    ensures
        route_spec(Some("win-set-visibility"@), is_handshake, param, command)
            == WebActionView::ToggleFullScreen,
        route_spec(Some("quit"@), is_handshake, param, command) == WebActionView::Quit,
        route_spec(Some("app-error"@), is_handshake, param, command) == WebActionView::AppError,
        route_spec(Some("win-focus"@), is_handshake, param, command) == WebActionView::Focus,
        route_spec(Some("autoupdater-notif-clicked"@), is_handshake, param, command)
            == WebActionView::RunUpdateSetup,
        route_spec(None, true, param, command) == WebActionView::SendHandshake,
        route_spec(None, false, param, command) == WebActionView::Ignore,
{
    lemma_method_names_distinct();
}

/// An "open-external" request opens its argument as it is exactly when the argument's
/// lowercase text starts with `http://`, `https://`, `rtp://`, `rtps://`, `ftp://` or
/// `ipfs://`; without an argument it opens nothing.
pub proof fn lemma_open_external_schemes(is_handshake: bool, arg: Seq<char>, command: Seq<char>)
    ensures
        ({
            let lc = lowercase(arg);
            let allowed = starts_with(lc, "http://"@) || starts_with(lc, "https://"@)
                || starts_with(lc, "rtp://"@) || starts_with(lc, "rtps://"@) || starts_with(
                lc,
                "ftp://"@,
            ) || starts_with(lc, "ipfs://"@);
            &&& allowed ==> route_spec(Some("open-external"@), is_handshake, Some(arg), command)
                == (WebActionView::OpenExternal { url: Some(arg) })
            &&& !allowed ==> route_spec(Some("open-external"@), is_handshake, Some(arg), command)
                == (WebActionView::OpenExternal { url: None })
            &&& route_spec(Some("open-external"@), is_handshake, None, command)
                == (WebActionView::OpenExternal { url: None })
        }),
{
    lemma_method_names_distinct();
}

/// A "play-external" request plays a non-empty argument whose lowercase text starts
/// with `mpv://` in mpv, on the text after those six characters; one that starts with
/// `vlc://` or `potplayer://` is opened as it is; any other argument, an empty one or
/// none, plays nothing.
pub proof fn lemma_play_external_schemes(is_handshake: bool, arg: Seq<char>, command: Seq<char>)
    ensures
        ({
            let lc = lowercase(arg);
            let r = route_spec(Some("play-external"@), is_handshake, Some(arg), command);
            &&& (arg.len() >= 6 && starts_with(lc, "mpv://"@)) ==> r == (WebActionView::PlayExternal {
                launch: Some(ExternalPlayerView::Mpv { stream_url: arg.skip(6) }),
            })
            &&& (arg.len() > 0 && (starts_with(lc, "vlc://"@) || starts_with(lc, "potplayer://"@)))
                ==> r == (WebActionView::PlayExternal {
                launch: Some(ExternalPlayerView::Open { target: arg }),
            })
            &&& (arg.len() == 0 || !(starts_with(lc, "mpv://"@) || starts_with(lc, "vlc://"@)
                || starts_with(lc, "potplayer://"@))) ==> r == (WebActionView::PlayExternal {
                launch: None,
            })
            &&& route_spec(Some("play-external"@), is_handshake, None, command)
                == (WebActionView::PlayExternal { launch: None })
        }),
{
    lemma_method_names_distinct();
    let lc = lowercase(arg);
    reveal_strlit("mpv://");
    reveal_strlit("vlc://");
    reveal_strlit("potplayer://");
    if starts_with(lc, "vlc://"@) || starts_with(lc, "potplayer://"@) {
        assert(lc.subrange(0, 6)[0] == lc[0]);
        if starts_with(lc, "vlc://"@) {
            assert("vlc://"@[0] == 'v');
        } else {
            assert(lc.subrange(0, 12)[0] == lc[0]);
            assert("potplayer://"@[0] == 'p');
        }
        assert("mpv://"@[0] == 'm');
        assert(!starts_with(lc, "mpv://"@));
    }
}

} // verus!
