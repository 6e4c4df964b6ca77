# stremio_shell_ng

The decisions of the Stremio desktop shell (a Windows window that hosts the web UI
and an embedded mpv player), as a library whose functions carry contracts proved
with Verus.

- `src/geometry.rs`: points, rectangles, window placements.
- `src/window_style.rs`: the main window's style: state bits sent to the web UI,
  centring, full screen on and off (with the rectangle and styles kept and given
  back), staying on top, caption colours.
- `src/window_settings.rs`: the placement kept between runs and given back.
- `src/web_requests.rs`: what the shell does on each request of the web UI,
  including which links may be opened and which streams played outside.
- `src/updater.rs`: which URL is asked for updates.
- `src/player.rs`: how the player answers mpv's events and the web UI's requests.
- `src/text.rs`: text comparisons and the calls into `std` for lowercase and UTF-8.

`app/` holds what talks to the system: the settings file, mpv and its threads, the
launching of outside programs and, on Windows, the Win32 calls on the window.
