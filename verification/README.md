# voxter

A push-to-talk speech-to-text tool for the desktop: hold (or latch) a hotkey,
speak, and the recording is encoded as Ogg Opus, checked for speech, sent to
the Mistral Voxtral transcription API and typed into the focused window.

`src/` is the verified library (Verus): the recording session state machine
and what each hotkey message does, the 20 ms Opus framing and the Ogg Opus
stream (headers, granule positions, serial number, packets written through
the `ogg` crate), the speech-check input, transcript and context-bias text
handling, the helper's hotkey chord detector and its event lines, the
overlay's show/hide logic (GNOME Shell over D-Bus via `zbus`, layer-shell,
and the macOS window overlay), the choice of the macOS overlay's GPU surface
format, present mode and alpha mode, and the status icon's pixels.

`app/` is the program around it: audio capture and playback, the Opus codec,
the voice activity detector, HTTP, keyboard typing, the tray, the event loop
and the floating-point drawing and level metering. Started as
`voxter-hotkey-helper` (or with `--hotkey-helper`), the same program is the
privileged helper: it feeds raw key events to the library's chord detector
(Left Control + Left Alt + Left Windows + J) and writes
`{"event":"hotkey_press"}` / `{"event":"hotkey_release"}` lines, which the
application, started normally, reads back as control messages.

`app/` carries the Linux program only. The macOS parts of the tool (the
window overlay with its GPU renderer, the menu-bar tray) are not in it, so
the library's window-overlay model (`OverlayModel`, `bottom_center_position`)
and surface choices (`surface`) have no caller there yet.
