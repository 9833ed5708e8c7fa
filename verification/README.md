# smtc-suite

A suite for media sessions on Windows: it listens to the System Media Transport Controls, controls
playback, captures system audio, and changes the volume of single applications.

The suite has two parts.

* `src/` is the core, written in Verus. It holds every decision: how the player state follows what a
  session reports, how commands and events are answered, which session is monitored, how a process
  and its audio session are found, how captured samples are buffered and sent, what C callers are
  handed. Handlers take an event, change their state, and return the actions that follow, in order.
  Contracts state what comes out, up to what the clock and the machine decide: which moment is the
  present, and whether a converter can be loaded. The public proof functions named `law_...` state
  what holds across functions.
* `app/` performs the actions: threads, channels, calls of the system, the C interface, and the
  arithmetic on floating-point numbers.

`tests/` runs the core on concrete values.

## Modules of the core

| Module | Subject |
| --- | --- |
| `api` | player state, snapshots, commands and updates |
| `smtc_handler`, `playback`, `track_info`, `sessions`, `tasks` | the media session handler |
| `worker`, `audio_session_monitor` | the coordinator and the monitor of audio sessions |
| `audio_capture`, `samples` | the audio capture |
| `volume_control` | processes, audio sessions, volume changes |
| `ffi` | what C callers are given and what is taken from them |
| `utils`, `conversion`, `text`, `letters`, `clock`, `error` | names, text conversion, text, time, errors |

## What is trusted

Calls into other crates and into the standard library stand behind declarations whose doc comments
say what is claimed of them: text conversion of `ferrous_opencc` (`utils`, `conversion`), time stamps
of `chrono` (`ffi`), hashing of cover art (`smtc_handler`), the clock (`clock`), character classes
and case mapping (`letters`), and `String::push` (`text`).
