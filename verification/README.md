# anonpic

Anonpic captures a region of the Windows desktop, strips the identifying
metadata from the image, and saves it or copies it to the clipboard.

`src/` is the verified library: what the application computes and decides
from plain values (the stripped bytes, the tags to write, the selection, the
label, the file names, what follows a save), each with its contract proved by
Verus.

| Module | What it decides |
| --- | --- |
| `jpeg` | Lossless removal of EXIF APP1 segments from a JPEG byte stream |
| `exif` | How EXIF leaves a file; the custom camera tags |
| `metadata` | The authoring tags written or stripped, ASCII and UTF-16 encodings |
| `geometry` | Mouse coordinates, normalized rectangles, the bounded circle |
| `overlay` | The selection overlay as a state machine over window messages |
| `drawing` | What a repaint draws, the size label's text and place |
| `pixels` | The circular mask and the BGRA and DIB buffer sizes |
| `saves` | Format, encoder, target folder, file name and what follows a save |
| `capture`, `config`, `start_menu`, `input`, `names`, `text` | Settings, the Start Menu shortcut, hotkey and tray input, random names, text helpers |

`app/` is the Windows application around the library: the Tauri shell, the
Win32 and GDI+ calls, the overlay window, the clipboard, the registry, the
random source and the file system, and the loops that drive them. `tests/` runs the library on concrete inputs.
