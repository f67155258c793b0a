# camera

The decision core of a camera application: what is drawn, from what, and with
which arguments, as functions on plain values whose contracts are proved with
Verus.

## What is in `src/`

| Module | What it decides |
| --- | --- |
| `blur` | Pass counts and offsets of the frosted blur, and the steps of a run |
| `frame` | How the pixels of a frame reach the GPU, format by format |
| `pipeline` | Which frames are uploaded, shared, or skipped; which textures, bindings and blurs are still good |
| `primitive` | What a widget needs before it is drawn, and what it asks to have drawn |
| `draw` | The passes that draw it |
| `uniform`, `words` | The arguments of a pass, word by word and byte by byte |
| `setup` | How the render pipelines are put together |
| `display_orientation` | Which way up the display is, and when to report it |
| `config` | Settings, their defaults, and what is offered on which desktop |
| `model`, `bar_layout`, `insets` | Where the bars stand and what they take from the preview |
| `screen`, `top_bar`, `tools`, `zoom` | What stands on the screen, in the top bar, in the tools menu, and on the zoom chip |
| `startup`, `launch` | The startup clock and the window's first size |
| `bits`, `text` | Single-precision values by their bit pattern; decimal and trimmed text |

Public proof functions named `law_..` state what holds across functions: that a
frame is uploaded once for all its consumers, that two blurs never share a
texture, that a reflected display is never reported, and so on.

Floating-point values pass through as `bits::F32`. They are laid out, ordered and
compared exactly, made from whole numbers and rounded to them, and never added.

## What is in `app/`

The renderer's own calls, the compositor connection, command line arguments,
stored settings, and the floating-point geometry of the fit. Shader sources are
read at run time from the directory that `CAMERA_SHADER_DIR` names.

## Trusted calls

Two outside calls stand behind contracts that are taken on trust:
`bytemuck::cast_slice` in `words`, and the decoding of an output's transform by
`wayland_client` in `display_orientation`.
