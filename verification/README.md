# benchvolt_poc

Control logic of a five-channel USB-PD bench power supply, verified with Verus:
the application reducer, power sequencing and protection, power-delivery
negotiation, waveform generation, settings journal, host protocol, user
interface, and the boot chain that updates the firmware.

## Layout

- `src/` holds the library. Everything that decides or computes stands here, with
  its contract.
  - `app`, `reducer`, `reducer_laws`, `dispatch`: state, actions, transitions.
  - `power`, `executor`, `protection`, `monitoring`, `tps55289`, `power_laws`:
    power effects and how the hardware is driven through them.
  - `pd`, `negotiator`: power-delivery messages and negotiation.
  - `awg`, `arb`, `waveform`: built-in and uploaded waveforms.
  - `settings`, `record`, `settings_store`: what is kept, and its journal.
  - `usb_command`, `usb_protocol`, `usb_output`, `protocol`, `text`: the host's
    commands and their answers.
  - `input_policy`, `encoder_queue`: encoder and button.
  - `canvas`, `view*`, `ui_content`, `display_dma`, `framebuffer`: what is painted,
    and how it reaches the display.
  - `firmware`, `firmware_service`, `load`: the decisions of the firmware loop.
  - `board/`: pins and buses, as sequences of steps.
  - `boot_shared/`, `boot_core/`, `boot_usb/`, `boot_display`, `boot_seal`,
    `reset_cause`, `reset_marker`, `flash_probe`: the boot chain.
- `tests/` runs the library.
- `app/` is the program around it: registers, interrupts, drawing, files.

## How hardware is modelled

The library does no I/O. Where work on the hardware and decisions alternate, the
library names the next step from what is known so far, and the program carries
it out and hands the reply back: driver operations, bus transactions, flash
plans, display transfers, USB polls. Contracts of the power sequencing speak of
the record of a driver: the operations it was handed with their outcomes, where
among them pending work was cancelled, and the time that it goes by.

## What is trusted

`heapless::Deque` carries encoder events, `heapless::String` carries a label, and
`embedded_graphics` clips rectangles. The few functions that call them state what
they rely on and are not proved; each is marked in its module.
