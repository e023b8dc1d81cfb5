# vtx-tool

RF PA calibration and VTX table tool for OSD/VTX firmware.

The tool talks to a video transmitter (VTX) over one serial link, by MSP, and to an RF
power meter over another. It sweeps the power amplifier of the VTX through every
combination of frequency and power level, finds the bias that gives each target power and
what the power detector reads there, and writes the table back to the VTX. It also edits
VTX tables, and answers the VTX as a flight controller would.

## Layout

- `src/` is the library: all that the tool decides and computes, written in Verus. Every
  function states what it returns, and Verus proves it.
  - `msp` holds frames and payloads, `power_meter` the meters, `vtxtable` the VTX table.
  - `calibration_engine` is the sweep: `model` says what each event does to it, and `laws`
    what holds of every sweep. `calibration` is the basic sweep without limits.
  - `worker` decides what is done about commands, frames and the passing of time.
  - `pa_table`, `history`, `overlay`, `logging`, `settings` and `state` are what it works on.
  - `nav`, `calibration_page` and `vtx_table_page` say what the window shows.
  - `power`, `clock` and `text` are what everything rests on.
- `app/` is the program around the library: ports, files, the window, and arithmetic on
  measured values. A measured power enters the library as the bits of a single, and is
  only compared there.
- `tests/` runs the library, a simulated transmitter and meter included.

## Running

```
Usage: vtx-tool [OPTIONS]

Options:
      --vtx-port <VTX_PORT>
      --meter-port <METER_PORT>
      --meter-kind <METER_KIND>
      --attenuation <ATTENUATION>
      --log-level <LOG_LEVEL>      [default: debug]
      --vtx-table <VTX_TABLE>
  -h, --help                       Print help
```

With both ports and the kind of meter given, both are connected at the start.
