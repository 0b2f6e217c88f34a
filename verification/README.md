# ipmicfg

An IPMI/BMC command-line tool for initial configuration, monitoring and
inventory, with a core that is verified by Verus.

- `src/` is the verified library. It builds requests, decodes responses and
  renders reports. A command that takes more than one exchange with the
  controller is a state machine: `action` names what it waits for, `advance`
  takes what came of it and returns the lines to print. The library never
  touches a device, a socket or a terminal.
- `app/` is the program: arguments, the connection (a local device or RMCP+),
  prompts and files. It performs the actions that the machines ask for.
- `tests/` runs the library on concrete values.

| Modules | What they hold |
| --- | --- |
| `text`, `number`, `bytes`, `calendar`, `clock`, `assoc` | text, numbers, dates and a small map |
| `cli`, `cmd::dispatch` | arguments, and which conversation they ask for |
| `conn`, `sdr`, `event` | requests and replies, the SDR repository walk, records |
| `dialog`, `ui` | actions and events, colors, tables |
| `fru`, `fru_read` | FRU images and reading them |
| `cmd::sel*`, `cmd::fujitsu` | the System Event Log |
| `cmd::sensors`, `cmd::sensor_run`, `cmd::status` | sensors and the overview |
| `cmd::inventory*` | devices and their FRU data |
| `cmd::lan*` | LAN settings |
| `cmd::user*`, `cmd::boot`, `cmd::power`, `cmd::identify`, `cmd::bmc`, `cmd::raw`, `cmd::simple` | the commands of a few steps |

Record decoding and event texts come from `ipmi-rs`, and RFC 3339 times from
`time`. The functions that call them carry contracts that are taken on trust;
each says in its doc comment what it claims.
