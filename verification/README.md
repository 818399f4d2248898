# pigg

Configure the GPIO pins of a Raspberry Pi (or a Pi Pico) as inputs and outputs, drive the
outputs and watch the inputs, locally or from a remote GUI.

`src/` is the library, verified with Verus: every public function states what it returns or
changes in its `requires` / `ensures`, and the properties that relate several functions are
stated and proved as `law_*` proof functions.

- `hw_definition`: pin numbering, pin functions, hardware configurations, the messages that
  change them, and the descriptions of a board and its pins.
- `hw`: the 40 pin header, the pins in use on a Pi and the decisions taken when giving a pin a
  function or reading and writing its level; the details of a board read from `/proc/cpuinfo`;
  stand-ins for hosts without GPIO and for a Pi Pico.
- `device`: how a device keeps its configuration up to date with the messages of a GUI.
- `hardware_subscription`, `piggui`, `connect_dialog_handler`, `modal_handler`, `pin_layout`,
  `pin_state`, `layout`: the state and the decisions of the GUI.
- `discovery`: devices found over USB, mDNS (through the TXT properties of `mdns-sd`) or
  iroh-net, and the registry of the devices found.
- `piglet`: the decisions of the device program (another instance running, what it announces).
- `gpio`: the first model of the header and its configuration.
- `text`: searching, trimming and parsing text.

`tests/` exercise the library on concrete values.

`app/` is `piglet`, the program around the library: command line, files, the network, mDNS
and the GPIO pins themselves.
