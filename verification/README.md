# ne-g3

A G3 PLC coordinator and modem for the Microchip G3 stack, driven over the
USI serial protocol, with a TUN device that carries IPv6 between the host and
the PLC network.

The library under `src/` is verified with Verus:

- `usi`, `crc`, `common`: USI framing (escaping, CRC, the receiving state
  machine) and the commands it carries.
- `adp`, `request`, `lbp`: the ADP/MAC messages the modem sends and the
  requests sent to it, and LBP (bootstrapping) frames.
- `lbp_functions`, `lbp_manager`: EAP-PSK and the bootstrapping server that
  admits devices and hands out short addresses and keys.
- `app_manager`: the start-up state machine (stack initialisation, parameters,
  network start or discovery and join).
- `network_manager`, `ipv6_frag_manager`, `tun_interface`: the bridge between
  the TUN device and the PLC network, addresses, and IPv6 fragmentation.
- `app_config`: the settings and the IPv6 addresses derived from them.

`app/` holds the program around it: command line, settings file, the serial
port, the TUN device and the threads that move data between them.
