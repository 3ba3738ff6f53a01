# http_node

The verified core of a small HTTP server that runs on an ESP32 board with an
AXP2101 power management unit.

- `src/` is the library, verified with Verus:
  - `encoding`: bincode's encoding of a byte slice, and the call into bincode
    that writes it into a buffer;
  - `http`: HTTP responses and their builder, and their encoding;
  - `application_layer`: the answer to a request, parsed with httparse;
  - `network`: what the HTTP task does after a socket read, and the steps
    that bring the WiFi station up;
  - `pmu` and `startup`: the power management unit's regulators and its
    start-up sequence.
- `app/` is the firmware around it: the embassy tasks, the socket, radio and
  I2C operations, and the hardware set-up.
- `tests/` runs the library on concrete values.
