# gophers-fishbowl

Firmware of a Wi-Fi temperature sensor (ESP32-C3) that publishes its readings
to an MQTT broker, split in two:

- `src/` is the verified library: the station credentials (`credentials`),
  the Wi-Fi keeper (`wifi`, with its laws in `wifi_laws`), the broker session
  (`session`, with its laws in `session_laws`) and the node's settings
  (`settings`). The keeper and the session are state machines: each step takes
  the outstanding command and the outcome the firmware reports, and gives the
  next command.
- `app/main.rs` is the firmware around it: it brings up the radio and the
  network stack, performs each command (timers, radio calls, DNS, TCP, MQTT)
  and reports the outcome back.
