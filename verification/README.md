# wifi_fetch

A small Wi-Fi client for two boards. Each joins a network, blinks its light and fetches
a page from a fixed server, again and again: the ESP32-C3 over a TCP socket, with a
greeting on a tiny display, and the Pico W through an HTTP client.

- `src/` holds what the boards decide, verified with Verus: each task is a machine that
  names the operation that is due and takes its outcome. The texts, numbers and seeds
  that the boards use stand there too.
- `app/` holds the programs themselves: peripherals, timers, sockets and logging. The
  network to join is named by `SSID.txt` and `PSK.txt`, which belong beside
  `app/credentials.rs`. Build it for one board at a time, with the chip features of that
  board's crates turned on.
- `tests/` runs the machines on the host.

The Pico W expects the firmware of its radio and the country locale matrix in flash, at
the addresses in `src/picow/flash.rs`.
