# esp_panels

The verified logic of three small ESP32 firmwares with a display and a Slint user
interface: the CYD 3248S035, the LilyGo T-Display S3 and the M5StickC Plus2.

- `src/` is the library, checked by Verus: buttons, pages, themes and counters of each
  board (`cyd`, `stickc`, `tdisplay`), the way from pixels to bytes and transfers
  (`tdisplay::frame`, `line`, `color`), display start-up (`tdisplay::st7789`, `panel`),
  time (`clock`) and the state that tasks share (`shared`).
- `tests/` runs the library on a host.
- `app/` is the firmware: pins, buses, timers and the user interface. It needs an ESP32
  toolchain and the `.slint` files of the boards.
