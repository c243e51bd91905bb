# Quiz display

Four chained MAX7219 LED matrices show, as a bar chart, how an audience votes on a quiz.

```
phones --> quiz server <-- bridge -- BLE --> firmware -- SPI --> LED matrices
```

The library under `src/` holds what the bridge and the firmware decide, verified with Verus:

| Module     | Holds                                                                          |
|------------|--------------------------------------------------------------------------------|
| `display`  | the bar chart, the blink and startup animations, and the bus operations for them |
| `chain`    | a model of the LED matrices, and what they show after those operations          |
| `firmware` | the connection and its GATT writes: votes, clear, blink, stop                   |
| `gatt`     | UUIDs, control commands, advertising data, the device address                   |
| `bridge`   | looking for the display, polling the quiz server, writing what changed          |
| `config`   | the bridge's settings                                                           |
| `blink`    | the diagnostic image: watchdog and LED                                          |

The programs under `app/` do the I/O: `main.rs` is the bridge, `firmware.rs` and `blink.rs` are the
roots of the two images for the nRF52840 SuperMini. Their target, thumbv7em-none-eabihf, has no
std, which the library links as it stands; linking an image takes a build of the library that uses
`alloc` in its place.

## BLE protocol

| Attribute | UUID                                   | Write                                        |
|-----------|----------------------------------------|----------------------------------------------|
| Service   | `00001000-b0cd-11ec-871f-d45ddf138840` |                                              |
| Votes     | `00001001-b0cd-11ec-871f-d45ddf138840` | `[A%, B%, C%, D%]`, each 0 to 100            |
| Control   | `00001002-b0cd-11ec-871f-d45ddf138840` | `[0, _]` clear, `[1, N]` blink option N (0 to 3), `[2, _]` stop blinking |
