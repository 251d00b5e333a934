# govee_ble

Packets that Govee appliances exchange over Bluetooth Low Energy, and the MQTT
side of the H7105 fan, written and proved in Verus.

- `src/frame.rs`, `src/param.rs`: frames, checksums, fields and layouts
- `src/humidifier.rs`, `src/power.rs`, `src/nightlight.rs`, `src/fan_packets.rs`,
  `src/oscillation.rs`, `src/h5086.rs`, `src/scene.rs`: the values that travel
- `src/packet.rs`, `src/codec.rs`, `src/manager.rs`: packets of every type, and
  which product understands which of them
- `src/bytes.rs`, `src/base64.rs`: raw bytes and their base64 text
- `src/fan.rs`: announcement, state and requests of the fan
- `src/laws.rs`: what holds of packets of every type
- `app/`: the service around the library (serde, MQTT, floating point)

Taken on trust are the contracts on base64 as `data_encoding` does it
(`src/base64.rs`). The calls of a `parking_lot` lock (`src/manager.rs`) and of
std's formatter (`src/bytes.rs`) are made without any claim of what they do.
