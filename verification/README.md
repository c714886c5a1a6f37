# airsense

Verified core logic of an indoor air-quality station: the register-level logic of its
OPT3001 light sensor and BME688 gas sensor drivers, the decoding of its microphone samples,
and the length framing of the messages it sends to the collection server.

- `src/` is the library, written and proved with Verus.
  - `opt3001` – register fields, interrupt configuration, and the fixed-point lux encoding.
  - `bme688` – register fields, calibration coefficients, heater settings, measurement
    configurations and durations, and the driver's decisions (identification, mode switching,
    what each measurement start writes, measurement ordering).
  - `ics43434` – 24-bit sample sign extension.
  - `framing` – the varint length prefix of Protobuf messages.
- `tests/` runs the library on concrete values.
- `app/` holds what is not verified: the asynchronous I2C drivers that carry out the library's
  decisions, the floating-point compensation and scoring, and the collection server.
