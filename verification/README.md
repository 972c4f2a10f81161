# starleds

Stars that twinkle on a strip of LEDs, in a colour that is chosen over MQTT.

- `src/` is the verified library.
  - `color`: the colour of an LED, and the cell that tasks share it through.
  - `patterns`: what a pattern is; `patterns::stars`, the twinkling stars;
    `patterns::laws`, what holds of them over frames and over a star's life.
  - `gamma`, `light`: from a light state to the colour to show.
  - `mqtt`: what follows from each message.
  - `connection`: the decisions of the Wi-Fi task.
  - `startup`: the decisions of the main task until the network is up.
- `app/` is the firmware for an ESP32-C3: it drives the radio, the strip and the
  timers, and asks the library what to do.

Where and how a star lights up is drawn from a small generator of the library's
own. The hardware's random numbers enter only through the seed that it starts
from.

The library believes, without proof, what the functions marked
`#[verifier::external_body]` say of heapless, rand and smart-leds.
