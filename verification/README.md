# time_control

Time controls for turn-based games (chess, go): simple delay, Fischer,
Bronstein and byo-yomi clocks, a clock that can be any of them, and a
two-player wrapper that passes the turn between two clocks. The library is
written in Verus and every operation is proved against a mathematical model
of the clock.

Layout of `src/`:

- `duration.rs` – `Duration`, a span of time whose view is a number of
  nanoseconds, with the arithmetic the clocks use.
- `control.rs` – the `TimeControl` trait: each clock's abstract state and the
  exact effect of `reset`, `turn_start`, `turn_spend` and `turn_end` on it,
  plus the promises shared by every clock.
- `simple_delay.rs`, `fischer.rs`, `bronstein.rs`, `byo_yomi.rs` – the clocks,
  their models, and proof functions for their laws.
- `any.rs` – `AnyConfig` and `AnyClock`, with the conversions between them and
  the individual clocks.
- `two_player.rs` – `TwoPlayer`.
- `countdown.rs` – `ShowCountdown` and the text a clock shows, specified
  character by character.
