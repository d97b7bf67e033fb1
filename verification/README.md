# uwu_companion

The decision-making core of a desktop companion pet, written in Verus and
proved against its contracts.

- `src/` is the verified library: the XP curve and levels, daily objectives,
  activity counters and the productivity score, streaks and the midnight
  rollover, achievements, the pet's mood, reminder schedules and idle
  detection, coding-session tracking and system alerts, provider selection and
  reply handling for the text generator, the prompt and the rule-based
  replies, quotes, speech planning, skins and personalities, and the text
  utilities these rest on. `src/gamification/laws.rs` and the `lemma_*`
  functions beside the operations state the properties that hold across
  calls.
- `tests/` runs the library on concrete values.
- `app/` is the runtime around it: SQLite storage, the JSON settings store,
  the system monitor, the schedulers, and the bridges to the window layer,
  the network, speech and audio, which the embedding program supplies.

Calls into `cron`, `chrono`, `rand` and `std` that the library makes stand
behind small trusted wrappers whose contracts say what those functions are
documented to do.
