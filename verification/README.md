# Word Waker

A macOS wake-word daemon: microphone capture → MFCC extraction → Core ML
inference → sliding vote → notification on a Unix domain socket.

## Layout

- `src/` — the library, verified with Verus. It holds the decision logic
  of the stages: capture configuration, the hardware unit's setup sequence
  and the consumer thread's decisions; the DSP configuration check,
  framing, MFCC accumulation, the DCT size choice and the DSP thread's
  decisions; model loading, score checks and the inference thread's
  decisions; the sliding vote with its cooldown, the notification payload
  and outcomes; and the daemon's configuration.
  Floating-point values (scores, thresholds, sample rates) travel through
  it as IEEE-754 bit patterns and are only compared.
- `tests/` — tests of the library.
- `app/` — the daemon itself: CoreAudio, Accelerate and Core ML calls,
  floating-point signal processing, threads, channels and socket I/O. It
  hands plain values to the library and carries out what it decides.
