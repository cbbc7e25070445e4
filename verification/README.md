# tock_rp2

Verified decision logic for Raspberry Pi RP2040 and RP2350 boards running a
Tock-style kernel. Every module is written as a state machine: it takes what
the hardware, a process or a driver answered as plain values, and returns
what to do next (register writes, pin levels, panel calls, upcalls, command
replies) as plain values. The contracts say which answer leads to which
effect.

The conformance runs under `capsules::test` call HIL traits that boards
implement. Each trait states, through spec relations its implementations
define (`write_answers`, `sample_answers`, ...), which answers it gives to
which request; a run's contract says which request each reported answer came
from (address, lengths, page, bytes) and what the run makes of the answers.

Layout of `src/`:

- `error_code`, `process`, `registers`: kernel error codes and status words,
  process identifiers and grant-entry failures, and register field values
  with read-modify-write semantics.
- `hil`: the hardware interfaces drivers implement (ADC, flash, GPIO, I2C,
  PWM, SPI, UART), with the behaviour each documents.
- `rp2xxx`, `rp2040`, `rp2350`: the chip drivers: DMA control words, PIO
  blocks, the ADC, pads, the watchdog and the true random number generator.
- `capsules`: the screen, stepper, throttle, PWM, pulse counter and
  virtual-PWM capsules, and `capsules::test`, conformance runs that check a
  HIL implementation against its documented answers.
- `boards`: timing and wake-up probes, the gSPI bring-up sequence and the
  Pico 2 clock bring-up steps.
- `kernel`, `learning`: static references, lent buffers, and grant sizes.

Laws that span several calls are public proof functions next to the code
they are about (names starting `law_` or `lemma_`).
