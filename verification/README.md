# sayit_overlay

The decision logic behind SayIt's dictation overlay window, written in Verus
and proved against its contracts.

- `src/layout.rs` — which layout a status payload asks for, and the rule that
  keeps a visible overlay from shrinking out of a hint layout.
- `src/lifecycle.rs` — `WindowState`: numbered shows, render
  acknowledgements, the render watchdog, recovery of a stalled window,
  renderer milestones and the health report (timestamps come from the
  caller's clock); the laws that tie these
  operations together are proof functions at the end of the file.
- `src/diagnostics.rs` — the window snapshot, failure classification and
  event ages.
- `src/geometry.rs` — bottom-centred placement inside a monitor's work area
  (integer pixels) and the choice of the target monitor.
- `src/text.rs` — white-space and string helpers.

`app/` holds the Tauri glue: native window calls, threads, JSON payloads,
floating-point scaling (monitor scale and CSS zoom), the system clock and
logging.
