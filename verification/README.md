# mikado

Media-device plumbing and colour-conversion front ends, verified with Verus.

- `src/colorcvt.rs`, `src/colorcvt/planes.rs`: buffer checks for planar and
  packed frames and the arguments handed to libyuv's converters.
- `src/permissions.rs`: the media permission flags.
- `src/sys/web/mutex.rs`: the single-threaded lock that orders device-change
  handling in the browser, as a state machine with its ordering laws.
- `src/lib.rs`, `src/sys/avfoundation.rs`: device types and backend listing.
- `app/`: the unverified side — libyuv calls, browser APIs, the async lock
  future and guard, build helpers, and `thiserror`/`bitflags` copies of the
  error and permission types.
