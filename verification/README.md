# haproxy_api

Rust bindings for the HAProxy 2.x Lua API (for use with `mlua` in module
mode) and for HAProxy's native provider and transaction-slot entry points.

- `src/` is the library, verified with Verus: native descriptor checks and
  their C layout sizes, provider status handling, the transaction-slot lookup
  and store rules, the transaction identity cache, the shared
  `coroutine.yield` replacement and its notification-line protocol, the
  connection pool, header keys and header value ordering, proxy capability and
  mode names, how `__pairs` answers and per-name header fetches are gathered,
  the converters check, the install and uninstall of the `coroutine.yield`
  replacement, and the descriptor fuzz harness.
- `app/` holds what talks to HAProxy: the Lua classes (`Txn`, `Http`,
  `Headers`, `Fetches`, `Proxy`, `Server`, ...), the `#[repr(C)]` structures
  and the `dlsym` entry points, and the Tokio plumbing of async functions.
  It makes the Lua, FFI and socket calls itself and asks the library what to
  do with what they return; what it still decides alone is what only those
  calls can tell (such as whether a Lua value is a function or a table).
- `tests/` exercises the library.
