# win_webauthn

The plain-value core of a Windows passkey plugin authenticator, verified with Verus.

- `src/` is the verified library: CTAP authenticator option flags, the
  null-terminated UTF-16 strings and Base64 logos handed to the platform, the
  buffers built for plugin registration and credential sync, the reading of the
  platform's HRESULTs, and the credential-sync state machine.
- `app/` is the Windows edge: the calls into `ole32` and `webauthn.dll`, the raw
  pointers and COM allocations they take, and the loop that performs the
  sync's actions and reports their outcomes back to the library.
- `tests/` runs the library on concrete values.
