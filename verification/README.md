# pamplona

A Blaze (Fire2) game server whose protocol core is verified with Verus.

- `src/` is the verified library:
  - `buffer`: the byte buffers of the `bytes` crate, behind specified wrappers;
  - `packet`: the 16-byte frame header, the packet codec (`Packet::read`,
    `Packet::write`) and the laws relating them;
  - `tdf_out`, `tdf_in`: tagged (TDF) fields written and read with the `tdf`
    crate, the reader only on contents within the bounds of
    `tdf_reader_bounded`;
  - `models`: the bodies of responses and notifications;
  - `router`: routing of requests by component and command;
  - `routes`: the request handlers;
  - `login`: the login state machine, the new-user record and the session
    user set on success;
  - `session`, `socket`: session state and the decisions of the session and
    socket loops;
  - `oauth`: the checks on a Discord OAuth2 token;
  - `config`: the server settings.
- `app/` is the program around it: the TCP listener, the tokio tasks of the
  session and socket loops, and the settings file. It routes the requests
  whose handling needs nothing beyond the library. It also holds the HTTP
  request that checks a token with Discord, but routes no login: logging in
  needs a store of accounts and users that this program does not have.
- `tests/` runs the library on concrete frames and bodies, and compares the
  bodies with what the `tdf` writer produces directly.
