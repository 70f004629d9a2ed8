# relay_config

The configuration of a relay server: what its command line and its configuration
file mean. The library is verified with Verus and does no I/O.

- `src/startup.rs`: from the command line to a configuration, development mode.
- `src/config.rs`, `src/cfg_defaults.rs`: the configuration and its defaults.
- `src/addr.rs`, `src/path.rs`, `src/node_id.rs`: addresses, paths and node ids.
- `src/pem.rs`, `src/tls.rs`: certificates, private keys, and the TLS they make.
- `src/access.rs`: which nodes may relay connections.
- `src/server.rs`: what the server runs with.
- `src/laws.rs`: what holds of every server, whatever its configuration.
- `app/`: the program around the library. It reads the files, talks to the
  network, and hands the result to `iroh_relay`.
