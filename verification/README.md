# wireguard-gui

A WireGuard manager for the desktop, with its logic verified by Verus.

`src/` is the library. It decides everything: how `.conf` texts are read, written and checked, how
the window's state changes with each message and what is to be done then, what the privileged
helper does step by step, how client addresses are allocated, when a dropped tunnel is reconnected.
Every function states what it returns, and Verus proves it.

`app/` is the program around it: the window, the tray icon, the files, the processes and the
sockets. It carries out what the library answers and reports back.

| Module | What it holds |
|---|---|
| `config` | profiles, their names, keys, validation, the store and its files, import from QR codes |
| `app` | the state of the program, its reactions, and what holds of all of them |
| `net` | presets of allowed addresses, kill switch, namespaces, watchdog, boot, privileges |
| `helper` | the privileged helper's command lines, rule sets and plans |
| `server` | hosting a tunnel: configuration, addresses, clients |
| `wg` | live figures from `wg show` |
| `stats`, `settings`, `persist` | what is kept between runs |
| `tray`, `notify`, `autostart`, `single_instance`, `public_ip` | the desktop around the window |
| `text`, `ip`, `order`, `table`, `paths`, `qr` | texts, addresses, sorting, tables, paths, pictures |

Laws, that is statements about several functions at once, are the public proof functions whose
names begin with `law_`.

What is not proved is what other crates and the standard library do. Each such call stands in a
small function marked `external_body`, or in an `assume_specification`, with a comment that says
what is taken from it: `base64`, `x25519-dalek` and `rand` for keys, `image`, `qrcode`, `rqrr` and
`tokio` for pictures, and a few functions of `std` on strings, paths and durations.

Pictures come from anywhere, and the crates that decode them can panic on files made to mislead
them. They are called in a task of their own, so that such a picture is refused like any other that
cannot be read.
