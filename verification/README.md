# punch

`punch` puts a local service on a public domain through Cloudflare Tunnel. This crate is its
verified core: every decision that the program makes is a function in `src/`, with a contract
that Verus proves.

## Layout

- `src/` is the library.
  - `text`, `number`, `clock`: texts, decimal numbers and instants, and the vocabulary in which
    the other contracts are written.
  - `error`, `output`, `style`: what goes wrong, what the user is told, and in which colour.
  - `types`, `tunnel_map`, `state`: targets and tunnels, and the register of tunnels.
  - `storage`, `config`, `cli`: directories, the credential, the configuration file and the
    command line.
  - `api`, `cloudflare`: requests to the Cloudflare API and the meaning of its replies.
  - `cloudflared`: how the `cloudflared` program is run, and how its logs are read.
  - `launch`, `auth`, `doctor`, `removal`: the commands that take several steps. Each one is a
    machine: it says what it waits for, takes what came of it, and says how it goes on.
  - `app`: the other commands, and the choice between all of them.
  - `shell`, `metrics`: words for a shell, and metrics for Prometheus.
- `app/` is the program around the library: arguments, files, processes and the network.
- `tests/` runs the library.

## What is proved

Each type has a model made of sequences, maps and numbers, and the contract of each function says
what its result is in terms of these models. What relates several functions stands as a public
proof function next to them: that a target is read back as it was written, that a session in the
foreground leaves no tunnel registered, that the log shown by default is that of the registered
tunnel started last, that a shell takes an exported address for what it is, that the most specific
zone wins, that a tunnel stays registered until it is deleted at Cloudflare.

What is believed is what other crates do: the clock and the arithmetic of `chrono`, the escape
sequences of `owo-colors`, the registry of `prometheus`, the data directory of `directories`, and
paths and the decoding of bytes in the standard library. Each such function has a small wrapper, whose comment says what is
believed of it.
