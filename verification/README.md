# clard

A terminal dashboard for a mihomo (Clash) core and its helper service,
written in Verus. The library under `src/` holds the decisions of the
program, each with a contract that Verus proves; `app/` is the ordinary
Rust around it (terminal, network, command line).

## What is verified (`src/`)

- `parse`, `text`, `format`, `calendar`, `sort`: text reading and
  writing (numbers, dates, byte counts, sparklines), a stable sort with
  its permutation and order laws, the civil calendar with the uniqueness
  of a date.
- `groups`, `app/*`: the single-page client: the menu, the proxy,
  connections and network test pages, the checks of streaming services
  on their answers, and `app::window::APP`, the key handling as a state
  machine that returns the background work (`Effect`) a key asks for.
- `tui/*`: the seven-page client: every page's state, list navigation,
  key routing (`keys`), the `Client` state machine with the requests
  (`Command`) each key asks for, the history view, the profile
  transactions as step machines (`transactions`: a switch restores the
  previous profile on failure), the helper frame encoding (`rpc`), the
  profiles command line texts (`commands`) and the text the renderer
  shows (`canvas`).
- `ipc/*`: controller paths and URLs, the backend choice, the websocket
  key.

## What is trusted

Each trusted item is a small wrapper whose body makes one outside call:

- `text::push_char` (`String::push`), `text::to_lowercase`
  (`str::to_lowercase`), `text::utf8_byte_len` (`str::len`);
- `ipc::backend::url_encode` (`urlencoding::encode`);
- `ipc::websocket::base64_encode` (`base64` `STANDARD.encode`, stated as
  RFC 4648) and `random_key_bytes` (`rand::random`, nothing stated).

## What `app/` runs

`app/main.rs` is the `clard` program: without arguments it runs the
single-page client against the controller socket; `app/session.rs` reads
keys, hands them to `APP`, performs the effects it returns (HTTP over the
controller's Unix socket or TCP, the traffic websocket, the streaming
checks) and feeds the answers back; `app/render.rs` draws with ratatui
from the library's text functions.
