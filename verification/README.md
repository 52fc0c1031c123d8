# print_agent

An agent that prints invoices. It takes print orders from a server over socket.io, prints them with
SumatraPDF, watches the Windows spooler and the printer, and reports what became of each invoice.

What it must never do is print an invoice twice. An order is reported as "did not print", which makes the
server send it again, only where the agent is certain that no sheet will come out; whatever is not certain is
reported as open, and only to servers that know of open outcomes.

## Layout

- `src/` is the library, verified with Verus.
  - `spooler`: what readings of the spooler amount to, deleting a job safely, watching a job. `spooler/luat.rs`
    holds what is proved of whole runs.
  - `printing`: running the program that prints, file names, the test page.
  - `job`, `net`: orders, reports, the connection, reconnecting.
  - `hop_thu_di`: the way to the server and the box of letters that wait for a connection; `hop_thu_di/cong.rs`
    writes down what is handed to a connection.
  - `hang_doi`: the server's queue on the agent's side, withdrawing invoices, the block on the screen.
    `luat.rs`, `luat_bam.rs`, `luat_loat.rs` and `dai.rs` below it hold what is proved of the screen, of its
    buttons and of withdrawals.
  - `state`: what the screen shows. `su_co`: the codes of trouble and their flags.
  - `nhat_ky`, `config`, `thoi_gian`, `mot_ban`, `giu_thuc`: log, settings, dates, one agent per computer,
    keeping awake.
  - `chu`, `day`, `gia_tri`: texts, lists and JSON values.
- `app/` is the program around it: threads, sockets, files, Windows.
- `tests/` runs the library.

Loops that talk to the outside take a trait and keep a ghost trace of every exchange; their contracts say which
traces can happen and what follows from each.

## What is trusted

`base64` decoding, `serde_json` parsing of the reason for a refused connection, and `to_lowercase` of std are
called through wrappers whose results are named, not described. `String::push` of std has a contract of its
own.
