# biliver

Listens to a Bilibili live room: prints its barrages to the console and logs
barrages, gifts and popularity readings to `[room_id].log.csv` (GB18030).

* `src/` is the verified library (Verus):
  * `impls/package.rs` – the wire format of the room's packages (16-byte
    big-endian header, UTF-8 body), with the proof that a package read back
    from its bytes is the package sent, except that a present but empty body
    is read back as no body. The package's version is `0x0010_0001` and its
    type field is `action`, as the daemon sends and reads it.
  * `impls/counter.rs` – the counter that spaces popularity records, with the
    proof of its period.
  * `impls/config.rs` – the settings, their defaults, and how the command
    line overrides them. `Config` has no `Clone`: Verus gives `HashSet` no
    `clone`, and the daemon borrows the settings instead.
  * `deamon.rs` – what is done with each received package, how notifications
    are read, and the stages of a session.
  * `utils/` – big-endian integers, UTF-8 and GB18030 (`bytes.rs`), JSON
    values and their parsing (`json.rs`), decimal text (`text.rs`), the log
    and console lines (`writer.rs`) and the clock (`time.rs`).
* `app/` is the program around it: command line, configuration file, network,
  threads and files.
* `tests/` exercises the library.
