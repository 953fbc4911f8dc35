# fiche_de_paie

A desktop tool that follows paystubs through their analysis and keeps them
in a local store under `datas/`.

- `src/` is the verified library (Verus):
  - `app/paystubs.rs`: the life cycle of a paystub (`Pending`, `Processing`,
    `ProcessingError`, `Completed`) with its transitions and their laws, and
    `PaystubRepository`, the store of encoded paystubs;
  - `app/database.rs`: `Database`, a key-value store of byte values in one
    `redb` table, with the read-after-write laws;
  - `app/storage.rs`: the calls into `redb` and what is relied on of each;
  - `app/events.rs`: the event queue through which components talk;
  - `components/`: the menu and the settings window, as far as they decide
    what to do with clicks and events;
  - `event.rs`: the events.
- `app/` is the program around it: the egui window, the logger, the
  `datas/` directory, and the bitcode encoding of paystubs.
- `tests/` exercises the library, with stores kept in memory.
