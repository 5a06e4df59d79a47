# majorsilence_pdf

A Rust binding to the `pdfnative` shared PDF engine, split in two:

- `src/` — the verified core. It holds every decision the binding makes
  around the engine's C interface:
  - `calls`: the engine entry points whose failures are reported, and their symbol names;
  - `error`: the error type and the exact text of each kind of error;
  - `text`: C-string encoding (refusing interior NUL bytes), decimal notation,
    and decoding of the engine's last-error text;
  - `status`: judging status codes, returned handles and the text-box
    result; a failure names the entry point, and the engine's error text is
    fetched only once a failure has been returned;
  - `handle`: the life of a native handle (lazy creation, single release).
    `next_acquire`, `install` and `release` are stated against a model of
    that life, `lifecycle_step`; `lifecycle_keeps_protocol` proves of the
    model that no sequence of uses and closes releases an object twice,
    uses one after release, or creates one while another is live;
  - `args`: how arguments are marshalled (paints, flags, C ints, encryption version)
    and the style and permission constants;
  - `row`: the state machine that stages a table row cell by cell and commits it;
  - `siblings`: which shared libraries next to the engine are preloaded, and in
    which order (file-extension rule and a verified sort).
- `app/` — plain Rust around the core: loading the engine with `libloading`,
  the raw `unsafe` C calls, file-system access and the floating-point
  coordinates that pass straight through to the engine. It exposes
  `PdfLibrary`, `PdfDocument`, `PdfCanvas`, `PdfStyle`, `PdfTable` and `PdfMerger`.
- `tests/` — tests of the core on concrete values.
