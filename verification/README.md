# mukalujauh

Face unlock for Linux and Windows: profiles of enrolled faces are kept in an
AES-256-GCM encrypted file, a candidate face embedding is matched against
them, and a liveness analyzer rejects photo and screen spoofs.

## Layout

- `src/` — the library, written in Verus; every function carries a contract.
  - `auth` — screen-lock state per platform, unlock report.
  - `config` — where the configuration and the profile database live
    (paths as the platform-encoded bytes of an `OsStr`, so none is altered).
  - `crypto` — key derivation and the sealed payload format
    (`[12-byte nonce] ++ [AES-GCM ciphertext]`); reading a payload back
    under the same key gives the stored bytes.
  - `model` — profiles and samples, generic over the embedding type;
    identifiers, enrolment (replacing same-name profiles) and removal.
  - `pipeline` — which profiles are scored, the stable descending ranking of
    similarity keys, and the thresholded best match.
  - `liveness` — the sliding-window analyzer: spoof cues deny, five frames
    are needed before motion is judged, confirmation latches until reset.
  - `passphrase`, `gui`, `text` — passphrase defaults, dashboard routing and
    summaries, text helpers.
- `app/` — the program: command line, files, JSON/TOML, the HTTP dashboard
  and native window, and the floating-point maths (cosine similarity,
  centroids, liveness measurements). Similarities reach the library as
  integer keys built from the `f32` bit patterns in `app/pipeline.rs`; that
  they order as the floats do is a property of that (unverified) mapping,
  not something the library proves.
- `tests/` — tests of the library.
