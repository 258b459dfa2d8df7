# brane

The verified core of the Brane runtime, written in Verus.

- `src/values.rs`: machine values and their exchange form, with the
  conversions between them and the law that they give each other back.
- `src/lifecycle.rs`: turning job lifecycle callbacks into keyed events.
- `src/docker.rs`: planning and interpreting container runs: the command
  of a function call, the container configuration from host settings, the
  image loading decision, splitting container logs, and reading a call's
  result from its output.
- `src/text.rs`: decimal rendering and the last line of a text.
- `src/codec.rs`: the Base64, UTF-8 and UUID calls the library relies on,
  with the contracts it assumes of them.
- `app/`: the Docker, database and environment I/O around the library.
