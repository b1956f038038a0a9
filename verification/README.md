# qubit-fs-local

A local `file:` backend for a portable synchronous filesystem facade,
written in Verus. The library holds the backend's decisions and proves them
against their contracts; the native local-files engine performs the I/O.

## Layout

- `src/` — the verified library.
  - `file_uri_path`, `registry`: `file:` URI paths, their canonical
    escaped-byte logical text, and registry configuration checks.
  - `path_mapper`, `path_projection`, `native_uri_component`: logical and
    native paths of an authority, and the caller-spelled paths of
    temporary resources.
  - `options_plan`, `listing_options`, `range_window`, `properties`: request
    options, listing filters, byte windows and advertised capabilities.
  - `native_error`, `outcome_map`, `temp_resource`, `writer_session`: failure
    classification, effect states, and the lifecycles of temporary
    resources and writers.
  - `local_*_resource_limits`, `local_resource_policy`: resource ceilings.
- `tests/` — executable tests of the library.
- `app/` — the SPI implementation over the native engine and registry
  integration. It converts between the library's types and those of the
  facade and the native engine, translates resource ceilings and request
  flags into native option values, and performs the I/O; path mapping,
  option plans, configuration checks, advertised capabilities and
  operations, and failure mapping come from the library.
