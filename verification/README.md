# processing-svc

The processing service of LumenHorizon: it takes VIIRS Black Marble granules
from a storage queue, checks their quality, renders dark-sky tiles, publishes
tile sets with manifests, builds product mosaics, and cleans up old data.

## Layout

- `src/` is the verified library (Verus). It holds the service's rules and
  data handling with their contracts: command-line and configuration parsing,
  the processing-message contract, tile addressing and VIIRS coverage, science
  quality rules, tile planning, pixel rendering and mosaic compositing,
  manifest identifiers and checksums, storage endpoints and request signing, retry and
  worker decisions, publication and retention plans, and the text handling
  they share. Calls into outside crates (base64, HMAC, SHA-256, hex, URLs, PNG
  codecs, date parsing, the tracing filter) sit behind small trusted
  wrappers whose contracts are stated in their doc comments.
- `tests/` exercises the library from outside.
- `app/` is the executable around the library: environment and process
  arguments, PostgreSQL, Azure Storage over HTTP, GDAL command-line tools,
  JSON and XML documents, floating-point geography and sample values, async
  orchestration, logging and terminal progress.
