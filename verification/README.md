# adp_config

The configuration logic of the Agent Data Plane (ADP), verified with Verus.

- `src/` is the verified library: the data plane's settings and pipeline requirements, the
  bootstrap and logging translation, the Datadog-to-native translator, overlay validation,
  registration and config-stream decisions, the DogStatsD prefix and post-aggregate filters,
  the remote configuration evaluation and publication model, and the generators of the
  configuration registry, classifier data and documentation.
- `tests/` exercises the library on concrete values.
- `app/` is the command line and the file I/O around the library: argument parsing, reading
  YAML documents, writing generated sources, and the floating-point conversions the library
  cannot hold.
