# exo_planets

Kipping transit / TTV / TDV feature pipeline on a cached NASA Exoplanet
Archive slice, cached MAST Kepler / K2 / TESS light-curve extracts, the
Holczer+2016 planet-only O−C catalog, and a small linfa logistic model.
It is not a moon-discovery or confirmation engine: the four named moons
stay CANDIDATE / FALSE POSITIVE / SEARCH.

Layout:

- `src/` — the verified library (Verus). The data rules and parsers: the
  Kepler LLC FITS reader, the TAP query URLs and CSV rows, the merged
  planet catalog, the fixed-width Holczer table, the cached light-curve
  specs, the locked holdout cards and their scoring inputs, the label
  taxonomy and training targets, and the fit / evaluation split. Public
  functions state their results in `ensures`; where a result comes from an
  outside library (the CSV reader, the seeded shuffle) the contract goes
  through a named result of that call. The laws of the library are public
  proof functions.
- `tests/` — tests of the library on concrete values.
- `app/` — the `exo-planets` program: the command line, file and network
  I/O, and the floating-point science (geometry, TTV/TDV, HEK and
  LUNA-style flags, photometry, FORECASTER classes, injections, the model),
  which the verified library does not hold.
