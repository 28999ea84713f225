# ternary_sensor

Ternary classification of sensor data (`Low` / `Normal` / `High`).

- `src/` is the verified library: the class encoding, the ternary and
  anomaly decision rules, majority voting over classifications, calibration
  feedback history with its offset steps, and the sample log of a time series.
- `app/` holds the `f64` surface (readings, weighted fusion, anomaly
  baselines, time-series statistics, calibration offsets). It does the
  floating-point arithmetic and the guards that belong to it (default and
  zero weights, short series and windows, empty baselines), and takes the
  classification rules, the vote and the calibration steps from the library.
