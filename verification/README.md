# helioxide

NREL Solar Position Algorithm (SPA): solar position, incidence on tilted
surfaces, equation of time, and sunrise, transit and sunset.

## Layout

- `src/` — the calendar and time-scale core, written in Verus and verified:
  - `calendar`: Gregorian leap rule, month lengths, day of the year, the
    1582 reform gap, and the plain-value date types the core works on.
  - `julian`: Julian Day Number of a calendar label (equation 4) and the
    inverse (appendix A.3), in exact integer arithmetic, with proofs that
    each undoes the other.
  - `delta_t`: the observed USNO `ΔT` table (in units of 0.0001 s), the
    month bracketing of an instant, and the position of an instant in its
    year.
  - `time`: the SPA year range and reform-gap check.
- `app/` — the floating-point pipeline (heliocentric through topocentric
  coordinates, refraction, incidence, equation of time, appendix A.2
  events), the `chrono` timezone handling and the command-line program.
  It calls the verified core for every calendar decision.
- `tests/` — tests of the verified core.
