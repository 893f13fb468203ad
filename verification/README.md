# bim_evac

Decision logic of a building-evacuation model, with machine-checked proofs.

The model moves the people of a building from zone to zone (rooms,
staircases, the outside) through transits (door ways) until everyone is out;
the result is the evacuation time.

* `src/` — the proved library: the kinds of building elements and the
  identity callback (`element`), the choice of the speed law for a flow
  (`speed`), and how a scenario sets transit widths and the initial
  distribution of people (`scenario`).
* `app/` — the floating-point side of the model built on the library: the
  speed, flow and potential formulas, the modelling parameters and clock, and
  the application of a scenario to a building.
* `tests/` — tests of the library on concrete values.
