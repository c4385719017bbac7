# conservation_verify

Verification harness for conservation laws in ternary agent systems
(initiator / responder / mediator).

- `src/` is the verified library: the agent roles and the five baseline
  laws, the split of interactions among the three roles, the scale sweep
  (results in the order of the scales, one per scale) and the pass/fail tally
  of a verification run.
- `app/` holds what computes with floating-point measurements: simulation
  metrics, the deterministic simulation, mean and standard deviation, the
  invariant checker, the regression tests against the baseline values, the
  harness and the formatted report. It calls the library for the parts above.
- `tests/` exercises the library.
