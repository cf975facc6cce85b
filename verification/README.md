# ts_dynalene

Frame encoding and decoding for the devices of the dynalene cooling plant
(chillers, flowmeters, power grid monitor, pier fans, recirculation pumps,
pressure transducers and temperature hubs), the Modbus commands that read
and drive them, and a simulated plant that answers those commands, verified
with Verus.

- `src/` is the verified library. Physical values that the devices send as
  floating-point numbers are kept as their bit patterns, and fixed-point
  values (pressures, temperatures, percentages) as integers.
- `app/` reads the parameter file of the application and converts between
  the library's values and floating-point physical values.
- `tests/` exercises the library.
