# grow_agent

An agent for a small grow box: it switches control pins (lights, fans, air
and water pumps) by a cycle, by the clock or by measured values, samples
sensors through Python scripts and stores the measurements in sqlite.

- `src/` is the library, verified with Verus: pin states (`gpio`), times of
  the day and spans (`time`), the cyclic and time based controllers and their
  laws (`control`), the evaluation of measurements against thresholds
  (`measure`), BME680 calibration decoding and register values (`bme680`),
  hexadecimal sensor addresses (`hex`), the configuration model (`config`),
  sampler settings (`sample`), CLI settings (`manage`) and the agent's path
  and controller decisions (`agent`).
- `app/` is the program around it: configuration files, GPIO lines, timers,
  the Python sampler, the database and signal handling.
- `tests/` exercises the library.
