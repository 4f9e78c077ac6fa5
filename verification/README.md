# wasapi_host

The decisions of a WASAPI audio host, verified with Verus.

Windows is asked about audio endpoints through COM calls. What follows from the
answers is decided in `src/`, which is verified:

- `error`: which error a failed call turns into
- `wide`: wide strings, their text and their comparison
- `waveformat`: what a wave format says of a stream's samples
- `formats`: the query for the formats that an endpoint supports
- `default_device`: the default devices, which follow the system's notifications
- `device`: devices, their direction, name, client and default format
- `host`: the host itself
- `config`: stream configurations

`app/` makes the calls. It runs the queries of the library and hands in what came
back. Its module `com` is there on Windows alone, since only there are the COM
interfaces to be had.

What is believed of code outside the crate stands in the contracts of a few small
functions in `error` and `wide`, each with a comment that says what it claims.
