# gardena_exporter

A Prometheus exporter for the GARDENA smart system API. The library under `src/` is verified with
Verus: what the exporter keeps, decides and shows is stated in contracts and proved. The program
under `app/` does the input and output around it.

## What the library does

- `json`: reads the attributes and relationships of JSON:API resources
- `device`, `usage`, `state`: the cache of devices and services, and the model of water usage
- `location`, `valves`: the choice of a location, and the valves by name
- `family`, `metrics`, `exposition`: the metric families, the samples of the cache, and what
  holds of all samples
- `token`, `http`, `session`, `retry`: the run through the API as a state machine, the requests
  it makes, what the answers amount to, and what happens after a failure
- `config`, `pages`, `report`: the configuration, the pages served, and what the commands print
- `ordered`, `text`, `clock`: a map in key order, text handling, and the clocks

Readings and flow rates are held as the bits of doubles, moments and spans as milliseconds. The
modeled volume of a valve is held as open time by flow rate; the program multiplies and sums when
the metrics are rendered.

## What is proved beyond the contracts of single functions

- the cache stays consistent, and a snapshot leaves exactly the devices that it speaks of
- a valve that opens and closes has its open time counted, at the flow rate that applies to it
- in which order resources of different kinds are taken in makes no difference
- every report of a service is shown, every family without labels is shown, every sample fits its
  family, and no two samples of a family share their labels
- the present flow of the garden is the sum over its valves, and its volume that sum and what the
  valves have let through that are in no device any more; it grows as time goes by
- a session gets on with every answer, renews a token that is not accepted once, and carries the
  moment on from which a token counts
- a session that keeps the cache up to date enters no stage with a token that has reached its
  age, unless it has just been renewed for that stage; a token that is stale stays stale
- delays between tries double up to the longest

## What is trusted

The wrappers around `serde_json`, `chrono`, `reqwest`'s status codes and the clocks of the
standard library state what these do. Each says so in its doc comment.
