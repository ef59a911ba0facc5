# prefill_router

Takes requests through a prefill worker on their way to decoding.

The router becomes active when the endpoint of the prefill workers is known. From then on
each request has a prefill executed first. Where it is known ahead which worker the prefill
goes to and where that worker hands over its results, the prefill is started and decoding
does not wait for it. Otherwise the request waits for the prefill, and its results go to
decoding with the request. A request whose prefill fails is decoded without one, unless the
router insists on prefills.

- `src/` decides, and is verified with Verus. Each course of events is a state that takes an
  event and gives the next action: `activation` (the router), `generation` (a request, with
  `bootstrap`) and `execution` (a prefill). `laws` states and proves what holds over whole
  courses.
- `app/` performs the actions on an asynchronous runtime.
- `tests/` runs the library on concrete values.
