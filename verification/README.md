# road_intersection

A four-way road intersection: vehicles spawn from the four approaches on key
presses, follow a fixed route (left, straight or right), obey the traffic
lights and give way inside the intersection; the lights adapt to the queues.

- `src/` is the library, verified with Verus: spawn gating, the two traffic
  light controllers, the right-of-way rules and trip states of vehicles, lane
  queue counting, waypoint routes, and the drawing commands of roads, lights
  and the legend. Laws are the public `law_*` proof functions.
- `app/` is the SDL2 program around it: the window, events, frame timing,
  vehicle motion on float coordinates, and replaying drawing commands.
  `--waypoint` selects the waypoint layout with the fixed-cycle controller.
- `tests/` runs the library on concrete scenarios.
