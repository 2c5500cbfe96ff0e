# tank_game

A top-down tank arena: the player and computer players drive tanks, farm
shapes for experience, upgrade six stats and promote along a tree of classes.

- `src/` is the verified library (Verus): the rules that decide without
  floating point numbers.
  - `input.rs`: key and mouse bindings, the state of each button within a
    frame, and where the movement keys steer.
  - `evolution.rs`: the class tree, its names and textures, upgrade levels and
    promotion.
  - `controls.rs`: which promotions and upgrades the player's keys, or a
    computer player's dice, ask for.
  - `framing.rs`: cutting the first complete JSON object out of the text a
    client has sent.
  - `sweep.rs`: the broad phase of collision detection, a sweep over the ends
    of the objects' extents along the x axis.
  - `contact.rs`: how touching objects push each other and who is credited.
  - `registry.rs`: which tank owns which projectile.
  - `shapes.rs`: which kind of shape spawns.
- `app/` is the game around it: physics, computer players, drawing with SDL,
  the network thread, and the default stats of every class.
- `tests/` runs the library on concrete values.
