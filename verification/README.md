# nekoland

A desktop cat that chases a yarn ball across a transparent overlay, or a viewer's
click relayed from Twitch Heat.

- `src/` is the library, verified with Verus: the cat's poses and frames, the yarn
  ball's bounces and catches, the choice of behavior in each animation tick, the
  sprite-mapping clip tables and their editing, the random source, the asset
  catalogs, the tray icon's pixels, the screen bounds, and the interface texts.
- `app/` is the program around it: the GTK overlay and dashboard, the tray icon, the
  Hyprland and Twitch Heat clients, the settings file, and the floating-point
  positions of the cat and the ball.
- `tests/` exercises the library on concrete values.
