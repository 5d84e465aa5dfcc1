# E-Rect

A side-scrolling brawler: one or two players hold off waves of enemies on an
endless field, with a wall that clears the ground around them, a dash, and
charges that pay for both.

- `src/` is the library, verified with Verus: wave pacing and spawn tables,
  rolled heavies, the charge economy, what each button does, enemy clocks,
  menus and the screen flow, settings, upgrade offers, the sound-effect voice
  bank and the input mapping. Every public function states what it returns or
  changes; the `lemma_` proof functions state the rules that hold across
  calls.
- `app/` is the desktop program around it: the window, drawing, keyboard and
  gamepads, sound output, the settings file, and the field itself, whose
  bodies move on fractions of the screen in floating point.
- `tests/` runs the library on concrete cases.
