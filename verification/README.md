# brickbreaker

A brick-breaker game whose rules are verified with Verus.

- `src/` — the verified library: bricks and their durability (`brick`),
  scoring with combo multipliers (`scoring`), level layouts (`level`), the
  collision decisions that follow from geometric contacts (`collision`),
  player input (`input`), and the game state machine with its frame phases
  and screen transitions (`game_state`). Each module states its laws as
  proof functions.
- `app/` — the program around it: floating-point kinematics (positions,
  velocities, the ball and the paddle), the collision geometry, the frame
  loop that measures contacts and applies the library's responses, and the
  macroquad window, keyboard and drawing.
- `tests/` — tests of the library on concrete values.
