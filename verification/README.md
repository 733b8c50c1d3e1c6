# sabotage

The rules of "Sabotage at T-Minus", a 2D game in which a saboteur has
wrecked a rocket on the pad and the player has until the launch clock runs
out to undo the damage: set each room's switch panel to the code in the
manual, and seal each breach by winning its repair challenge.

`src/` is the rule book, written in Verus and proved: the difficulty levels
and what they deal, the room codes and panel settings, the four repair
challenges a breach deals (relay, coolant line, engine bell, pipe run) and
two more kept beside them but never dealt (the tap and sequence drills),
the launch clock, the screens and what each key or button leads
to, the player's moves and the doors, ladders and breaches of the rocket.
Each public function states what it does in its contract; the laws that
span several of them (what a step undoes, what a run keeps, what a refused
request leaves alone) stand as public proof functions beside them.

Lengths are thousandths of a pixel, times are microseconds, and gauges,
volumes and fades are whole-number fractions, so that every rule can be
proved.

`app/` is the game around the rules: the window, drawing, physics and
the engine's scheduling. It asks the library what follows from each frame's
input and does it.

`tests/` runs the library on the cases the game is known to meet.
