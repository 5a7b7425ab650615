# dwsh

Daywatch, a desktop shell for a Wayland laptop: a dashboard (clock,
battery/CPU/memory gauges, service switches, a `fortune` quote, the system
tray) and a logout overlay.

`src/` is the library, verified with Verus: the shell's decisions stand
there with their contracts, except for what is computed in floating point
(gauge fractions, volume and brightness, track lengths), which stays in
`app/`. The logout overlay's selection logic and
key bindings (`logout`), icon lookup (`icon`), the quote folding
(`quote`), the service switches' state machine (`switches`), the clock
labels (`calendar`), the battery gauge (`stats`), the play button
(`media`), the quick-control switches (`status`) and tray item clicks
(`systray`).

`app/` draws them with GTK (relm4) and iced, talks to the compositor, runs
`systemctl`, `fortune` and friends, and feeds the answers back to the
library's state machines.

`tests/` exercises the library on concrete values.
