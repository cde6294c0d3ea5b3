# hourly_fortune

A Discord bot that posts, once an hour, a cow (from `cowsay`) saying a fortune
(from `fortune`) in the channel each guild has chosen, and answers a few
commands (`cowsay`, `fortune`, `explode`, `set_channel`, `remove_channel`).

- `src/` is the library, verified with Verus: the texts the bot posts, the
  command lines it runs and the checks on their output, the cow choices, the
  fortune-channel records, the decisions of the commands as state machines,
  and the hourly schedule.
- `app/` is the program around it: the Discord client (serenity and poise),
  the record store on disk (bonsaidb), the processes, and the timed loops.
  It performs what the library decides and hands the outcomes back.
- `tests/` runs the library on concrete inputs.
