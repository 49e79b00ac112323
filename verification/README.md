# folderbot_chat

The decisions of a Twitch chat bot, verified with Verus.

- `src/` is the library. `reader` tells what a line from the chat server means
  and when reading ends.
  `engine::do_command` starts the turn of a chat message; `Turn::advance` takes
  it on, one answer at a time, until it is done. Each step lists what the bot
  does and what it needs to know next. The contracts say exactly what each step
  does (`turn`), `laws` what holds of all of them, and `course` what holds of
  whole turns.
- `app/` runs the bot around the library: the connection, the files, the sounds,
  the music player and the web. The command tree, the player records, the game
  and the pools of responses are those of the `folderbot` crate.
- `tests/` runs the library on concrete values, and compares the grammars with
  the `regex` crate on many small texts.

Random numbers come from `rand` (`luck`), the line formats from `regex`
(`grammar`), and lower case from the standard library (`text`); what is taken
on trust of each is written at the function that calls it.
