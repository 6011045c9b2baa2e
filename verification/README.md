# oxidite_core

The verified core of Oxidite, a Minecraft launcher.

`src/` holds the library, proved with Verus: choosing a version and its
metadata hash from the manifest (`models`, `preparation`, `api`), the game
directory layout (`dirs`), the download plans for the client jar, libraries
and assets and the SHA-1 check of every downloaded file (`libraries`,
`assets`, `sources`, `hashing`), the class path and command line that start
the game (`launcher`), and the reading of the game's log (`instance`).
Each module states its contracts over the views of its values, and the laws
that tie functions together are public proof functions beside them.

`app/` is the launcher program around it: HTTP with reqwest, JSON with serde,
the file system, the game process, and the command line.

`tests/` runs the library on concrete values.
