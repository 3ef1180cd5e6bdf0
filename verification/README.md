# idola

The logic of a Phantasy Star Online: Blue Burst server, with its behaviour
stated in `requires`/`ensures` contracts and proved with Verus.

- `src/` is the library. Its main parts:
  - `block`: lobbies (`lobbyhandler`), parties (`partyhandler`: joining,
    leaving, commands held back while a player loads, experience and level
    ups, the map layout and enemy list of a new party), the block's records
    of its clients (`client`: account, slot and character, saved when they
    leave) and the block's handling of its clients' requests (`handler`).
  - `login`: the login conversation, character selection and creation, the
    default equipment of new characters, guild cards, the parameter files and
    the ship list.
  - `message`: Blue Burst and patch message framing, with read-back laws.
  - `config`: reading the configuration file (`text`: the TOML document and
    the values read from it) and checking the server configuration.
  - `services`: the patch and data server conversations, and the shipgate
    connection's read and send states.
  - `maps`: the map files of each episode's areas and how the loaded
    variations make up the areas (`files`).
  - `game`, `ship`, `db`, `bb`: area and class codes, ship errors, the
    account store interface, the key table.
- `tests/` runs the library on concrete values.
- `app/` is the program: command line, configuration file, sockets and
  threads.
