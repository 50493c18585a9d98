# ChuniRichPresence

A Discord Rich Presence connector for Chunithm, built as a DLL that is injected into the game.
The logic is a Verus library with its behaviour stated in contracts; the thin shell around it talks
to Windows, to the network and to Discord.

## Layout

- `src/`: the verified library.
  - `text`, `journal`, `types`, `paths`: shared ground.
  - `config`: the `[chunirichpresence]` section of `segatools.ini`.
  - `songs`: the dataset of songs and its refresh.
  - `presence`, `activity`: what Discord shows.
  - `memory`: what is read from the game, and the presence that it makes.
  - `code`, `hooks`, `installer`, `runtime_hooks`: the hooks in the game.
  - `logging`: where the log goes and what its lines look like.
  - `runtime`: the main loop.
- `app/`: the DLL itself.
- `tests/`: tests of the library.

The loops that wait for the outside (the main loop, the refresh of the songs, the installation of the
hooks) are state machines: each says which operation it wants next, `app/` performs it, and the
outcome is handed back.

## Configuration (segatools.ini)

```ini
[chunirichpresence]
game_name=Chunithm
logo_url=https://chunithm.org/assets/logo.png
discord_app_id=1482780703128289493
show_rating=1
```

If a value is missing, the built-in default is used. `show_rating=0` hides the player's rating.
