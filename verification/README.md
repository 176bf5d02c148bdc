# bang

Run multiple commands in parallel and swap between the output logs of each.

Configuration, in `~/.config/bang/bang.toml` by default:

```toml
commands = [
    {command = "ping -i 0.1 localhost"},
    {command = "ping 1.1.1.1"},
    {command = "ls", name = "list config dir", running_dir="~/.config/"},
]
```

## Layout

- `src/` is the library, verified with Verus:
  - `actions.rs`: which key press asks for which action;
  - `paths.rs`: Unix path text (joining, popping, `~` expansion), with the
    laws that join, pop and expansion obey;
  - `command.rs`: from a configured command to the program, its arguments,
    its name and its running directory; what to do after a kill or a read;
  - `config.rs`: where the configuration lives and how its directory is found;
  - `application.rs`, `cli.rs`, `help.rs`: the app's state, its arguments,
    and the lines of the help screen.
- `app/` is the program: command line parsing, TOML parsing, the file
  system, processes, and the terminal user interface.
- `tests/` runs the library on concrete values, and compares its path
  arithmetic with `std::path` on every short path.
