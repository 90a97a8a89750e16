# Linux.do Accelerator

The accelerator runs a local service that takes over the traffic to a handful of domains. Around
that service stands a program with a command line and a window, which installs a root certificate,
asks for administrator rights, starts and stops the service, and shows how it fares. This crate
holds what that program decides, with its behaviour stated in contracts and proved by Verus.

## Layout

- `src/` is the verified library. It performs no input or output: it says which command is to be
  run or which file is to be written, and is told what came of it.
  - `text`, `address`, `decode`, `quoting`: texts, IPv4 addresses, and how arguments are quoted for
    a shell, for Windows, for AppleScript and for PowerShell.
  - `failure`, `file_path`, `command`, `config`: failures with their causes, paths that need not be
    text, commands and plans of steps, and the settings.
  - `certificate`: the subject of a certificate, as the trust stores of Android ask for it.
  - `state`: the files by which the processes of the program know of each other.
  - `platform`: administrator rights, processes, loopback addresses, owners of files, and the trust
    stores of each platform.
  - `gui`: the course of an action, the state of the window, and what its panels show.
  - `cli`: what each subcommand does.
- `tests/` runs the library on concrete values.
- `app/` is the program around the library: it runs the commands, reads and writes the files and
  draws the window.

What the library takes on trust is marked `external_body` or `assume_specification`: decoding UTF-8
and UTF-16, the lowercase mapping of Unicode, PEM, X.509 and MD5. All but UTF-16 are named by spec
functions without a body.

Public proof functions whose names begin with `law_` state what holds of several functions
together.
