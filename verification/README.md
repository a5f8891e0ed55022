# scpfs

A remote file system client that works over SCP and a POSIX shell.

`src/` is a verified library: it decides which command the remote shell runs
next, reads what came back, and never touches the network. `app/` performs the
steps on a real SSH session. `tests/` runs the library on concrete values.

| module | what it holds |
| --- | --- |
| `client` | `ScpFs`: the session, the working directory and the requests |
| `conversation` | the first step of a request, and the step after each answer |
| `step` | requests, steps, tasks and replies |
| `shell` | the text of the commands |
| `listing` | reading what `ls -l` prints |
| `path`, `text`, `time`, `pex` | paths, text, instants and permissions |
| `entry`, `error` | files and directories, and what can go wrong |
| `laws` | what holds of the client as a whole |
