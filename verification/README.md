# LOCKIN

LOCKIN is an agent instalocker for Valorant. Choose an agent on the dashboard and press **Arm**:
when a pre-game lobby is found, LOCKIN checks the lobby's map and locks the agent.

What LOCKIN decides is a library whose behaviour is stated in contracts and proved with
[Verus](https://github.com/verus-lang/verus). The program around it only does what the library says
is next, and hands back what came of it.

## The library (`src/`)

| Module | What it holds |
| --- | --- |
| `text` | searching, cutting, trimming and comparing texts, reading and writing port numbers |
| `json` | JSON values, taken over from `serde_json` |
| `presence` | finding the player's presence in a message and reading the session state in it |
| `region` | which game server the player belongs to |
| `riot` | the lockfile, addresses, headers and answers of Riot's services |
| `app` | configuration, dashboard state and event log |
| `assignments`, `selection` | which agent to lock on which map |
| `sorting`, `agents`, `maps` | the lists of agents and maps |
| `arming` | arming, its failures, and arming again after a game |
| `detection` | the steps in locking an agent |
| `watching`, `listening` | the steps in watching for lobbies, and in listening to the websocket |
| `dashboard` | the ports that the dashboard tries |

The modules that end in `_laws` prove what holds across these functions: that the log never names a
header that carries a secret, that an agent is locked only where the configuration asks for it, that
the dashboard's phase means what it says, and more.

What is believed without proof stands beside the functions that need it: calls into `serde_json`,
`base64`, `reqwest` and a few functions of the standard library, each with a comment that says what
is claimed of it.

## The program (`app/`)

`app/` serves the dashboard on `127.0.0.1`, sends the requests, keeps the configuration in
`lockin-config.json` and runs the detection task. The dashboard's page is read from
`static/index.html` beside the configuration.
