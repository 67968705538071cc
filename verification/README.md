# qendercore_mqtt_adapter

An MQTT adapter for inverters of the Qendercore cloud. It reads the dashboard and the daily
schedule from the cloud service, publishes them for Home Assistant, and writes the changes
that Home Assistant commands back to the service.

`src/` is the library, verified with Verus:

- `config`: the command line and the configuration that follows from it
- `model`, `double`, `time`, `text`, `error`: schedules, readings, numbers, lengths of time,
  texts and errors
- `json`, `http`: documents, headers and replies, on top of `serde_json` and `reqwest`
- `dashboard`, `schedule`: what the answers of the service say, and what is sent to it
- `qcore`: which requests are made, with which token, and what follows an answer
- `discovery`, `command`, `mqtt`: the entities, the commands, and the messages that carry them
- `session`: what is done next, whatever came of the last action; the delays between sessions
- `stats`: the counters and the line that reports them
- `laws`: what holds of the adapter as a whole

`app/` is the program around it: it reads the command line and the files, talks to the broker
and the service, and does what the session asks for.
