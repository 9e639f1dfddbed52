# tln_mqtt

The message logic of the MQTT plugin of a tln host, verified with Verus.

The plugin keeps a device-information table up to date from what other
devices publish under `tln/<device>/<channel>`, announces its own device as
online or offline, forwards encrypted commands addressed to its device, and
runs a remote shell on another device.

Layout:

- `src/text.rs`: decimal numbers, white-space trimming and substring search,
  each against a character-level specification.
- `src/style.rs`: the ANSI colours of console lines (owo-colors).
- `src/topic.rs`: topics, the regular expression that names a device in a
  topic, and the proof that at most one channel takes a topic.
- `src/event.rs`: notifications of the connection, what is shown of them, and
  what each channel makes of a message.
- `src/command.rs`: the command lines handed to the host and to remote shells.
- `src/plugin.rs`: requests to the MQTT client, answers to the host, console
  lines, and the remote shell session.
- `app/`: the plugin itself: the MQTT client, the receiving thread, console
  input, encryption and JSON, all driven by the library.
