# ota-mqtt

`ota-mqtt` stages firmware over MQTT 5. It is the state machine of the device:
it accepts an update trigger, requests the image chunk by chunk, hands flash
work to its owner, and publishes its progress. It does not own the network
stack, the flash task, timeouts, or the reboot policy.

The trigger and its FNV-1a digest detect transfer errors; they do not
authenticate firmware.

- `src/` is the state machine, verified with Verus. `model.rs` is its
  mathematical model, `service.rs` the executable service, `laws.rs`,
  `history.rs` and `wire.rs` what is proved of both. The remaining modules hold
  the parts: chunk validation, manifests, MQTT properties, topics and numerals.
- `app/` runs the service on Minimq connections and turns JSON payloads into
  values and back.
- `tests/` holds protocol scenarios and tests of the single functions.

For a prefix such as `devices/example/ota`:

| Topic | Direction | Payload |
| --- | --- | --- |
| `<prefix>/trigger` | host to device | JSON trigger |
| `<prefix>/status` | device to host | JSON status and request properties |
| `<prefix>/chunk` | host to device | firmware bytes |

A status publication requests the next chunk by its MQTT properties: the
response topic is the chunk topic, the correlation data is the resource
identifier of the trigger, and the user property `offset` is the requested byte
offset in decimal. The host mirrors the correlation data and the offset in its
chunk publish. Chunks are sequential. Duplicates are acknowledged without
another flash write, future offsets are rejected, and padding behind the image
must be `0xff`.

Call `begin_startup` after every connection, and route every inbound publish
through `handle`. A step of the MQTT queue goes in two halves: `step` names the
operation to start, and `step_started` reports it once the connection has taken
it. An operation stays queued in between, so a step that is given up halfway is
repeated. While the status of a transfer waits for a subscription that a later
status displaced from the queue, startup begins anew, so a quiescent step leaves
no MQTT work behind. Report each flash request once with `complete_flash`.
