# uac1

USB Audio Class 1.0 devices: a speaker (host to device) and an audio source such as a microphone
(device to host). The library describes such a device to the host and answers the host's control
requests; it is written in Verus, and its contracts are proved.

- `src/function.rs`: the descriptors of an audio function and of its endpoints.
- `src/speaker.rs`, `src/source.rs`: the two classes.
- `src/control.rs`: the control handler, and the monitor through which the device sees what the
  host has set. While the handler holds still the monitor's readings are exact; at any other time
  they are the latest that it has taken notice of, or later ones.
- `src/builder.rs`: the log of what is asked of the USB device, to be carried out in order.
- `src/laws.rs`: what holds over any sequence of requests, and of the descriptors.
- `src/sync.rs`: the cells that the control handler and the monitor share, with what is relied on,
  without proof, of the crate `embassy-sync` and of atomics.
- `src/fixed_vec.rs`: what is relied on, without proof, of the crate `heapless`.
- `app/`: the classes on a USB driver, whose endpoints are allocated and awaited there.
