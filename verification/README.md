# gpu_context

The GPU context that the windows of an application share: how its adapter is
chosen, what its device is asked for, and when it has to be replaced.

- `pci_id`: PCI identifiers as users write them.
- `device_choice`: the device that a user asks for through `ZED_DEVICE_ID`.
- `adapter`: what is known of an adapter, and the order in which adapters are
  tried.
- `features`, `limits`, `handles`: the parts of `wgpu` that the decisions rest
  on, with what is taken for granted of them.
- `instance`: the instance through which adapters are found.
- `config`: the configuration, and the device that it asks an adapter for.
- `selection`: the search for an adapter that can drive a surface.
- `web`: what a browser is asked for.
- `context`: the opened GPU, and the state that windows share.
- `error`: why a GPU could not be had.

The library is verified with Verus. `app/` talks to the drivers and does what
the library decides.
