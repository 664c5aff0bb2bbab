# telajax

A safe wrapper around Kalray's Telajax runtime for the MPPA, split in two:

- `src/` is the verified library. It holds the decisions the wrapper takes
  around a runtime call, and the arguments each call receives: the error a
  status code stands for, the size check of each copy between host and device
  memory and the arguments of the copy that passes it, the device, kernel,
  wrapper and flags handed to allocations, builds and launches, whether an
  execution waits for its launch, the checks on kernel arguments and cluster counts, the
  invariant that a typed device buffer holds exactly the bytes of its values,
  and when a stored GPU description may be used.
- `app/` declares the runtime's C functions, owns the global device, makes the
  calls, and releases runtime objects when they are dropped. It also reads and
  writes the GPU description file.
