# synopsys_otg

The logic of a USB device driver for chips with a Synopsys DWC2 OTG core, verified with Verus.

The library in `src/` decides and does not touch the hardware. Its operations take what has been
read of the core's registers and return lists of actions: register accesses, cache maintenance,
wake-ups and the brackets of critical sections. Their contracts say exactly which actions come in
which order, and what becomes of the driver's state. Where a decision needs a value that only the
hardware has, the list holds a probe; the function that the probe names takes the value, and what
it returns is performed in the probe's place.

`app/` performs the actions and offers the driver to the USB stack through the traits of
`embassy-usb-driver`. The registers themselves are reached through its trait `Otg`, which a chip's
support package implements.

| Module | What it holds |
| --- | --- |
| `driver` | allocation of endpoints, FIFO space and packet memory |
| `bus` | initialization, configuration and bus events |
| `endpoint`, `control` | transfers, and the control pipe |
| `interrupt` | the interrupt handler |
| `fifo`, `cache`, `table` | packing of words, cache lines, endpoint tables |
| `state`, `config`, `types`, `registers` | what these work on |
| `action`, `program`, `dispatch` | what the hardware is asked to do, in which order, and what follows from what it answers |
| `laws`, `sections` | what holds across the modules |
