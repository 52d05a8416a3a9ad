# hotel_usb

Device-mode driver for the Synopsys DesignWare Cores USB 2.0 Hi-Speed On-The-Go
controller. It enumerates on endpoint 0 in scatter/gather DMA mode: it answers
GET_DESCRIPTOR, GET_CONFIGURATION, SET_CONFIGURATION and SET_ADDRESS.

The library in `src/` decides; it never touches hardware. Its two entry points,
`USB::init` with `USB::continue_init` and `USB::handle_interrupt`, take one word
read from the controller at a time, and append the actions to be carried out.
`app/` reads the words and carries the actions out.

* `constants`, `action`: bit assignments, registers, actions
* `table_case`, `setup`, `descriptor`: OUT interrupt cases, SETUP packets,
  descriptors
* `model`, `request`, `interrupt`, `startup`: what each operation does, as
  specifications
* `driver`: the driver, verified against them
* `device`: what actions do to the controller
* `laws`, `run_laws`, `device_laws`: what holds across operations
