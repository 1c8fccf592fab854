# flysky_i6x

Firmware logic for the FlySky FS-i6X RC transmitter (STM32F072, A7105
2.4 GHz transceiver, ST7567 128x64 LCD), written in Verus.

- `src/` is the verified library: stick conditioning and calibration, the
  channel mixer, rates/expo, throttle curves, trims, the AFHDS 2A engine and
  its hopping table, A7105 bus frames, CRSF framing and the ELRS parameter
  browser, the USB gamepad report and serial console, stored settings and
  their flash images, buzzer and DFPlayer sequencing, the menus, the
  dashboard alarms, the calibration wizard and the main-loop decisions.
  Every public function carries a contract; the library's laws are public
  proof functions next to the code they speak of.
- `app/` is the firmware around it: clocks, interrupts, GPIO, SPI, UART,
  ADC/DMA, USB device classes, flash programming through sequential-storage,
  and drawing with embedded-graphics. It hands the library plain values and
  carries out what the library returns.
- `tests/` runs the library on concrete values.
