# solar_dehydrator

Firmware logic of a solar-powered food dehydrator controller (STM32 with an SSD1315
OLED, an SHT31 climate sensor, an AT24C08 EEPROM, a rotary encoder and an ESP8266
WiFi module), verified with Verus.

- `src/` is the verified library: the quadrature decoder of the rotary encoder, the
  EEPROM addressing, page-write splitting and the byte images of the stored settings,
  the SHT31 measurement frame, the ESP8266 SPI framing and scan parsing, the SSD1315
  frame buffer, the splash screen animation, the three menu screens and the menu task
  that switches between them.
- `app/` is the firmware around it: the embassy tasks, the I2C/SPI/GPIO drivers, the
  drawing with embedded-graphics, and the floating-point parts (temperature and
  humidity conversion, calibration editing, the side bar animation).
- `tests/` exercises the library on concrete values.
