# ftdi_host

Host-side driver logic for FTDI FT232x USB to UART bridges, verified with Verus.

- `src/` holds the decisions: which interface of a configuration descriptor is a
  UART channel, which pipes to allocate, which vendor requests set the line, which
  bytes of a bulk packet are UART data. No function in it makes a transfer; each
  says which transfer comes next and takes the outcome as a value.
- `app/` makes the transfers, over `embassy-usb-driver` pipes, and gives the
  channels the `embedded-io-async` traits.
- `tests/` run the library on concrete descriptors, packets and outcomes.

## Use

    let device = FtdiDevice::new(&bus, &enum_info)?;
    let mut port = device.port(&config_buf[..config_len], 0)?;
    port.reset().await?;
    port.set_line_coding(&LineCoding::default()).await?;   // 8N1 at 115200
    port.set_control_line_state(true, true).await?;        // DTR and RTS high

    let mut buf = [0u8; 64];
    let n = port.read(&mut buf).await?;
    port.write(&buf[..n]).await?;
