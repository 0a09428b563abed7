# akars

Control software for a small wheeled robot with a servo arm and a USB camera,
written in Verus.

- `src/` is the verified library:
  - `frame.rs`: frames of the motor board's serial protocol, their checksum,
    and the receiver state machine that picks replies out of the byte stream,
    with the proof that an encoded frame is received back whole;
  - `motor.rs`: board configuration, commands, and how requested wheel speeds
    become PWM values (dead-zone mapping, scaling);
  - `arm.rs`: the servo command language and the arm's fixed routines;
  - `serial.rs`, `linux.rs`: line speeds, raw-mode terminal flags, and the
    retry rule of a byte read with a deadline;
  - `camera.rs`: camera reports and JPEG frame checks;
  - `web.rs`: what the control panel makes of drive and arm requests, the state
    it keeps and the answers it gives;
  - `text.rs`: decimal rendering and string comparison.
- `app/` holds the parts that touch the operating system: the serial and camera
  drivers, the loops that read replies and play routines, and the HTTP server.
- `tests/` runs the library on concrete values.
