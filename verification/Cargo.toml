[package]
name = "spice_gtk_usb_portal"
version = "0.1.0"
edition = "2021"
publish = false

[dependencies]
ashpd = { version = "=0.13.13", features = ["usb", "gtk4"] }
futures-util = "=0.3.34"
gio = "=0.22.10"
glib = "=0.22.10"
gtk4 = "=0.11.5"
log = "=0.4.35"
regex = "=1.13.1"
spice-client-glib = { version = "=0.8.0", features = ["v0_40"] }
