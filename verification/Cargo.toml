[package]
name = "pop_desktop_widget"
version = "0.1.0"
edition = "2021"
publish = false

[dependencies]
gdk = "=0.14.3"
gdk-pixbuf = "=0.14.0"
gio = "=0.14.8"
glib = "=0.14.8"
gtk = "=0.14.3"
gtk-sys = "=0.14.0"
gstreamer = "=0.17.4"
libhandy = "=0.8.0"
libc = "0.2"
i18n-embed = { version = "=0.12.1", features = ["fluent-system", "desktop-requester", "filesystem-assets"] }
