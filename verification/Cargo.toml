[package]
name = "arboard"
version = "0.1.0"
edition = "2021"
publish = false

[dependencies]
percent-encoding = "2"
image = { version = "0.25", default-features = false, features = ["png", "tiff"] }
wl-clipboard-rs = "0.8"
log = "0.4"
objc2 = "0.5"
objc2-foundation = { version = "0.2", features = ["NSArray", "NSData", "NSString", "NSURL", "NSEnumerator", "NSGeometry"] }
objc2-app-kit = { version = "0.2", features = ["NSPasteboard", "NSPasteboardItem", "NSImage"] }
core-graphics = "0.23"
