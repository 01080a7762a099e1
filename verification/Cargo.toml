[package]
name = "tunnel_preflight"
version = "0.1.0"
edition = "2021"
publish = false

[dependencies]
futures = { version = "=0.3.34", default-features = false, features = ["std"] }
rand = "=0.7.3"
tokio = { version = "=1.54.1", default-features = false, features = ["sync"] }
log = "=0.4.34"
err-derive = "=0.3.1"
winapi = { version = "=0.3.9", features = ["combaseapi", "guiddef", "ifdef", "in6addr", "inaddr", "knownfolders", "netioapi", "nldef", "ntddndis", "ntdef", "shlobj", "winerror", "winnt", "ws2def", "ws2ipdef"] }
widestring = "=0.5.1"
socket2 = "0.4"
