[package]
name = "peer_signaling"
version = "0.1.0"
edition = "2021"
publish = false

[dependencies]
wasm-bindgen = "0.2"
wasm-bindgen-futures = "0.4"
console_error_panic_hook = "0.1"

[dependencies.web-sys]
version = "0.3"
features = [
    "Window",
    "Document",
    "HtmlDocument",
    "HtmlElement",
    "Element",
    "Node",
    "MessageEvent",
    "RtcPeerConnection",
    "RtcSessionDescriptionInit",
    "RtcSdpType",
    "RtcSignalingState",
    "RtcDataChannel",
    "RtcDataChannelEvent",
    "RtcPeerConnectionIceEvent",
    "RtcIceCandidate",
]
