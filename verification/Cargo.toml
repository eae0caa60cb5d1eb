[package]
name = "gt6"
version = "0.1.0"
edition = "2021"
publish = false

[dependencies]
image = { version = "0.25", default-features = false, features = ["jpeg", "png"] }
gltf = "1"
wasm-bindgen = "0.2"
js-sys = "0.3"
web-sys = { version = "0.3", features = ["Window", "Document", "Element", "HtmlElement", "HtmlCanvasElement", "HtmlAnchorElement", "CanvasRenderingContext2d", "CanvasGradient", "KeyboardEvent", "MouseEvent", "WheelEvent", "Event", "EventTarget", "Storage", "Response", "Blob", "BlobPropertyBag", "Url", "AudioContext", "AudioContextOptions", "AudioNode", "AudioParam", "AudioDestinationNode", "BaseAudioContext", "OscillatorNode", "OscillatorType", "GainNode", "AudioScheduledSourceNode", "Performance", "console", "Location"] }
