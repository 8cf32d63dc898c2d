[package]
name = "xr_stereo"
version = "0.1.0"
edition = "2021"
publish = false

[dependencies]
console_error_panic_hook = "=0.1.7"
js-sys = "=0.3.106"
wasm-bindgen = { version = "=0.2.129", features = ["serde-serialize"] }
wasm-bindgen-futures = "=0.4.79"
web-sys = { version = "=0.3.106", features = ["Window", "Document", "Element", "HtmlCanvasElement", "Navigator", "WebGl2RenderingContext", "WebGlProgram", "WebGlShader", "WebGlBuffer", "WebGlUniformLocation", "WebGlFramebuffer", "XrFrame", "XrReferenceSpace", "XrReferenceSpaceType", "XrRenderState", "XrRenderStateInit", "XrRigidTransform", "XrSession", "XrSessionInit", "XrSessionMode", "XrSystem", "XrView", "XrViewerPose", "XrViewport", "XrWebGlLayer", "console"] }
