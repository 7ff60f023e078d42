use vstd::prelude::*;

verus! {

/// The device functions whose failure the library reports by name.
#[derive(Clone, Copy, Debug, PartialEq, Eq, Structural)]
pub enum DeviceCall {
    CreateGpuBuffer,
    CreateGpuTexture,
    CreateGpuTransferBuffer,
    MapGpuTransferBuffer,
    AcquireGpuCommandBuffer,
}

/// The name under which a device function is reported.
pub open spec fn call_name(c: DeviceCall) -> Seq<char> {
    match c {
        DeviceCall::CreateGpuBuffer => "SDL_CreateGPUBuffer"@,
        DeviceCall::CreateGpuTexture => "SDL_CreateGPUTexture"@,
        DeviceCall::CreateGpuTransferBuffer => "SDL_CreateGPUTransferBuffer"@,
        DeviceCall::MapGpuTransferBuffer => "SDL_MapGPUTransferBuffer"@,
        DeviceCall::AcquireGpuCommandBuffer => "SDL_AcquireGPUCommandBuffer"@,
    }
}

impl DeviceCall {
    pub fn name(&self) -> (r: &'static str)
        ensures
            r@ == call_name(*self),
    {
        match self {
            DeviceCall::CreateGpuBuffer => "SDL_CreateGPUBuffer",
            DeviceCall::CreateGpuTexture => "SDL_CreateGPUTexture",
            DeviceCall::CreateGpuTransferBuffer => "SDL_CreateGPUTransferBuffer",
            DeviceCall::MapGpuTransferBuffer => "SDL_MapGPUTransferBuffer",
            DeviceCall::AcquireGpuCommandBuffer => "SDL_AcquireGPUCommandBuffer",
        }
    }
}

/// Errors of the framework.
#[derive(Debug)]
pub enum NeHeError {
    /// A broken invariant, such as an unsupported format.
    Fatal(&'static str),
    /// A device function failed: its name and the device's message.
    SDLError(&'static str, String),
    /// Reading a resource failed: the message of the read.
    IOError(String),
}

impl NeHeError {
    /// The error for a failed device function, with the device's message.
    pub fn device(call: DeviceCall, message: String) -> (r: NeHeError)
        ensures
            r matches NeHeError::SDLError(n, m) && n@ == call_name(call) && m@ == message@,
    {
        NeHeError::SDLError(call.name(), message)
    }
}

} // verus!
