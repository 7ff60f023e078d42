use vstd::prelude::*;

use crate::error::{DeviceCall, NeHeError};
use crate::texture::TextureDesc;

verus! {

/// What a staged upload writes into once the pass is submitted. Handles are
/// the device's identifiers for its resources.
#[derive(Clone, Copy, Debug, PartialEq, Eq, Structural)]
pub enum Payload {
    Buffer { buffer: u64, size: u32 },
    Texture { texture: u64, width: u32, height: u32, generate_mipmaps: bool },
}

/// A filled staging region and the resource that it initialises.
#[derive(Clone, Copy, Debug, PartialEq, Eq, Structural)]
pub struct StagedUpload {
    pub staging: u64,
    pub payload: Payload,
}

/// One request to create a resource with initial contents.
#[derive(Clone, Copy, Debug, PartialEq, Eq, Structural)]
pub enum UploadRequest {
    /// A buffer of `size` bytes with the device's usage flags `usage`.
    Buffer { usage: u32, size: u32 },
    /// A texture described by `desc`, whose `size` bytes of pixels are staged.
    Texture { desc: TextureDesc, size: u32, generate_mipmaps: bool },
}

/// Where an upload call stands: what it waits for from the device.
#[derive(Clone, Copy, Debug, PartialEq, Eq, Structural)]
pub enum UploadState {
    /// The destination buffer or texture is being created.
    AwaitDestination,
    /// The staging region is being created.
    AwaitStaging { destination: u64 },
    /// The staging region is being mapped and filled with the data.
    AwaitFill { destination: u64, staging: u64 },
    /// The call has ended.
    Closed,
}

/// What the device answered to the last action.
#[derive(Clone, Copy, Debug, PartialEq, Eq, Structural)]
pub enum DeviceReply {
    /// A resource was created, with this handle.
    Created(u64),
    /// The staging region was mapped, filled and unmapped.
    Filled,
    /// The device call failed.
    Failed,
}

/// What the caller does next for an upload call.
#[derive(Clone, Copy, Debug, PartialEq, Eq, Structural)]
pub enum UploadAction {
    /// Create the destination resource that the request describes.
    CreateDestination,
    /// Create a staging region of `size` bytes.
    CreateStaging { size: u32 },
    /// Map the staging region, copy the data in, and unmap it.
    FillStaging { staging: u64 },
    /// Release what is given, in this order, and fail with `call`'s error.
    Fail { release_staging: Option<u64>, release_destination: Option<u64>, call: DeviceCall },
    /// The upload is queued; `destination` belongs to the caller.
    Done { destination: u64 },
}

/// Commands recorded on the command buffer when a pass is submitted.
#[derive(Clone, Copy, Debug, PartialEq, Eq, Structural)]
pub enum GpuCommand {
    BeginCopyPass,
    UploadToBuffer { staging: u64, buffer: u64, size: u32 },
    UploadToTexture { staging: u64, texture: u64, width: u32, height: u32, depth: u32 },
    EndCopyPass,
    GenerateMipmaps { texture: u64 },
    Submit,
}

/// The number of bytes that `req` stages.
pub open spec fn staging_size(req: UploadRequest) -> u32 {
    match req {
        UploadRequest::Buffer { size, .. } => size,
        UploadRequest::Texture { size, .. } => size,
    }
}

/// The device function that creates the destination of `req`.
pub open spec fn destination_call(req: UploadRequest) -> DeviceCall {
    match req {
        UploadRequest::Buffer { .. } => DeviceCall::CreateGpuBuffer,
        UploadRequest::Texture { .. } => DeviceCall::CreateGpuTexture,
    }
}

/// What is recorded for `req` once its data sits in staging memory.
pub open spec fn payload_of(req: UploadRequest, destination: u64) -> Payload {
    match req {
        UploadRequest::Buffer { size, .. } => Payload::Buffer { buffer: destination, size },
        UploadRequest::Texture { desc, generate_mipmaps, .. } => Payload::Texture {
            texture: destination,
            width: desc.width,
            height: desc.height,
            generate_mipmaps,
        },
    }
}

/// One step of an upload call: from where it stands and the device's reply to
/// the next state and action. A failure releases everything that the call
/// itself allocated, staging region first.
pub open spec fn upload_step(req: UploadRequest, state: UploadState, reply: DeviceReply) -> (
    UploadState,
    UploadAction,
) {
    match state {
        UploadState::AwaitDestination => match reply {
            DeviceReply::Created(d) => (
                UploadState::AwaitStaging { destination: d },
                UploadAction::CreateStaging { size: staging_size(req) },
            ),
            _ => (
                UploadState::Closed,
                UploadAction::Fail {
                    release_staging: None,
                    release_destination: None,
                    call: destination_call(req),
                },
            ),
        },
        UploadState::AwaitStaging { destination } => match reply {
            DeviceReply::Created(s) => (
                UploadState::AwaitFill { destination, staging: s },
                UploadAction::FillStaging { staging: s },
            ),
            _ => (
                UploadState::Closed,
                UploadAction::Fail {
                    release_staging: None,
                    release_destination: Some(destination),
                    call: DeviceCall::CreateGpuTransferBuffer,
                },
            ),
        },
        UploadState::AwaitFill { destination, staging } => match reply {
            DeviceReply::Filled => (UploadState::Closed, UploadAction::Done { destination }),
            _ => (
                UploadState::Closed,
                UploadAction::Fail {
                    release_staging: Some(staging),
                    release_destination: Some(destination),
                    call: DeviceCall::MapGpuTransferBuffer,
                },
            ),
        },
        UploadState::Closed => (UploadState::Closed, UploadAction::CreateDestination),
    }
}

/// The upload that a step queues, if it queues one.
pub open spec fn queued_by(req: UploadRequest, state: UploadState, reply: DeviceReply) -> Option<
    StagedUpload,
> {
    match (state, reply) {
        (UploadState::AwaitFill { destination, staging }, DeviceReply::Filled) => Some(
            StagedUpload { staging, payload: payload_of(req, destination) },
        ),
        _ => None,
    }
}

/// The upload command for one staged upload.
pub open spec fn upload_command(u: StagedUpload) -> GpuCommand {
    match u.payload {
        Payload::Buffer { buffer, size } => GpuCommand::UploadToBuffer {
            staging: u.staging,
            buffer,
            size,
        },
        Payload::Texture { texture, width, height, .. } => GpuCommand::UploadToTexture {
            staging: u.staging,
            texture,
            width,
            height,
            depth: 1,
        },
    }
}

/// The mipmap generations that the uploads ask for, in queue order.
pub open spec fn mipmap_commands(s: Seq<StagedUpload>) -> Seq<GpuCommand>
    decreases s.len(),
{
    if s.len() == 0 {
        seq![]
    } else {
        let rest = mipmap_commands(s.drop_last());
        match s.last().payload {
            Payload::Texture { texture, generate_mipmaps, .. } => if generate_mipmaps {
                rest.push(GpuCommand::GenerateMipmaps { texture })
            } else {
                rest
            },
            _ => rest,
        }
    }
}

/// Everything recorded on the command buffer for the uploads `s`: one copy
/// pass holding every upload in queue order, then the mipmap generations,
/// then one submission.
pub open spec fn submit_script(s: Seq<StagedUpload>) -> Seq<GpuCommand> {
    seq![GpuCommand::BeginCopyPass] + s.map_values(|u: StagedUpload| upload_command(u)) + seq![
        GpuCommand::EndCopyPass,
    ] + mipmap_commands(s) + seq![GpuCommand::Submit]
}

/// The staging regions of `s`, in queue order.
pub open spec fn staging_of(s: Seq<StagedUpload>) -> Seq<u64> {
    s.map_values(|u: StagedUpload| u.staging)
}

/// The staging regions that tearing down a pass with uploads `s` releases:
/// each once, the last queued first.
pub open spec fn release_order(s: Seq<StagedUpload>) -> Seq<u64> {
    staging_of(s).reverse()
}

/// The outcome of submitting a pass.
pub struct Submission {
    /// The commands to record and submit, or the device call that failed.
    pub commands: Result<Vec<GpuCommand>, DeviceCall>,
    /// The staging regions to release afterwards, in this order.
    pub releases: Vec<u64>,
}

/// A batch of uploads that is realised as one submission. The pass owns the
/// staging memory of what it has queued; the destinations belong to the caller.
pub struct NeHeCopyPass {
    copies: Vec<StagedUpload>,
}

impl View for NeHeCopyPass {
    type V = Seq<StagedUpload>;

    closed spec fn view(&self) -> Seq<StagedUpload> {
        self.copies@
    }
}

impl NeHeCopyPass {
    /// An empty pass.
    pub fn new() -> (r: NeHeCopyPass)
        ensures
            r@ == Seq::<StagedUpload>::empty(),
    {
        NeHeCopyPass { copies: Vec::new() }
    }

    /// The request for a buffer of `count` elements of `element_size` bytes
    /// each. Fails where the size in bytes does not fit in 32 bits.
    pub fn buffer_request(usage: u32, element_size: usize, count: usize) -> (r: Result<
        UploadRequest,
        NeHeError,
    >)
        ensures
            element_size * count <= u32::MAX <==> r is Ok,
            r matches Ok(req) ==> req == (UploadRequest::Buffer {
                usage,
                size: (element_size * count) as u32,
            }),
            r matches Err(e) ==> e is Fatal,
    {
        if count != 0 && element_size > u32::MAX as usize / count {
            proof {
                assert(element_size * count > u32::MAX) by (nonlinear_arith)
                    requires
                        count > 0,
                        element_size > u32::MAX as int / count as int,
                ;
            }
            return Err(NeHeError::Fatal("Buffer size does not fit in 32 bits"));
        }
        proof {
            if count != 0 {
                assert(element_size * count <= u32::MAX) by (nonlinear_arith)
                    requires
                        count > 0,
                        element_size <= u32::MAX as int / count as int,
                ;
            }
        }
        Ok(UploadRequest::Buffer { usage, size: (element_size * count) as u32 })
    }

    /// The first action of an upload call, and the state it leaves the call in.
    pub fn begin_upload(&self) -> (r: (UploadState, UploadAction))
        ensures
            r == (UploadState::AwaitDestination, UploadAction::CreateDestination),
    {
        (UploadState::AwaitDestination, UploadAction::CreateDestination)
    }

    /// Takes one step of an upload call. Only the step that fills the staging
    /// region queues anything; a failed step leaves the pass as it was.
    pub fn advance(&mut self, req: &UploadRequest, state: UploadState, reply: DeviceReply) -> (r: (
        UploadState,
        UploadAction,
    ))
        requires
            state != UploadState::Closed,
        ensures
            r == upload_step(*req, state, reply),
            final(self)@ == match queued_by(*req, state, reply) {
                Some(u) => old(self)@.push(u),
                None => old(self)@,
            },
    {
        match state {
            UploadState::AwaitDestination => match reply {
                DeviceReply::Created(d) => {
                    let size = match req {
                        UploadRequest::Buffer { size, .. } => *size,
                        UploadRequest::Texture { size, .. } => *size,
                    };
                    (UploadState::AwaitStaging { destination: d }, UploadAction::CreateStaging { size })
                },
                _ => {
                    let call = match req {
                        UploadRequest::Buffer { .. } => DeviceCall::CreateGpuBuffer,
                        UploadRequest::Texture { .. } => DeviceCall::CreateGpuTexture,
                    };
                    (
                        UploadState::Closed,
                        UploadAction::Fail { release_staging: None, release_destination: None, call },
                    )
                },
            },
            UploadState::AwaitStaging { destination } => match reply {
                DeviceReply::Created(s) => (
                    UploadState::AwaitFill { destination, staging: s },
                    UploadAction::FillStaging { staging: s },
                ),
                _ => (
                    UploadState::Closed,
                    UploadAction::Fail {
                        release_staging: None,
                        release_destination: Some(destination),
                        call: DeviceCall::CreateGpuTransferBuffer,
                    },
                ),
            },
            UploadState::AwaitFill { destination, staging } => match reply {
                DeviceReply::Filled => {
                    let payload = match req {
                        UploadRequest::Buffer { size, .. } => Payload::Buffer {
                            buffer: destination,
                            size: *size,
                        },
                        UploadRequest::Texture { desc, generate_mipmaps, .. } => Payload::Texture {
                            texture: destination,
                            width: desc.width,
                            height: desc.height,
                            generate_mipmaps: *generate_mipmaps,
                        },
                    };
                    self.copies.push(StagedUpload { staging, payload });
                    (UploadState::Closed, UploadAction::Done { destination })
                },
                _ => (
                    UploadState::Closed,
                    UploadAction::Fail {
                        release_staging: Some(staging),
                        release_destination: Some(destination),
                        call: DeviceCall::MapGpuTransferBuffer,
                    },
                ),
            },
            UploadState::Closed => (UploadState::Closed, UploadAction::CreateDestination),
        }
    }

    /// The uploads queued so far, in queue order.
    pub fn uploads(&self) -> (r: &Vec<StagedUpload>)
        ensures
            r@ == self@,
    {
        &self.copies
    }

    /// The staging regions to release when the pass ends: each queued one
    /// once, the last queued first.
    fn releases(&self) -> (r: Vec<u64>)
        ensures
            r@ == release_order(self@),
    {
        let n = self.copies.len();
        let mut r: Vec<u64> = Vec::new();
        let mut i: usize = n;
        while i > 0
            invariant
                i <= n == self.copies@.len(),
                r@ == staging_of(self@.subrange(i as int, n as int)).reverse(),
            decreases i,
        {
            i = i - 1;
            r.push(self.copies[i].staging);
            proof {
                let t = self@.subrange(i as int, n as int);
                assert(staging_of(t) =~= seq![self@[i as int].staging] + staging_of(
                    self@.subrange(i + 1, n as int),
                ));
                assert(r@ =~= staging_of(t).reverse());
            }
        }
        assert(self@.subrange(0, n as int) =~= self@);
        r
    }

    /// Ends the pass without device work. The caller releases the staging
    /// regions returned, in order.
    pub fn abandon(self) -> (r: Vec<u64>)
        ensures
            r@ == release_order(self@),
    {
        self.releases()
    }

    /// Submits the pass. With no command buffer nothing is recorded and the
    /// acquisition is reported as the failure; otherwise the commands are the
    /// whole script. Either way every staging region is released afterwards.
    pub fn submit(self, command_buffer: Option<u64>) -> (r: Submission)
        ensures
            r.releases@ == release_order(self@),
            command_buffer is None <==> r.commands is Err,
            r.commands matches Err(c) ==> c == DeviceCall::AcquireGpuCommandBuffer,
            r.commands matches Ok(cmds) ==> cmds@ == submit_script(self@),
    {
        let releases = self.releases();
        match command_buffer {
            None => Submission { commands: Err(DeviceCall::AcquireGpuCommandBuffer), releases },
            Some(_) => Submission { commands: Ok(self.script()), releases },
        }
    }

    fn script(&self) -> (r: Vec<GpuCommand>)
        ensures
            r@ == submit_script(self@),
    {
        let n = self.copies.len();
        let mut r: Vec<GpuCommand> = Vec::new();
        r.push(GpuCommand::BeginCopyPass);
        let mut i: usize = 0;
        while i < n
            invariant
                i <= n == self.copies@.len(),
                r@ == seq![GpuCommand::BeginCopyPass] + self@.subrange(0, i as int).map_values(
                    |u: StagedUpload| upload_command(u),
                ),
            decreases n - i,
        {
            let u = self.copies[i];
            let c = match u.payload {
                Payload::Buffer { buffer, size } => GpuCommand::UploadToBuffer {
                    staging: u.staging,
                    buffer,
                    size,
                },
                Payload::Texture { texture, width, height, .. } => GpuCommand::UploadToTexture {
                    staging: u.staging,
                    texture,
                    width,
                    height,
                    depth: 1,
                },
            };
            r.push(c);
            proof {
                assert(self@.subrange(0, i + 1) =~= self@.subrange(0, i as int).push(u));
                assert(r@ =~= seq![GpuCommand::BeginCopyPass] + self@.subrange(
                    0,
                    i + 1,
                ).map_values(|u: StagedUpload| upload_command(u)));
            }
            i = i + 1;
        }
        assert(self@.subrange(0, n as int) =~= self@);
        r.push(GpuCommand::EndCopyPass);
        let ghost before = r@;
        let mut j: usize = 0;
        while j < n
            invariant
                j <= n == self.copies@.len(),
                r@ == before + mipmap_commands(self@.subrange(0, j as int)),
            decreases n - j,
        {
            let u = self.copies[j];
            proof {
                let t = self@.subrange(0, j + 1);
                assert(t.drop_last() =~= self@.subrange(0, j as int));
                assert(t.last() == u);
            }
            match u.payload {
                Payload::Texture { texture, generate_mipmaps, .. } => {
                    if generate_mipmaps {
                        r.push(GpuCommand::GenerateMipmaps { texture });
                    }
                },
                _ => {},
            }
            proof {
                assert(r@ =~= before + mipmap_commands(self@.subrange(0, j + 1)));
            }
            j = j + 1;
        }
        r.push(GpuCommand::Submit);
        proof {
            assert(r@ =~= submit_script(self@));
        }
        r
    }
}

proof fn lemma_mipmap_commands_only_generate(s: Seq<StagedUpload>)
    ensures
        forall|i: int|
            0 <= i < mipmap_commands(s).len() ==> #[trigger] mipmap_commands(s)[i] is GenerateMipmaps,
    decreases s.len(),
{
    if s.len() > 0 {
        lemma_mipmap_commands_only_generate(s.drop_last());
    }
}

/// Submission realises the uploads in queue order, all inside one copy
/// pass: the script opens the pass, holds the upload of the `i`-th queued
/// item at position `i + 1`, closes the pass, then only generates mipmaps,
/// and ends with the one and only submission.
pub proof fn lemma_uploads_in_queue_order(s: Seq<StagedUpload>)
    ensures
        submit_script(s).len() >= s.len() + 3,
        submit_script(s)[0] == GpuCommand::BeginCopyPass,
        forall|i: int| 0 <= i < s.len() ==> submit_script(s)[i + 1] == upload_command(#[trigger] s[i]),
        submit_script(s)[s.len() as int + 1] == GpuCommand::EndCopyPass,
        forall|i: int|
            s.len() + 1 < i < submit_script(s).len() - 1 ==> #[trigger] submit_script(s)[i] is GenerateMipmaps,
        submit_script(s).last() == GpuCommand::Submit,
        forall|i: int|
            0 <= i < submit_script(s).len() - 1 ==> #[trigger] submit_script(s)[i] != GpuCommand::Submit,
{
    let ups = s.map_values(|u: StagedUpload| upload_command(u));
    let mips = mipmap_commands(s);
    let script = submit_script(s);
    lemma_mipmap_commands_only_generate(s);
    assert forall|i: int| 0 <= i < s.len() implies script[i + 1] == upload_command(#[trigger] s[i]) by {
        assert(script[i + 1] == ups[i]);
    }
    assert forall|i: int| 0 <= i < script.len() - 1 implies #[trigger] script[i] != GpuCommand::Submit by {
        if 1 <= i <= s.len() {
            assert(script[i] == upload_command(s[i - 1]));
        } else if s.len() + 1 < i {
            assert(script[i] == mips[i - s.len() - 2]);
        }
    }
    assert forall|i: int| s.len() + 1 < i < script.len() - 1 implies #[trigger] script[i] is GenerateMipmaps by {
        assert(script[i] == mips[i - s.len() - 2]);
    }
}

/// A failed upload call leaves the pass as it was and hands the caller no
/// destination; it releases exactly what the call itself had allocated. When
/// the pass is then torn down, each region queued before is released once,
/// the last queued first.
pub proof fn lemma_failed_upload_cleanup(
    s: Seq<StagedUpload>,
    req: UploadRequest,
    state: UploadState,
    reply: DeviceReply,
)
    requires
        state != UploadState::Closed,
        upload_step(req, state, reply).1 is Fail,
    ensures
        queued_by(req, state, reply) is None,
        upload_step(req, state, reply).0 == UploadState::Closed,
        upload_step(req, state, reply).1 matches UploadAction::Fail { release_staging, release_destination, .. }
            && match state {
            UploadState::AwaitStaging { destination } => release_staging is None
                && release_destination == Some(destination),
            UploadState::AwaitFill { destination, staging } => release_staging == Some(staging)
                && release_destination == Some(destination),
            _ => release_staging is None && release_destination is None,
        },
        release_order(s).len() == s.len(),
        forall|i: int|
            0 <= i < s.len() ==> #[trigger] release_order(s)[i] == s[s.len() - 1 - i].staging,
{
}

/// The staging region that an upload call holds in `state`.
pub open spec fn held_staging(state: UploadState) -> Option<u64> {
    match state {
        UploadState::AwaitFill { staging, .. } => Some(staging),
        _ => None,
    }
}

/// The destination that an upload call holds in `state`.
pub open spec fn held_destination(state: UploadState) -> Option<u64> {
    match state {
        UploadState::AwaitStaging { destination } => Some(destination),
        UploadState::AwaitFill { destination, .. } => Some(destination),
        _ => None,
    }
}

/// An upload call leaks nothing. Each step either holds on to what the call
/// held plus what the device just created, or ends the call: a failure
/// releases exactly what the call held, and a success hands the staging
/// region to the pass and the destination to the caller.
pub proof fn lemma_upload_call_leaks_nothing(req: UploadRequest, state: UploadState, reply: DeviceReply)
    requires
        state != UploadState::Closed,
    ensures
        ({
            let (next, action) = upload_step(req, state, reply);
            match action {
                UploadAction::Fail { release_staging, release_destination, .. } => {
                    &&& next == UploadState::Closed
                    &&& release_staging == held_staging(state)
                    &&& release_destination == held_destination(state)
                    &&& queued_by(req, state, reply) is None
                },
                UploadAction::Done { destination } => {
                    &&& next == UploadState::Closed
                    &&& held_destination(state) == Some(destination)
                    &&& held_staging(state) is Some
                    &&& queued_by(req, state, reply) == Some(
                        StagedUpload {
                            staging: held_staging(state)->0,
                            payload: payload_of(req, destination),
                        },
                    )
                },
                _ => {
                    &&& next != UploadState::Closed
                    &&& queued_by(req, state, reply) is None
                    &&& reply matches DeviceReply::Created(h)
                    &&& held_staging(next) == Some(h) || held_destination(next) == Some(h)
                    &&& held_staging(state) is Some ==> held_staging(next) == held_staging(state)
                    &&& held_destination(state) is Some ==> held_destination(next) == held_destination(
                        state,
                    )
                },
            }
        }),
{
}

} // verus!
