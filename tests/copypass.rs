use nehe::copypass::{
    DeviceReply, GpuCommand, NeHeCopyPass, Payload, StagedUpload, UploadAction, UploadRequest,
    UploadState,
};
use nehe::error::{DeviceCall, NeHeError};
use nehe::texture::{texture_plan, PixelFormat};

/// Runs one upload call against scripted device replies, recording the
/// actions the pass asked for. Returns the last action.
fn run_upload(pass: &mut NeHeCopyPass, req: UploadRequest, replies: &[DeviceReply], log: &mut Vec<UploadAction>) -> UploadAction {
    let (mut state, mut action) = pass.begin_upload();
    log.push(action);
    for reply in replies {
        assert!(state != UploadState::Closed);
        let (s, a) = pass.advance(&req, state, *reply);
        state = s;
        action = a;
        log.push(action);
        if state == UploadState::Closed {
            break;
        }
    }
    assert_eq!(state, UploadState::Closed);
    action
}

fn buffer(size: u32) -> UploadRequest {
    UploadRequest::Buffer { usage: 1, size }
}

fn ok_replies(dest: u64, staging: u64) -> [DeviceReply; 3] {
    [DeviceReply::Created(dest), DeviceReply::Created(staging), DeviceReply::Filled]
}

#[test]
fn buffer_upload_steps() {
    let mut pass = NeHeCopyPass::new();
    let mut log = Vec::new();
    let last = run_upload(&mut pass, buffer(48), &ok_replies(10, 20), &mut log);
    assert_eq!(log, vec![
        UploadAction::CreateDestination,
        UploadAction::CreateStaging { size: 48 },
        UploadAction::FillStaging { staging: 20 },
        UploadAction::Done { destination: 10 },
    ]);
    assert_eq!(last, UploadAction::Done { destination: 10 });
    assert_eq!(pass.uploads(), &vec![StagedUpload { staging: 20, payload: Payload::Buffer { buffer: 10, size: 48 } }]);
}

#[test]
fn upload_visibility_ordering() {
    let mut pass = NeHeCopyPass::new();
    let mut log = Vec::new();
    run_upload(&mut pass, buffer(12), &ok_replies(1, 101), &mut log);
    run_upload(&mut pass, buffer(6), &ok_replies(2, 102), &mut log);
    let sub = pass.submit(Some(7));
    assert_eq!(sub.commands.unwrap(), vec![
        GpuCommand::BeginCopyPass,
        GpuCommand::UploadToBuffer { staging: 101, buffer: 1, size: 12 },
        GpuCommand::UploadToBuffer { staging: 102, buffer: 2, size: 6 },
        GpuCommand::EndCopyPass,
        GpuCommand::Submit,
    ]);
    assert_eq!(sub.releases, vec![102, 101]);
}

#[test]
fn cleanup_on_mid_batch_failure() {
    let mut pass = NeHeCopyPass::new();
    let mut log = Vec::new();
    let first = run_upload(&mut pass, buffer(8), &ok_replies(1, 101), &mut log);
    assert_eq!(first, UploadAction::Done { destination: 1 });
    let second = run_upload(&mut pass, buffer(8), &[DeviceReply::Failed], &mut log);
    assert_eq!(second, UploadAction::Fail { release_staging: None, release_destination: None, call: DeviceCall::CreateGpuBuffer });
    assert_eq!(pass.uploads().len(), 1);
    let releases = pass.abandon();
    assert_eq!(releases, vec![101]);
}

#[test]
fn failed_staging_releases_destination() {
    let mut pass = NeHeCopyPass::new();
    let mut log = Vec::new();
    let last = run_upload(&mut pass, buffer(8), &[DeviceReply::Created(5), DeviceReply::Failed], &mut log);
    assert_eq!(last, UploadAction::Fail {
        release_staging: None,
        release_destination: Some(5),
        call: DeviceCall::CreateGpuTransferBuffer,
    });
    assert!(pass.uploads().is_empty());
}

#[test]
fn failed_map_releases_both() {
    let mut pass = NeHeCopyPass::new();
    let mut log = Vec::new();
    let last = run_upload(
        &mut pass,
        buffer(8),
        &[DeviceReply::Created(5), DeviceReply::Created(6), DeviceReply::Failed],
        &mut log,
    );
    assert_eq!(last, UploadAction::Fail {
        release_staging: Some(6),
        release_destination: Some(5),
        call: DeviceCall::MapGpuTransferBuffer,
    });
    assert!(pass.uploads().is_empty());
    assert_eq!(pass.abandon(), Vec::<u64>::new());
}

#[test]
fn failed_texture_creation_names_texture_call() {
    let mut pass = NeHeCopyPass::new();
    let mut log = Vec::new();
    let plan = texture_plan(PixelFormat::Rgba32, 4, 4, false);
    let req = UploadRequest::Texture { desc: plan.desc, size: 64, generate_mipmaps: false };
    let last = run_upload(&mut pass, req, &[DeviceReply::Failed], &mut log);
    assert_eq!(last, UploadAction::Fail { release_staging: None, release_destination: None, call: DeviceCall::CreateGpuTexture });
}

#[test]
fn textures_upload_then_generate_mipmaps() {
    let mut pass = NeHeCopyPass::new();
    let mut log = Vec::new();
    let mip = texture_plan(PixelFormat::Rgba32, 256, 64, true);
    let flat = texture_plan(PixelFormat::Rgba32, 8, 8, false);
    run_upload(&mut pass, UploadRequest::Texture { desc: mip.desc, size: 65536, generate_mipmaps: true }, &ok_replies(1, 11), &mut log);
    run_upload(&mut pass, buffer(24), &ok_replies(2, 12), &mut log);
    run_upload(&mut pass, UploadRequest::Texture { desc: flat.desc, size: 256, generate_mipmaps: false }, &ok_replies(3, 13), &mut log);
    let sub = pass.submit(Some(9));
    assert_eq!(sub.commands.unwrap(), vec![
        GpuCommand::BeginCopyPass,
        GpuCommand::UploadToTexture { staging: 11, texture: 1, width: 256, height: 64, depth: 1 },
        GpuCommand::UploadToBuffer { staging: 12, buffer: 2, size: 24 },
        GpuCommand::UploadToTexture { staging: 13, texture: 3, width: 8, height: 8, depth: 1 },
        GpuCommand::EndCopyPass,
        GpuCommand::GenerateMipmaps { texture: 1 },
        GpuCommand::Submit,
    ]);
    assert_eq!(sub.releases, vec![13, 12, 11]);
}

#[test]
fn submit_without_command_buffer_fails_and_releases() {
    let mut pass = NeHeCopyPass::new();
    let mut log = Vec::new();
    run_upload(&mut pass, buffer(4), &ok_replies(1, 101), &mut log);
    run_upload(&mut pass, buffer(4), &ok_replies(2, 102), &mut log);
    let sub = pass.submit(None);
    assert_eq!(sub.commands, Err(DeviceCall::AcquireGpuCommandBuffer));
    assert_eq!(sub.releases, vec![102, 101]);
}

#[test]
fn empty_pass_submits_bare_script() {
    let sub = NeHeCopyPass::new().submit(Some(1));
    assert_eq!(sub.commands.unwrap(), vec![GpuCommand::BeginCopyPass, GpuCommand::EndCopyPass, GpuCommand::Submit]);
    assert!(sub.releases.is_empty());
}

#[test]
fn buffer_request_size_is_count_times_stride() {
    let req = NeHeCopyPass::buffer_request(8, 12, 4).unwrap();
    assert_eq!(req, UploadRequest::Buffer { usage: 8, size: 48 });
    let empty = NeHeCopyPass::buffer_request(8, 12, 0).unwrap();
    assert_eq!(empty, UploadRequest::Buffer { usage: 8, size: 0 });
    let largest = NeHeCopyPass::buffer_request(1, 1, u32::MAX as usize).unwrap();
    assert_eq!(largest, UploadRequest::Buffer { usage: 1, size: u32::MAX });
}

#[test]
fn buffer_request_too_large_is_fatal() {
    match NeHeCopyPass::buffer_request(1, 16, 1 << 30) {
        Err(NeHeError::Fatal(_)) => {}
        other => panic!("unexpected {:?}", other),
    }
    assert!(NeHeCopyPass::buffer_request(1, 2, u32::MAX as usize).is_err());
}
