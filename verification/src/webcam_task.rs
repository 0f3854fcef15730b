//! Arbitration of the one camera between the live preview and single-frame
//! capture. The arbiter decides and keeps the books; whoever drives it opens
//! and closes the device and reports how that went.

use vstd::prelude::*;

verus! {

/// Who holds the camera.
#[derive(Debug, Clone, Copy, PartialEq, Eq, Structural)]
pub enum LeaseHolder {
    Preview,
    Capture,
}

/// The right to have the camera open. There is at most one, it cannot be
/// copied, and only the arbiter makes one.
#[derive(Debug)]
pub struct DeviceLease {
    holder: LeaseHolder,
}

/// What the arbiter reports of the camera.
#[derive(Debug, Clone, Copy, PartialEq, Eq, Structural)]
pub enum ArbiterState {
    Closed,
    PreviewOpen,
    CaptureInFlight,
}

/// One request to the arbiter, with what the device answered where the
/// request touches the device.
#[derive(Debug, Clone, Copy, PartialEq, Eq, Structural)]
pub enum ArbiterOp {
    /// Ask for the preview; `opened` tells whether the device could be
    /// opened, and is not looked at unless the camera is closed.
    EnablePreview { opened: bool },
    DisablePreview,
    /// Take the camera for one frame, releasing the preview first.
    BeginCapture,
    /// The frame was grabbed or the attempt failed; either way the device
    /// is closed again.
    FinishCapture,
}

/// What the caller has to do to the device for a capture to begin.
#[derive(Debug, Clone, Copy, PartialEq, Eq, Structural)]
pub enum CaptureStart {
    /// A capture is already in flight: do nothing.
    Refused,
    /// The camera is free: open it and grab one frame.
    Capture,
    /// The preview holds the camera: close the preview, then open the
    /// camera and grab one frame.
    ReleasePreviewThenCapture,
}

/// Whether the preview has the camera open in state `s`.
pub open spec fn preview_open(s: ArbiterState) -> bool {
    s == ArbiterState::PreviewOpen
}

/// Whether a capture has the camera open in state `s`.
pub open spec fn capture_open(s: ArbiterState) -> bool {
    s == ArbiterState::CaptureInFlight
}

/// The state that follows `s` when `op` is carried out.
pub open spec fn apply(s: ArbiterState, op: ArbiterOp) -> ArbiterState {
    match op {
        ArbiterOp::EnablePreview { opened } => match s {
            ArbiterState::Closed => if opened {
                ArbiterState::PreviewOpen
            } else {
                ArbiterState::Closed
            },
            _ => s,
        },
        ArbiterOp::DisablePreview => match s {
            ArbiterState::PreviewOpen => ArbiterState::Closed,
            _ => s,
        },
        ArbiterOp::BeginCapture => ArbiterState::CaptureInFlight,
        ArbiterOp::FinishCapture => match s {
            ArbiterState::CaptureInFlight => ArbiterState::Closed,
            _ => s,
        },
    }
}

/// The state reached from `s` by carrying out `ops` in order.
pub open spec fn run(s: ArbiterState, ops: Seq<ArbiterOp>) -> ArbiterState
    decreases ops.len(),
{
    if ops.len() == 0 {
        s
    } else {
        apply(run(s, ops.drop_last()), ops.last())
    }
}

/// Whatever is asked of the arbiter and in whatever order, at no point does
/// it report the camera open for the preview and for a capture at once, and
/// a capture never begins while the preview still has the camera.
pub proof fn lemma_single_lease(start: ArbiterState, ops: Seq<ArbiterOp>, k: int)
    requires
        0 <= k <= ops.len(),
    ensures
        !(preview_open(run(start, ops.take(k))) && capture_open(run(start, ops.take(k)))),
        k > 0 && ops[k - 1] == ArbiterOp::BeginCapture ==> capture_open(run(start, ops.take(k)))
            && !preview_open(run(start, ops.take(k))),
{
    if k > 0 {
        assert(ops.take(k).last() == ops[k - 1]);
    }
}

/// A capture that was begun and finished leaves the camera closed,
/// whatever state it began in.
pub proof fn lemma_capture_closes(s: ArbiterState)
    ensures
        apply(apply(s, ArbiterOp::BeginCapture), ArbiterOp::FinishCapture) == ArbiterState::Closed,
{
}

/// Keeps the books on the camera: closed, open for the preview, or taken
/// for one frame.
#[derive(Debug)]
pub struct DeviceArbiter {
    lease: Option<DeviceLease>,
}

impl View for DeviceArbiter {
    type V = ArbiterState;

    closed spec fn view(&self) -> ArbiterState {
        match self.lease {
            None => ArbiterState::Closed,
            Some(lease) => match lease.holder {
                LeaseHolder::Preview => ArbiterState::PreviewOpen,
                LeaseHolder::Capture => ArbiterState::CaptureInFlight,
            },
        }
    }
}

impl DeviceArbiter {
    /// An arbiter over a closed camera.
    pub fn new() -> (arbiter: Self)
        ensures
            arbiter@ == ArbiterState::Closed,
    {
        DeviceArbiter { lease: None }
    }

    /// What the arbiter reports of the camera now.
    pub fn state(&self) -> (s: ArbiterState)
        ensures
            s == self@,
    {
        match &self.lease {
            None => ArbiterState::Closed,
            Some(lease) => match lease.holder {
                LeaseHolder::Preview => ArbiterState::PreviewOpen,
                LeaseHolder::Capture => ArbiterState::CaptureInFlight,
            },
        }
    }

    /// Whether the device has to be opened for the preview to start: only
    /// when the camera is closed.
    pub fn preview_needs_device(&self) -> (needed: bool)
        ensures
            needed == (self@ == ArbiterState::Closed),
    {
        self.lease.is_none()
    }

    /// Records a request for the preview. `opened` reports the attempt to
    /// open the device, made only if `preview_needs_device` said so. Returns
    /// whether the preview is running afterwards.
    pub fn enable_preview(&mut self, opened: bool) -> (running: bool)
        ensures
            final(self)@ == apply(old(self)@, ArbiterOp::EnablePreview { opened }),
            running == (final(self)@ == ArbiterState::PreviewOpen),
    {
        match self.state() {
            ArbiterState::Closed => {
                if opened {
                    self.lease = Some(DeviceLease { holder: LeaseHolder::Preview });
                }
                opened
            },
            ArbiterState::PreviewOpen => true,
            ArbiterState::CaptureInFlight => false,
        }
    }

    /// Ends the preview. Returns whether the device has to be closed, which
    /// is so exactly when the preview was running.
    pub fn disable_preview(&mut self) -> (release: bool)
        ensures
            final(self)@ == apply(old(self)@, ArbiterOp::DisablePreview),
            release == (old(self)@ == ArbiterState::PreviewOpen),
    {
        match self.state() {
            ArbiterState::PreviewOpen => {
                self.lease = None;
                true
            },
            _ => false,
        }
    }

    /// Takes the camera for one frame. Unless a capture is already in
    /// flight, the camera goes to the capture, and the answer says whether
    /// the preview has to let go of the device first.
    pub fn one_shot_capture(&mut self) -> (start: CaptureStart)
        ensures
            final(self)@ == apply(old(self)@, ArbiterOp::BeginCapture),
            start == match old(self)@ {
                ArbiterState::Closed => CaptureStart::Capture,
                ArbiterState::PreviewOpen => CaptureStart::ReleasePreviewThenCapture,
                ArbiterState::CaptureInFlight => CaptureStart::Refused,
            },
    {
        let start = match self.state() {
            ArbiterState::Closed => CaptureStart::Capture,
            ArbiterState::PreviewOpen => CaptureStart::ReleasePreviewThenCapture,
            ArbiterState::CaptureInFlight => CaptureStart::Refused,
        };
        self.lease = Some(DeviceLease { holder: LeaseHolder::Capture });
        start
    }

    /// Records the end of a capture, successful or not: the camera is
    /// closed again. Returns whether a capture was in flight.
    pub fn capture_done(&mut self) -> (was_capturing: bool)
        ensures
            final(self)@ == apply(old(self)@, ArbiterOp::FinishCapture),
            was_capturing == (old(self)@ == ArbiterState::CaptureInFlight),
    {
        match self.state() {
            ArbiterState::CaptureInFlight => {
                self.lease = None;
                true
            },
            _ => false,
        }
    }
}

/// The step at which a capture failed.
#[derive(Debug, Clone, Copy, PartialEq, Eq, Structural)]
pub enum CaptureFailure {
    /// The camera could not be opened.
    Open,
    /// The stream could not be started.
    Stream,
    /// No frame could be read.
    Frame,
    /// The frame could not be decoded.
    Decode,
    /// The picture could not be saved.
    Save,
}

/// `name` inside the directory `dir`, with `/` between the two unless the
/// directory is empty or ends in `/` already.
pub open spec fn inside(dir: Seq<char>, name: Seq<char>) -> Seq<char> {
    if dir.len() == 0 || dir.last() == '/' {
        dir + name
    } else {
        dir + seq!['/'] + name
    }
}

/// The directory that captured frames are saved in, inside the project
/// directory.
pub open spec fn capture_dir_spec(project_dir: Seq<char>) -> Seq<char> {
    inside(project_dir, "webframe_capture"@)
}

/// The file that a captured frame is saved to.
pub open spec fn capture_path_spec(project_dir: Seq<char>) -> Seq<char> {
    inside(capture_dir_spec(project_dir), "current_scan.jpg"@)
}

/// The path of a captured frame is never empty and always ends in
/// `webframe_capture/current_scan.jpg`.
pub proof fn lemma_capture_path_ends(project_dir: Seq<char>)
    ensures
        capture_path_spec(project_dir).len() > 0,
        capture_path_spec(project_dir) == capture_dir_spec(project_dir) + seq!['/']
            + "current_scan.jpg"@,
        capture_path_spec(project_dir).len() >= "webframe_capture/current_scan.jpg"@.len(),
        capture_path_spec(project_dir).subrange(
            capture_path_spec(project_dir).len() - "webframe_capture/current_scan.jpg"@.len(),
            capture_path_spec(project_dir).len() as int,
        ) == "webframe_capture/current_scan.jpg"@,
{
    reveal_strlit("webframe_capture");
    reveal_strlit("current_scan.jpg");
    reveal_strlit("webframe_capture/current_scan.jpg");
    let dir = capture_dir_spec(project_dir);
    let name = "webframe_capture"@;
    assert(dir.len() >= name.len());
    assert(dir.last() == name.last());
    assert(name.last() == 'e');
    let path = capture_path_spec(project_dir);
    let tail = "webframe_capture/current_scan.jpg"@;
    assert(name + seq!['/'] + "current_scan.jpg"@ =~= tail);
    assert(dir.subrange(dir.len() - name.len(), dir.len() as int) =~= name);
    assert(path.subrange(path.len() - tail.len(), path.len() as int) =~= tail);
}

fn join_inside(dir: &str, name: &str) -> (path: String)
    ensures
        path@ == inside(dir@, name@),
{
    let chars = crate::text::chars_of(dir);
    let mut path = String::from_str(dir);
    if chars.len() > 0 && chars[chars.len() - 1] != '/' {
        proof {
            reveal_strlit("/");
        }
        path.append("/");
    }
    path.append(name);
    assert(path@ =~= inside(dir@, name@));
    path
}

/// The directory that captured frames are saved in.
pub fn capture_dir(project_dir: &str) -> (dir: String)
    ensures
        dir@ == capture_dir_spec(project_dir@),
{
    join_inside(project_dir, "webframe_capture")
}

/// The file that a captured frame is saved to.
pub fn capture_path(project_dir: &str) -> (path: String)
    ensures
        path@ == capture_path_spec(project_dir@),
        path@.len() > 0,
{
    proof {
        lemma_capture_path_ends(project_dir@);
    }
    let dir = capture_dir(project_dir);
    join_inside(dir.as_str(), "current_scan.jpg")
}

/// What a capture hands on, going by how the device fared: the path of the
/// saved frame if every step worked, and the empty text if one failed.
pub fn capture_frame(failure: Option<CaptureFailure>, project_dir: &str) -> (reported: String)
    ensures
        reported@ == if failure is None {
            capture_path_spec(project_dir@)
        } else {
            Seq::<char>::empty()
        },
        reported@.len() > 0 <==> failure is None,
{
    match failure {
        None => capture_path(project_dir),
        Some(_) => String::new(),
    }
}

} // verus!
