use vstd::prelude::*;
use crate::error::CaptureError;

verus! {

/// How the bytes of a pixel are laid out.
#[derive(Clone, Copy, Debug, PartialEq, Eq, Structural)]
pub enum FourCc {
    /// Blue, green, red, alpha: one byte each.
    Bgra,
    /// Blue, green, red and a byte that is not looked at.
    Bgrx,
}

/// How the lines of a frame follow each other.
#[derive(Clone, Copy, Debug, PartialEq, Eq, Structural)]
pub enum FrameFormat {
    Interleaved,
    Progressive,
    Field0,
    Field1,
}

/// What the transport is asked for when a sender is created.
#[derive(Clone, Debug)]
pub struct SendCreate {
    pub name: String,
    pub groups: Option<String>,
    pub clock_video: bool,
    pub clock_audio: bool,
}

/// One frame as it is handed to the transport. `data` is the address of the
/// first pixel; it is passed through and never read here.
#[derive(Clone, Copy, Debug, PartialEq, Eq, Structural)]
pub struct VideoFrame {
    pub xres: i32,
    pub yres: i32,
    pub four_cc: FourCc,
    pub frame_rate_n: i32,
    pub frame_rate_d: i32,
    pub frame_format: FrameFormat,
    pub timecode: i64,
    pub data: usize,
    pub line_stride_in_bytes: i32,
    pub timestamp: i64,
}

/// The one endpoint through which every frame leaves. It exists only once
/// the transport has handed out a handle for it.
#[derive(Debug)]
pub struct Sender {
    name: String,
    handle: u64,
}

/// A sender's name is handed to the transport as a string that ends at the
/// first zero character, so it may hold none.
pub open spec fn valid_sender_name(name: Seq<char>) -> bool {
    !name.contains('\0')
}

/// The frame that is sent for a buffer of the given extent at the given
/// address: BGRX, progressive, and without a frame rate, a time code, a line
/// stride or a time stamp of its own, so that the transport neither paces nor
/// reorders anything.
pub open spec fn unclocked_frame(width: i32, height: i32, data: usize) -> VideoFrame {
    VideoFrame {
        xres: width,
        yres: height,
        four_cc: FourCc::Bgrx,
        frame_rate_n: 0,
        frame_rate_d: 0,
        frame_format: FrameFormat::Progressive,
        timecode: 0,
        data,
        line_stride_in_bytes: 0,
        timestamp: 0,
    }
}

/// Builds the frame that [`unclocked_frame`] describes.
pub fn video_frame(width: i32, height: i32, data: usize) -> (frame: VideoFrame)
    ensures
        frame == unclocked_frame(width, height, data),
{
    VideoFrame {
        xres: width,
        yres: height,
        four_cc: FourCc::Bgrx,
        frame_rate_n: 0,
        frame_rate_d: 0,
        frame_format: FrameFormat::Progressive,
        timecode: 0,
        data,
        line_stride_in_bytes: 0,
        timestamp: 0,
    }
}

/// Whether the name can be handed to the transport: see [`valid_sender_name`].
pub fn sender_name_is_valid(name: &str) -> (valid: bool)
    ensures
        valid == valid_sender_name(name@),
{
    let n: usize = name.unicode_len();
    let mut i: usize = 0;
    while i < n
        invariant
            n == name@.len(),
            i <= n,
            forall|k: int| 0 <= k < i ==> name@[k] != '\0',
        decreases n - i,
    {
        if name.get_char(i) == '\0' {
            return false;
        }
        i += 1;
    }
    true
}

impl Sender {
    /// What to ask of the transport for a sender of this name: no groups,
    /// and neither video nor audio clocked.
    pub fn create_request(ndi_name: &str) -> (request: Result<SendCreate, CaptureError>)
        ensures
            valid_sender_name(ndi_name@) ==> (request matches Ok(r) && r.name@ == ndi_name@
                && r.groups.is_none() && !r.clock_video && !r.clock_audio),
            !valid_sender_name(ndi_name@) ==> request == Err::<SendCreate, CaptureError>(
                CaptureError::SenderConstructionError,
            ),
    {
        if !sender_name_is_valid(ndi_name) {
            return Err(CaptureError::SenderConstructionError);
        }
        Ok(
            SendCreate {
                name: ndi_name.to_owned(),
                groups: None,
                clock_video: false,
                clock_audio: false,
            },
        )
    }

    /// The sender for the handle that the transport gave for `ndi_name`. A
    /// zero handle means that the transport had nothing to give.
    pub fn new(ndi_name: &str, handle: u64) -> (sender: Result<Sender, CaptureError>)
        ensures
            (handle != 0 && valid_sender_name(ndi_name@)) ==> (sender matches Ok(s) && s.wf()
                && s.name() == ndi_name@ && s.handle() == handle),
            (handle == 0 || !valid_sender_name(ndi_name@)) ==> sender == Err::<
                Sender,
                CaptureError,
            >(CaptureError::SenderConstructionError),
    {
        if handle == 0 || !sender_name_is_valid(ndi_name) {
            return Err(CaptureError::SenderConstructionError);
        }
        Ok(Sender { name: ndi_name.to_owned(), handle })
    }

    /// A sender always has a handle: none is made from the zero handle.
    pub open spec fn wf(self) -> bool {
        self.handle() != 0
    }

    pub closed spec fn name(self) -> Seq<char> {
        self.name@
    }

    pub closed spec fn handle(self) -> u64 {
        self.handle
    }

    /// The name the sender was created with.
    pub fn ndi_name(&self) -> (name: &String)
        ensures
            name@ == self.name(),
    {
        &self.name
    }

    /// The transport's handle.
    pub fn send_instance(&self) -> (handle: u64)
        ensures
            handle == self.handle(),
    {
        self.handle
    }

    /// The frame to hand to the transport for a buffer of the given extent
    /// whose first pixel is at `data`. Nothing is queued and nothing dropped
    /// here: each call stands for one frame on the wire.
    pub fn send_video(&self, width: i32, height: i32, data: usize) -> (frame: VideoFrame)
        ensures
            frame == unclocked_frame(width, height, data),
    {
        video_frame(width, height, data)
    }
}

} // verus!
