//! Access masks for image layout transitions.
//!
//! Before the explicit backend records a pipeline barrier it must say which
//! accesses finish under the old layout and which begin under the new one.
//! That choice depends only on the two layouts; it is made here, and the
//! barrier recording itself is a device call outside the verified core. The
//! backend transitions between a fixed set of layouts; asking for any other
//! indicates a violated invariant, so callers must rule it out.

use vstd::prelude::*;

verus! {

/// The image layouts the backend transitions between.
#[derive(Clone, Copy, PartialEq, Eq, Structural, Debug)]
pub enum ImageLayout {
    Undefined,
    General,
    ColorAttachment,
    DepthStencilAttachment,
    ShaderReadOnly,
    TransferSrc,
    TransferDst,
    Preinitialized,
    PresentSrc,
}

/// Host writes must have finished.
pub const ACCESS_HOST_WRITE: u32 = 0x4000;

/// Host reads may begin.
pub const ACCESS_HOST_READ: u32 = 0x2000;

/// Colour attachment writes are involved.
pub const ACCESS_COLOR_ATTACHMENT_WRITE: u32 = 0x100;

/// Transfer reads are involved.
pub const ACCESS_TRANSFER_READ: u32 = 0x800;

/// Transfer writes are involved.
pub const ACCESS_TRANSFER_WRITE: u32 = 0x1000;

/// Shader reads may begin.
pub const ACCESS_SHADER_READ: u32 = 0x20;

/// Depth attachment writes may begin.
pub const ACCESS_DEPTH_STENCIL_ATTACHMENT_WRITE: u32 = 0x400;

/// Presentation reads may begin.
pub const ACCESS_MEMORY_READ: u32 = 0x8000;


/// A command buffer is recorded for one submission only.
pub const USAGE_ONE_TIME_SUBMIT: u32 = 1;

/// A secondary command buffer lives entirely inside a render pass.
pub const USAGE_RENDER_PASS_CONTINUE: u32 = 2;

/// A command buffer may be resubmitted while still pending.
pub const USAGE_SIMULTANEOUS_USE: u32 = 4;

/// The usage flags a command-buffer recording begins with.
pub fn command_buffer_usage_flags(
    one_time_submit: bool,
    render_pass_continue: bool,
    simultaneous_use: bool,
) -> (flags: u32)
    ensures
        flags == (if one_time_submit {
            USAGE_ONE_TIME_SUBMIT as int
        } else {
            0int
        }) + (if render_pass_continue {
            USAGE_RENDER_PASS_CONTINUE as int
        } else {
            0int
        }) + (if simultaneous_use {
            USAGE_SIMULTANEOUS_USE as int
        } else {
            0int
        }),
{
    let mut flags: u32 = 0;
    if one_time_submit {
        flags = flags + USAGE_ONE_TIME_SUBMIT;
    }
    if render_pass_continue {
        flags = flags + USAGE_RENDER_PASS_CONTINUE;
    }
    if simultaneous_use {
        flags = flags + USAGE_SIMULTANEOUS_USE;
    }
    flags
}

/// The driver's code for each layout.
pub open spec fn spec_layout_code(l: ImageLayout) -> u32 {
    match l {
        ImageLayout::Undefined => 0,
        ImageLayout::General => 1,
        ImageLayout::ColorAttachment => 2,
        ImageLayout::DepthStencilAttachment => 3,
        ImageLayout::ShaderReadOnly => 5,
        ImageLayout::TransferSrc => 6,
        ImageLayout::TransferDst => 7,
        ImageLayout::Preinitialized => 8,
        ImageLayout::PresentSrc => 1000001002,
    }
}

/// Which layouts the backend ever transitions away from.
pub open spec fn spec_supported_source(l: ImageLayout) -> bool {
    match l {
        ImageLayout::Preinitialized => true,
        ImageLayout::ColorAttachment => true,
        ImageLayout::TransferSrc => true,
        ImageLayout::TransferDst => true,
        ImageLayout::Undefined => true,
        _ => false,
    }
}

impl ImageLayout {
    /// The driver's code for this layout.
    pub fn code(self) -> (c: u32)
        ensures
            c == spec_layout_code(self),
    {
        match self {
            ImageLayout::Undefined => 0,
            ImageLayout::General => 1,
            ImageLayout::ColorAttachment => 2,
            ImageLayout::DepthStencilAttachment => 3,
            ImageLayout::ShaderReadOnly => 5,
            ImageLayout::TransferSrc => 6,
            ImageLayout::TransferDst => 7,
            ImageLayout::Preinitialized => 8,
            ImageLayout::PresentSrc => 1000001002,
        }
    }

    /// The accesses a transition away from this layout must wait on.
    pub fn transition_source_access(self) -> (mask: u32)
        requires
            spec_supported_source(self),
        ensures
            self == ImageLayout::Preinitialized ==> mask == ACCESS_HOST_WRITE,
            self == ImageLayout::ColorAttachment ==> mask == ACCESS_COLOR_ATTACHMENT_WRITE,
            self == ImageLayout::TransferSrc ==> mask == ACCESS_TRANSFER_READ,
            self == ImageLayout::TransferDst ==> mask == ACCESS_TRANSFER_WRITE,
            self == ImageLayout::Undefined ==> mask == 0,
    {
        match self {
            ImageLayout::Preinitialized => ACCESS_HOST_WRITE,
            ImageLayout::ColorAttachment => ACCESS_COLOR_ATTACHMENT_WRITE,
            ImageLayout::TransferSrc => ACCESS_TRANSFER_READ,
            ImageLayout::TransferDst => ACCESS_TRANSFER_WRITE,
            _ => 0,
        }
    }

    /// The accesses a transition into this layout unblocks.
    pub fn transition_destination_access(self) -> (mask: u32)
        ensures
            self == ImageLayout::Preinitialized ==> mask == ACCESS_HOST_WRITE,
            self == ImageLayout::ColorAttachment ==> mask == ACCESS_COLOR_ATTACHMENT_WRITE,
            self == ImageLayout::TransferSrc ==> mask == ACCESS_TRANSFER_READ,
            self == ImageLayout::TransferDst ==> mask == ACCESS_TRANSFER_WRITE,
            self == ImageLayout::ShaderReadOnly ==> mask == ACCESS_SHADER_READ,
            self == ImageLayout::DepthStencilAttachment ==> mask
                == ACCESS_DEPTH_STENCIL_ATTACHMENT_WRITE,
            self == ImageLayout::PresentSrc ==> mask == ACCESS_MEMORY_READ,
            self == ImageLayout::General ==> mask == ACCESS_HOST_READ,
            self == ImageLayout::Undefined ==> mask == 0,
    {
        match self {
            ImageLayout::Preinitialized => ACCESS_HOST_WRITE,
            ImageLayout::ColorAttachment => ACCESS_COLOR_ATTACHMENT_WRITE,
            ImageLayout::TransferSrc => ACCESS_TRANSFER_READ,
            ImageLayout::TransferDst => ACCESS_TRANSFER_WRITE,
            ImageLayout::ShaderReadOnly => ACCESS_SHADER_READ,
            ImageLayout::DepthStencilAttachment => ACCESS_DEPTH_STENCIL_ATTACHMENT_WRITE,
            ImageLayout::PresentSrc => ACCESS_MEMORY_READ,
            ImageLayout::General => ACCESS_HOST_READ,
            ImageLayout::Undefined => 0,
        }
    }
}

} // verus!
