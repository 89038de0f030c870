use vstd::prelude::*;

verus! {

/// Usage bit: the texture can be copied from.
pub const USAGE_COPY_SRC: u32 = 1;

/// Usage bit: the texture can be copied into.
pub const USAGE_COPY_DST: u32 = 2;

/// Usage bit: the texture can be sampled in a shader.
pub const USAGE_TEXTURE_BINDING: u32 = 4;

/// Usage bit: the texture can be written as a storage texture.
pub const USAGE_STORAGE_BINDING: u32 = 8;

/// Usage bit: the texture can be a render pass attachment.
pub const USAGE_RENDER_ATTACHMENT: u32 = 16;

/// Usage of every render target of the weighted blended passes.
pub const TARGET_USAGE: u32 = 20;

#[derive(Clone, Copy, Debug, PartialEq, Eq, Structural)]
pub enum TextureFormat {
    Rgba16Float,
    R8Unorm,
    Rgba8UnormSrgb,
}

#[derive(Clone, Copy, Debug, PartialEq, Eq, Structural)]
pub enum TextureDimension {
    D2,
    D3,
}

/// What a GPU texture is created with.
#[derive(Clone, Copy, Debug, PartialEq, Eq, Structural)]
pub struct TextureDesc {
    pub width: u32,
    pub height: u32,
    pub depth_or_array_layers: u32,
    pub dimension: TextureDimension,
    pub format: TextureFormat,
    pub usage: u32,
}

/// A single-layer 2D render target of the given size and format.
pub open spec fn target_desc(width: u32, height: u32, format: TextureFormat) -> TextureDesc {
    TextureDesc {
        width,
        height,
        depth_or_array_layers: 1,
        dimension: TextureDimension::D2,
        format,
        usage: TARGET_USAGE,
    }
}

pub fn target_texture(width: u32, height: u32, format: TextureFormat) -> (r: TextureDesc)
    ensures
        r == target_desc(width, height, format),
{
    let usage = USAGE_RENDER_ATTACHMENT | USAGE_TEXTURE_BINDING;
    assert(16u32 | 4u32 == 20u32) by (bit_vector);
    TextureDesc { width, height, depth_or_array_layers: 1, dimension: TextureDimension::D2, format, usage }
}

/// The accumulation target and the two revealage targets of one view.
///
/// `revealage[frame_index]` is written this frame; the other one holds the
/// previous frame's revealage.
#[derive(Clone, Copy, Debug)]
pub struct WboitTextures {
    pub accum: TextureDesc,
    pub revealage: [TextureDesc; 2],
    pub frame_index: usize,
}

impl WboitTextures {
    pub open spec fn wf(self) -> bool {
        self.frame_index < 2
    }

    /// Every target of the set has the given pixel size and its own format.
    pub open spec fn sized(self, width: u32, height: u32) -> bool {
        &&& self.accum == target_desc(width, height, TextureFormat::Rgba16Float)
        &&& self.revealage@[0] == target_desc(width, height, TextureFormat::R8Unorm)
        &&& self.revealage@[1] == target_desc(width, height, TextureFormat::R8Unorm)
    }

    /// Index of the revealage target written this frame.
    pub fn write_index(&self) -> (r: usize)
        requires
            self.wf(),
        ensures
            r == self.frame_index,
    {
        self.frame_index
    }

    /// Index of the revealage target that holds the previous frame.
    pub fn read_index(&self) -> (r: usize)
        requires
            self.wf(),
        ensures
            r == 1 - self.frame_index,
            r < 2,
    {
        1 - self.frame_index
    }

    /// The revealage target written this frame.
    pub fn current_revealage(&self) -> (r: TextureDesc)
        requires
            self.wf(),
        ensures
            r == self.revealage@[self.frame_index as int],
    {
        self.revealage[self.frame_index]
    }

    /// The revealage target that holds the previous frame.
    pub fn previous_revealage(&self) -> (r: TextureDesc)
        requires
            self.wf(),
        ensures
            r == self.revealage@[1 - self.frame_index],
    {
        self.revealage[1 - self.frame_index]
    }
}

/// The frame index that a view gets when its textures are prepared: 0 for a
/// view without textures, the other index for one that had them.
pub open spec fn next_frame_index(existing: Option<WboitTextures>) -> usize {
    match existing {
        Some(t) => (1 - t.frame_index) as usize,
        None => 0,
    }
}

pub fn frame_index_after(existing: &Option<WboitTextures>) -> (r: usize)
    requires
        existing matches Some(t) ==> t.wf(),
    ensures
        r == next_frame_index(*existing),
        r < 2,
{
    match existing {
        Some(t) => 1 - t.frame_index,
        None => 0,
    }
}

/// The texture set of a view whose viewport is `width` by `height`.
pub fn wboit_textures_for(width: u32, height: u32, frame_index: usize) -> (r: WboitTextures)
    requires
        frame_index < 2,
    ensures
        r.wf(),
        r.sized(width, height),
        r.frame_index == frame_index,
{
    let accum = target_texture(width, height, TextureFormat::Rgba16Float);
    let revealage_a = target_texture(width, height, TextureFormat::R8Unorm);
    let revealage_b = target_texture(width, height, TextureFormat::R8Unorm);
    WboitTextures { accum, revealage: [revealage_a, revealage_b], frame_index }
}

/// Prepares the textures of a view for this frame.
///
/// Without a known viewport the view is skipped and keeps what it had. With
/// one, every target is sized to it, and the frame index starts at 0 for a new
/// view or flips for one that already had textures.
pub fn prepare_wboit_textures(
    existing: Option<WboitTextures>,
    viewport: Option<(u32, u32)>,
) -> (r: Option<WboitTextures>)
    requires
        existing matches Some(t) ==> t.wf(),
    ensures
        viewport is None ==> r == existing,
        viewport matches Some((w, h)) ==> r matches Some(t) && t.wf() && t.sized(w, h)
            && t.frame_index == next_frame_index(existing),
{
    match viewport {
        None => existing,
        Some((width, height)) => {
            let frame_index = frame_index_after(&existing);
            Some(wboit_textures_for(width, height, frame_index))
        },
    }
}

} // verus!
