//! Decisions over what the device reports: memory types, surface formats,
//! presentation modes, descriptor-set counts and the layer lists requested
//! at instance creation. The queries themselves are device calls made
//! outside the verified core; their results come in as plain codes and the
//! choices made over them are verified here.

use vstd::prelude::*;

use crate::resources::ResourceManager;
use crate::resources::ShaderSpec;
use crate::resources::str_eq;

verus! {

/// The format code the driver reports when it has no preference.
pub const FORMAT_UNDEFINED: u32 = 0;

/// The 8-bit RGBA format chosen when the driver has no preference.
pub const FORMAT_R8G8B8A8_UNORM: u32 = 37;

/// The non-linear sRGB colour-space code.
pub const COLOR_SPACE_SRGB_NONLINEAR: u32 = 0;

/// The always-available queued presentation mode.
pub const PRESENT_MODE_FIFO: u32 = 2;

/// The sentinel returned when no memory type fits.
pub const NO_SUITABLE_MEMORY: u32 = 0xffff_ffff;

/// Whether memory type `i` fits: the resource's type filter has bit `i`
/// set, and the type carries every required property flag.
pub open spec fn spec_memory_suitable(
    type_filter: u32,
    flags: Seq<u32>,
    properties: u32,
    i: int,
) -> bool {
    &&& (type_filter >> (i as u32)) & 1 == 1
    &&& flags[i] & properties == properties
}

/// The first device memory type that fits the resource: its index bit is
/// set in `type_filter` and it has every flag of `properties`. Returns the
/// no-memory sentinel when none fits.
pub fn find_suitable_memory(type_filter: u32, memory_type_flags: &Vec<u32>, properties: u32) -> (r:
    u32)
    requires
        memory_type_flags@.len() <= 32,
    ensures
        r == NO_SUITABLE_MEMORY ==> forall|i: int|
            0 <= i < memory_type_flags@.len() ==> !spec_memory_suitable(
                type_filter,
                memory_type_flags@,
                properties,
                i,
            ),
        r != NO_SUITABLE_MEMORY ==> {
            &&& r < memory_type_flags@.len()
            &&& spec_memory_suitable(type_filter, memory_type_flags@, properties, r as int)
            &&& forall|i: int|
                0 <= i < r ==> !spec_memory_suitable(
                    type_filter,
                    memory_type_flags@,
                    properties,
                    i,
                )
        },
{
    let n = memory_type_flags.len();
    let mut i: usize = 0;
    while i < n
        invariant
            i <= n <= 32,
            n == memory_type_flags@.len(),
            forall|t: int|
                0 <= t < i ==> !spec_memory_suitable(
                    type_filter,
                    memory_type_flags@,
                    properties,
                    t,
                ),
        decreases n - i,
    {
        if (type_filter >> (i as u32)) & 1 == 1 && memory_type_flags[i] & properties == properties {
            return i as u32;
        }
        i = i + 1;
    }
    NO_SUITABLE_MEMORY
}

/// The surface format to render in, from the formats the surface reports:
/// the first reported one, except that a single undefined entry means the
/// driver has no preference and the default 8-bit sRGB RGBA pair is taken.
pub fn choose_surface_format(formats: &Vec<(u32, u32)>) -> (r: (u32, u32))
    requires
        formats@.len() >= 1,
    ensures
        (formats@.len() == 1 && formats@[0].0 == FORMAT_UNDEFINED) ==> r == (
            FORMAT_R8G8B8A8_UNORM,
            COLOR_SPACE_SRGB_NONLINEAR,
        ),
        !(formats@.len() == 1 && formats@[0].0 == FORMAT_UNDEFINED) ==> r == formats@[0],
{
    let first = formats[0];
    if formats.len() == 1 && first.0 == FORMAT_UNDEFINED {
        (FORMAT_R8G8B8A8_UNORM, COLOR_SPACE_SRGB_NONLINEAR)
    } else {
        first
    }
}

/// The presentation mode to use, from the modes the surface reports: the
/// queued mode whenever the surface offers it, else the first reported one.
pub fn choose_presentation_mode(modes: &Vec<u32>) -> (r: u32)
    requires
        modes@.len() >= 1,
    ensures
        (exists|i: int| 0 <= i < modes@.len() && #[trigger] modes@[i] == PRESENT_MODE_FIFO) ==> r
            == PRESENT_MODE_FIFO,
        !(exists|i: int| 0 <= i < modes@.len() && #[trigger] modes@[i] == PRESENT_MODE_FIFO) ==> r
            == modes@[0],
{
    let n = modes.len();
    let mut i: usize = 0;
    while i < n
        invariant
            i <= n,
            n == modes@.len(),
            forall|t: int| 0 <= t < i ==> #[trigger] modes@[t] != PRESENT_MODE_FIFO,
        decreases n - i,
    {
        if modes[i] == PRESENT_MODE_FIFO {
            return PRESENT_MODE_FIFO;
        }
        i = i + 1;
    }
    modes[0]
}

/// Whether `v` is the set index of a resource the shader uses: of one of
/// its uniform blocks — the first block of that name in the tables — or of
/// one of its opaque uniforms.
pub open spec fn spec_set_candidate(m: ResourceManager, shader: ShaderSpec, v: u32) -> bool {
    ||| exists|i: int, k: int|
        {
            &&& 0 <= i < m.uniform_block_specs@.len()
            &&& 0 <= k < shader.uniform_block_names@.len()
            &&& (#[trigger] m.uniform_block_specs@[i].name)@ == (
            #[trigger] shader.uniform_block_names@[k])@
            &&& (forall|t: int|
                0 <= t < i ==> (#[trigger] m.uniform_block_specs@[t].name)@
                    != shader.uniform_block_names@[k]@)
            &&& v == m.uniform_block_specs@[i].set
        }
    ||| exists|j: int|
        0 <= j < shader.uniform_specs@.len() && v == (#[trigger] shader.uniform_specs@[j]).set
}


/// The depth format with a 32-bit depth and an 8-bit stencil part.
pub const FORMAT_D32_SFLOAT_S8_UINT: u32 = 130;

/// The depth format with a 24-bit depth and an 8-bit stencil part.
pub const FORMAT_D24_UNORM_S8_UINT: u32 = 129;

/// Whether a depth format carries a stencil component, which a layout
/// transition must then include.
pub fn has_stencil_component(format: u32) -> (r: bool)
    ensures
        r == (format == FORMAT_D32_SFLOAT_S8_UINT || format == FORMAT_D24_UNORM_S8_UINT),
{
    format == FORMAT_D32_SFLOAT_S8_UINT || format == FORMAT_D24_UNORM_S8_UINT
}

/// Whether a candidate format supports the required features under the
/// requested tiling, given the feature sets the device reports for it as a
/// (format, linear-tiling features, optimal-tiling features) triple.
pub open spec fn spec_format_fits(candidate: (u32, u32, u32), linear: bool, features: u32) -> bool {
    if linear {
        candidate.1 & features == features
    } else {
        candidate.2 & features == features
    }
}

/// The first format of a list that fits the desired features under the
/// requested tiling; the device's reported feature sets come in beside each
/// candidate. None fitting is a fatal configuration error for the caller.
pub fn choose_supported_format(candidates: &Vec<(u32, u32, u32)>, linear: bool, features: u32) -> (
    r: Option<u32>)
    ensures
        match r {
            Some(f) => exists|i: int|
                {
                    &&& 0 <= i < candidates@.len()
                    &&& spec_format_fits(#[trigger] candidates@[i], linear, features)
                    &&& (forall|t: int|
                        0 <= t < i ==> !spec_format_fits(
                            #[trigger] candidates@[t],
                            linear,
                            features,
                        ))
                    &&& f == candidates@[i].0
                },
            None => forall|i: int|
                0 <= i < candidates@.len() ==> !spec_format_fits(
                    #[trigger] candidates@[i],
                    linear,
                    features,
                ),
        },
{
    let n = candidates.len();
    let mut i: usize = 0;
    while i < n
        invariant
            i <= n,
            n == candidates@.len(),
            forall|t: int|
                0 <= t < i ==> !spec_format_fits(#[trigger] candidates@[t], linear, features),
        decreases n - i,
    {
        let c = candidates[i];
        let supported = if linear {
            c.1 & features == features
        } else {
            c.2 & features == features
        };
        if supported {
            return Some(c.0);
        }
        i = i + 1;
    }
    None
}


/// The validation and monitoring layers requested at instance creation: the
/// frame monitor always, the validation layer when device debugging is
/// asked for, and the call-dump layer at the higher debug level.
pub fn instance_layers(vk_debug_mask: u32, debug_level: u32) -> (r: Vec<String>)
    ensures
        r.deep_view().len() == 1 + (if vk_debug_mask != 0 {
            1int
        } else {
            0int
        }) + (if vk_debug_mask != 0 && debug_level > 1 {
            1int
        } else {
            0int
        }),
        r.deep_view()[0] == "VK_LAYER_LUNARG_monitor"@,
        vk_debug_mask != 0 ==> r.deep_view()[1] == "VK_LAYER_LUNARG_standard_validation"@,
        vk_debug_mask != 0 && debug_level > 1 ==> r.deep_view()[2] == "VK_LAYER_LUNARG_api_dump"@,
{
    let mut layers: Vec<String> = Vec::new();
    layers.push("VK_LAYER_LUNARG_monitor".to_owned());
    if vk_debug_mask != 0 {
        layers.push("VK_LAYER_LUNARG_standard_validation".to_owned());
        if debug_level > 1 {
            layers.push("VK_LAYER_LUNARG_api_dump".to_owned());
        }
    }
    layers
}

/// The instance extensions requested at instance creation: whatever the
/// windowing library requires, and the debug-report extension when device
/// debugging is asked for.
pub fn instance_extensions(required: &Vec<String>, vk_debug_mask: u32) -> (r: Vec<String>)
    ensures
        vk_debug_mask == 0 ==> r.deep_view() == required.deep_view(),
        vk_debug_mask != 0 ==> r.deep_view() == required.deep_view().push(
            "VK_EXT_debug_report"@,
        ),
{
    let mut extensions: Vec<String> = Vec::new();
    let n = required.len();
    let mut i: usize = 0;
    while i < n
        invariant
            i <= n,
            n == required@.len(),
            extensions.deep_view() == required.deep_view().take(i as int),
        decreases n - i,
    {
        let item = required[i].clone();
        proof {
            assert(item@ == required.deep_view()[i as int]);
        }
        let ghost dv = extensions.deep_view();
        extensions.push(item);
        proof {
            assert(extensions.deep_view() =~= dv.push(required.deep_view()[i as int]));
            assert(extensions.deep_view() =~= required.deep_view().take(i + 1));
        }
        i = i + 1;
    }
    proof {
        assert(required.deep_view().take(n as int) =~= required.deep_view());
    }
    if vk_debug_mask != 0 {
        let ghost dv = extensions.deep_view();
        extensions.push("VK_EXT_debug_report".to_owned());
        proof {
            assert(extensions.deep_view() =~= dv.push("VK_EXT_debug_report"@));
        }
    }
    extensions
}

/// The device extensions requested at device creation: presentation needs
/// the swapchain extension.
pub fn device_extensions() -> (r: Vec<String>)
    ensures
        r.deep_view().len() == 1,
        r.deep_view()[0] == "VK_KHR_swapchain"@,
{
    let mut extensions: Vec<String> = Vec::new();
    extensions.push("VK_KHR_swapchain".to_owned());
    extensions
}

impl ResourceManager {
    /// The set index of the first block of the given name, if the tables
    /// know one.
    fn find_block_set(&self, name: &str) -> (r: Option<u32>)
        ensures
            match r {
                Some(v) => exists|i: int|
                    {
                        &&& 0 <= i < self.uniform_block_specs@.len()
                        &&& (#[trigger] self.uniform_block_specs@[i].name)@ == name@
                        &&& (forall|t: int|
                            0 <= t < i ==> (#[trigger] self.uniform_block_specs@[t].name)@ != name@)
                        &&& v == self.uniform_block_specs@[i].set
                    },
                None => forall|i: int|
                    0 <= i < self.uniform_block_specs@.len() ==> (
                    #[trigger] self.uniform_block_specs@[i].name)@ != name@,
            },
    {
        let nb = self.uniform_block_specs.len();
        let mut i: usize = 0;
        while i < nb
            invariant
                i <= nb,
                nb == self.uniform_block_specs@.len(),
                forall|t: int|
                    0 <= t < i ==> (#[trigger] self.uniform_block_specs@[t].name)@ != name@,
            decreases nb - i,
        {
            if str_eq(self.uniform_block_specs[i].name.as_str(), name) {
                return Some(self.uniform_block_specs[i].set);
            }
            i = i + 1;
        }
        None
    }

    /// The highest descriptor-set index the shader's resources use: zero
    /// when it uses none. A block name the tables do not know contributes
    /// nothing.
    pub fn number_of_sets(&self, shader_spec: &ShaderSpec) -> (r: u32)
        ensures
            r == 0 || spec_set_candidate(*self, *shader_spec, r),
            forall|v: u32| spec_set_candidate(*self, *shader_spec, v) ==> v <= r,
    {
        let mut max_set: u32 = 0;
        let nk = shader_spec.uniform_block_names.len();
        let mut k: usize = 0;
        while k < nk
            invariant
                k <= nk,
                nk == shader_spec.uniform_block_names@.len(),
                max_set == 0 || spec_set_candidate(*self, *shader_spec, max_set),
                forall|kk: int, i: int|
                    {
                        &&& 0 <= kk < k
                        &&& 0 <= i < self.uniform_block_specs@.len()
                        &&& (#[trigger] self.uniform_block_specs@[i].name)@ == (
                        #[trigger] shader_spec.uniform_block_names@[kk])@
                        &&& (forall|t: int|
                            0 <= t < i ==> (#[trigger] self.uniform_block_specs@[t].name)@
                                != shader_spec.uniform_block_names@[kk]@)
                    } ==> self.uniform_block_specs@[i].set <= max_set,
            decreases nk - k,
        {
            match self.find_block_set(shader_spec.uniform_block_names[k].as_str()) {
                Some(v) => {
                    if v > max_set {
                        max_set = v;
                        proof {
                            assert(spec_set_candidate(*self, *shader_spec, max_set));
                        }
                    }
                },
                None => {},
            }
            k = k + 1;
        }
        let nu = shader_spec.uniform_specs.len();
        let mut j: usize = 0;
        while j < nu
            invariant
                j <= nu,
                nu == shader_spec.uniform_specs@.len(),
                max_set == 0 || spec_set_candidate(*self, *shader_spec, max_set),
                forall|kk: int, i: int|
                    {
                        &&& 0 <= kk < shader_spec.uniform_block_names@.len()
                        &&& 0 <= i < self.uniform_block_specs@.len()
                        &&& (#[trigger] self.uniform_block_specs@[i].name)@ == (
                        #[trigger] shader_spec.uniform_block_names@[kk])@
                        &&& (forall|t: int|
                            0 <= t < i ==> (#[trigger] self.uniform_block_specs@[t].name)@
                                != shader_spec.uniform_block_names@[kk]@)
                    } ==> self.uniform_block_specs@[i].set <= max_set,
                forall|t: int|
                    0 <= t < j ==> (#[trigger] shader_spec.uniform_specs@[t]).set <= max_set,
            decreases nu - j,
        {
            if shader_spec.uniform_specs[j].set > max_set {
                max_set = shader_spec.uniform_specs[j].set;
            }
            j = j + 1;
        }
        max_set
    }
}

} // verus!
