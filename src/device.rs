//! Physical-device scoring, queue-family selection and version decoding.

use vstd::prelude::*;

verus! {

/// Relies on `ash::vk::api_version_variant`: the top three bits of a packed version.
#[verifier::external_body]
fn ash_api_version_variant(version: u32) -> (r: u32)
    ensures
        r == version >> 29u32,
{
    ash::vk::api_version_variant(version)
}

/// Relies on `ash::vk::api_version_major`: bits 22 to 28 of a packed version.
#[verifier::external_body]
fn ash_api_version_major(version: u32) -> (r: u32)
    ensures
        r == (version >> 22u32) & 0x7fu32,
{
    ash::vk::api_version_major(version)
}

/// Relies on `ash::vk::api_version_minor`: bits 12 to 21 of a packed version.
#[verifier::external_body]
fn ash_api_version_minor(version: u32) -> (r: u32)
    ensures
        r == (version >> 12u32) & 0x3ffu32,
{
    ash::vk::api_version_minor(version)
}

/// Relies on `ash::vk::api_version_patch`: the low twelve bits of a packed version.
#[verifier::external_body]
fn ash_api_version_patch(version: u32) -> (r: u32)
    ensures
        r == version & 0xfffu32,
{
    ash::vk::api_version_patch(version)
}

/// Major, minor, patch and variant parts of a packed Vulkan API version.
#[derive(Clone, Copy, Debug, PartialEq, Eq)]
pub struct ApiVersion {
    pub variant: u32,
    pub major: u32,
    pub minor: u32,
    pub patch: u32,
}

/// The parts of a packed Vulkan API version.
pub open spec fn api_version_of(v: u32) -> ApiVersion {
    ApiVersion {
        variant: v >> 29u32,
        major: (v >> 22u32) & 0x7fu32,
        minor: (v >> 12u32) & 0x3ffu32,
        patch: v & 0xfffu32,
    }
}

/// The parts of a packed driver version, read the way most drivers pack
/// it: ten bits of major above ten bits of minor above twelve of patch.
pub open spec fn driver_version_of(v: u32) -> (u32, u32, u32) {
    (v >> 22u32, (v >> 12u32) & 0x3ffu32, v & 0xfffu32)
}

impl ApiVersion {
    /// Splits a packed Vulkan API version into its parts.
    pub fn from_packed(version: u32) -> (r: ApiVersion)
        ensures
            r == api_version_of(version),
            r.variant < 8,
            r.major < 128,
            r.minor < 1024,
            r.patch < 4096,
    {
        let r = ApiVersion {
            variant: ash_api_version_variant(version),
            major: ash_api_version_major(version),
            minor: ash_api_version_minor(version),
            patch: ash_api_version_patch(version),
        };
        assert(version >> 29u32 < 8) by (bit_vector);
        assert(((version >> 22u32) & 0x7fu32) < 128) by (bit_vector);
        assert(((version >> 12u32) & 0x3ffu32) < 1024) by (bit_vector);
        assert((version & 0xfffu32) < 4096) by (bit_vector);
        r
    }
}

/// The kind of a physical device.
#[derive(Clone, Copy, Debug, PartialEq, Eq)]
pub enum DeviceType {
    Other,
    IntegratedGpu,
    DiscreteGpu,
    VirtualGpu,
    Cpu,
}

/// What a queue family offers.
#[derive(Clone, Copy, Debug, PartialEq, Eq)]
pub struct QueueFamilyInfo {
    pub queue_count: u32,
    pub graphics: bool,
    pub transfer: bool,
    /// Whether the family can present to the window's surface.
    pub present: bool,
}

/// What scoring needs to know of a physical device.
#[derive(Clone, Debug)]
pub struct DeviceInfo {
    pub device_type: DeviceType,
    pub max_image_dimension_2d: u32,
    pub geometry_shader: bool,
    pub queue_families: Vec<QueueFamilyInfo>,
}

pub open spec fn type_bonus(t: DeviceType) -> int {
    match t {
        DeviceType::DiscreteGpu => 1000,
        DeviceType::VirtualGpu => 500,
        DeviceType::IntegratedGpu => 250,
        _ => 0,
    }
}

pub open spec fn graphics_capable(q: QueueFamilyInfo) -> bool {
    q.queue_count > 0 && q.graphics
}

pub open spec fn transfer_capable(q: QueueFamilyInfo) -> bool {
    q.queue_count > 0 && q.transfer
}

/// A device's score: 0 when it lacks geometry shaders or a family with
/// graphics queues or one with transfer queues; otherwise a bonus for its
/// kind (discrete 1000, virtual 500, integrated 250) plus its largest 2D
/// image size.
pub open spec fn rating(d: DeviceInfo) -> int {
    if !d.geometry_shader
        || !(exists|i: int| 0 <= i < d.queue_families@.len() && #[trigger] graphics_capable(d.queue_families@[i]))
        || !(exists|i: int| 0 <= i < d.queue_families@.len() && #[trigger] transfer_capable(d.queue_families@[i])) {
        0
    } else {
        type_bonus(d.device_type) + d.max_image_dimension_2d
    }
}

/// Physical-device scoring and choice.
pub struct PhysicalDevice {}

impl PhysicalDevice {
    /// The score of one device; higher is better, 0 is unusable.
    pub fn rate_physical_device(device: &DeviceInfo) -> (r: u64)
        ensures
            r == rating(*device),
    {
        let mut score: u64 = match device.device_type {
            DeviceType::DiscreteGpu => 1000,
            DeviceType::VirtualGpu => 500,
            DeviceType::IntegratedGpu => 250,
            _ => 0,
        };
        score = score + device.max_image_dimension_2d as u64;
        if !device.geometry_shader {
            return 0;
        }
        let mut found_graphics = false;
        let mut found_transfer = false;
        let mut i: usize = 0;
        while i < device.queue_families.len()
            invariant
                i <= device.queue_families@.len(),
                found_graphics <==> exists|j: int| 0 <= j < i && #[trigger] graphics_capable(device.queue_families@[j]),
                found_transfer <==> exists|j: int| 0 <= j < i && #[trigger] transfer_capable(device.queue_families@[j]),
            decreases device.queue_families@.len() - i,
        {
            let q = device.queue_families[i];
            if q.queue_count > 0 && q.graphics {
                found_graphics = true;
            }
            if q.queue_count > 0 && q.transfer {
                found_transfer = true;
            }
            proof {
                if graphics_capable(device.queue_families@[i as int]) {
                    assert(exists|j: int| 0 <= j < i + 1 && #[trigger] graphics_capable(device.queue_families@[j]));
                }
                if transfer_capable(device.queue_families@[i as int]) {
                    assert(exists|j: int| 0 <= j < i + 1 && #[trigger] transfer_capable(device.queue_families@[j]));
                }
            }
            i = i + 1;
        }
        if !found_graphics || !found_transfer {
            return 0;
        }
        score
    }

    /// The index of the best-scoring device: the first one of highest score,
    /// provided that score is above 0.
    pub fn pick_physical_device(devices: &Vec<DeviceInfo>) -> (r: Option<usize>)
        ensures
            r is None <==> forall|j: int| 0 <= j < devices@.len() ==> #[trigger] rating(devices@[j]) == 0,
            r matches Some(i) ==> {
                &&& i < devices@.len()
                &&& rating(devices@[i as int]) > 0
                &&& forall|j: int| 0 <= j < devices@.len() ==> #[trigger] rating(devices@[j]) <= rating(devices@[i as int])
                &&& forall|j: int| 0 <= j < i ==> #[trigger] rating(devices@[j]) < rating(devices@[i as int])
            },
    {
        let mut best: Option<usize> = None;
        let mut best_score: u64 = 0;
        let mut i: usize = 0;
        while i < devices.len()
            invariant
                i <= devices@.len(),
                best is None ==> best_score == 0 && forall|j: int| 0 <= j < i ==> #[trigger] rating(devices@[j]) == 0,
                best matches Some(b) ==> {
                    &&& b < i
                    &&& best_score == rating(devices@[b as int])
                    &&& best_score > 0
                    &&& forall|j: int| 0 <= j < i ==> #[trigger] rating(devices@[j]) <= best_score
                    &&& forall|j: int| 0 <= j < b ==> #[trigger] rating(devices@[j]) < best_score
                },
            decreases devices@.len() - i,
        {
            let score = Self::rate_physical_device(&devices[i]);
            if score > best_score {
                best_score = score;
                best = Some(i);
            }
            i = i + 1;
        }
        best
    }

    /// A packed driver version split as major, minor and patch.
    pub fn driver_version_parts(version: u32) -> (r: (u32, u32, u32))
        ensures
            r == driver_version_of(version),
    {
        (version >> 22u32, (version >> 12u32) & 0x3ffu32, version & 0xfffu32)
    }
}

pub open spec fn graphics_choice(q: QueueFamilyInfo) -> bool {
    graphics_capable(q) && q.present
}

pub open spec fn dedicated_transfer(q: QueueFamilyInfo) -> bool {
    transfer_capable(q) && !q.graphics
}

/// The queue families the renderer uses.
#[derive(Clone, Copy, Debug, PartialEq, Eq)]
pub struct QueueFamilies {
    pub graphics: Option<u32>,
    pub transfer: Option<u32>,
}

/// Why the renderer cannot start on a device.
#[derive(Clone, Copy, Debug, PartialEq, Eq)]
pub enum SetupError {
    /// No family has graphics queues that can present to the surface.
    NoGraphicsQueue,
    /// No family has transfer queues.
    NoTransferQueue,
}

impl QueueFamilies {
    /// Picks the graphics family, the last one with graphics queues that
    /// can present; and the transfer family, the last one with transfer
    /// queues but no graphics, or if there is none the first one with
    /// transfer queues.
    pub fn new(families: &Vec<QueueFamilyInfo>) -> (r: QueueFamilies)
        requires
            families@.len() <= u32::MAX,
        ensures
            r.graphics is None ==> forall|j: int| 0 <= j < families@.len() ==> !#[trigger] graphics_choice(families@[j]),
            r.graphics matches Some(g) ==> {
                &&& g < families@.len()
                &&& graphics_choice(families@[g as int])
                &&& forall|j: int| g < j < families@.len() ==> !#[trigger] graphics_choice(families@[j])
            },
            r.transfer is None ==> forall|j: int| 0 <= j < families@.len() ==> !#[trigger] transfer_capable(families@[j]),
            r.transfer matches Some(t) ==> {
                &&& t < families@.len()
                &&& transfer_capable(families@[t as int])
                &&& dedicated_transfer(families@[t as int])
                    ==> forall|j: int| t < j < families@.len() ==> !#[trigger] dedicated_transfer(families@[j])
                &&& !dedicated_transfer(families@[t as int]) ==> {
                    &&& forall|j: int| 0 <= j < families@.len() ==> !#[trigger] dedicated_transfer(families@[j])
                    &&& forall|j: int| 0 <= j < t ==> !#[trigger] transfer_capable(families@[j])
                }
            },
    {
        let mut graphics: Option<u32> = None;
        let mut transfer: Option<u32> = None;
        let mut i: usize = 0;
        while i < families.len()
            invariant
                i <= families@.len() <= u32::MAX,
                graphics is None ==> forall|j: int| 0 <= j < i ==> !#[trigger] graphics_choice(families@[j]),
                graphics matches Some(g) ==> {
                    &&& g < i
                    &&& graphics_choice(families@[g as int])
                    &&& forall|j: int| g < j < i ==> !#[trigger] graphics_choice(families@[j])
                },
                transfer is None ==> forall|j: int| 0 <= j < i ==> !#[trigger] transfer_capable(families@[j]),
                transfer matches Some(t) ==> {
                    &&& t < i
                    &&& transfer_capable(families@[t as int])
                    &&& dedicated_transfer(families@[t as int])
                        ==> forall|j: int| t < j < i ==> !#[trigger] dedicated_transfer(families@[j])
                    &&& !dedicated_transfer(families@[t as int]) ==> {
                        &&& forall|j: int| 0 <= j < i ==> !#[trigger] dedicated_transfer(families@[j])
                        &&& forall|j: int| 0 <= j < t ==> !#[trigger] transfer_capable(families@[j])
                    }
                },
            decreases families@.len() - i,
        {
            let q = families[i];
            if q.queue_count > 0 && q.graphics && q.present {
                graphics = Some(i as u32);
            }
            if q.queue_count > 0 && q.transfer {
                if transfer.is_none() || !q.graphics {
                    transfer = Some(i as u32);
                }
            }
            i = i + 1;
        }
        QueueFamilies { graphics, transfer }
    }

    /// The graphics and transfer family indices, or which one is missing.
    pub fn require(&self) -> (r: Result<(u32, u32), SetupError>)
        ensures
            self.graphics is None ==> r == Err::<(u32, u32), SetupError>(SetupError::NoGraphicsQueue),
            self.graphics is Some && self.transfer is None
                ==> r == Err::<(u32, u32), SetupError>(SetupError::NoTransferQueue),
            self.graphics is Some && self.transfer is Some
                ==> r == Ok::<(u32, u32), SetupError>((self.graphics.unwrap(), self.transfer.unwrap())),
    {
        match (self.graphics, self.transfer) {
            (None, _) => Err(SetupError::NoGraphicsQueue),
            (Some(_), None) => Err(SetupError::NoTransferQueue),
            (Some(g), Some(t)) => Ok((g, t)),
        }
    }
}

} // verus!
