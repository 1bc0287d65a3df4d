use reverie::device::{ApiVersion, DeviceInfo, DeviceType, PhysicalDevice, QueueFamilies, QueueFamilyInfo, SetupError};

fn family(queue_count: u32, graphics: bool, transfer: bool, present: bool) -> QueueFamilyInfo {
    QueueFamilyInfo { queue_count, graphics, transfer, present }
}

fn device(device_type: DeviceType, dim: u32, geometry_shader: bool) -> DeviceInfo {
    DeviceInfo {
        device_type,
        max_image_dimension_2d: dim,
        geometry_shader,
        queue_families: vec![family(1, true, true, true)],
    }
}

#[test]
fn rating_by_kind_and_size() {
    assert_eq!(PhysicalDevice::rate_physical_device(&device(DeviceType::DiscreteGpu, 16384, true)), 17384);
    assert_eq!(PhysicalDevice::rate_physical_device(&device(DeviceType::VirtualGpu, 8192, true)), 8692);
    assert_eq!(PhysicalDevice::rate_physical_device(&device(DeviceType::IntegratedGpu, 8192, true)), 8442);
    assert_eq!(PhysicalDevice::rate_physical_device(&device(DeviceType::Cpu, 4096, true)), 4096);
}

#[test]
fn rating_zero_when_unusable() {
    assert_eq!(PhysicalDevice::rate_physical_device(&device(DeviceType::DiscreteGpu, 16384, false)), 0);
    let mut d = device(DeviceType::DiscreteGpu, 16384, true);
    d.queue_families = vec![family(1, true, false, true)];
    assert_eq!(PhysicalDevice::rate_physical_device(&d), 0);
    d.queue_families = vec![family(0, true, true, true), family(2, false, true, false)];
    assert_eq!(PhysicalDevice::rate_physical_device(&d), 0);
    d.queue_families = vec![family(1, true, false, false), family(2, false, true, false)];
    assert_eq!(PhysicalDevice::rate_physical_device(&d), 17384);
}

#[test]
fn pick_best_device() {
    let devices = vec![
        device(DeviceType::IntegratedGpu, 8192, true),
        device(DeviceType::DiscreteGpu, 8192, true),
        device(DeviceType::DiscreteGpu, 8192, true),
        device(DeviceType::DiscreteGpu, 32768, false),
    ];
    assert_eq!(PhysicalDevice::pick_physical_device(&devices), Some(1));
    assert_eq!(PhysicalDevice::pick_physical_device(&vec![]), None);
    assert_eq!(PhysicalDevice::pick_physical_device(&vec![device(DeviceType::DiscreteGpu, 1, false)]), None);
}

#[test]
fn queue_family_choice() {
    let families = vec![
        family(1, true, true, true),
        family(1, false, true, false),
        family(1, false, true, false),
        family(1, true, true, true),
        family(0, true, true, true),
    ];
    let q = QueueFamilies::new(&families);
    assert_eq!(q.graphics, Some(3));
    assert_eq!(q.transfer, Some(2));
    assert_eq!(q.require(), Ok((3, 2)));

    let shared = vec![family(1, true, true, false), family(1, true, true, true)];
    let q = QueueFamilies::new(&shared);
    assert_eq!(q.graphics, Some(1));
    assert_eq!(q.transfer, Some(0));
}

#[test]
fn missing_queue_families() {
    let q = QueueFamilies::new(&vec![family(1, true, true, false)]);
    assert_eq!(q.graphics, None);
    assert_eq!(q.require(), Err(SetupError::NoGraphicsQueue));
    let q = QueueFamilies::new(&vec![family(1, true, false, true)]);
    assert_eq!(q.transfer, None);
    assert_eq!(q.require(), Err(SetupError::NoTransferQueue));
}

#[test]
fn version_parts() {
    let packed: u32 = (1 << 29) | (1 << 22) | (3 << 12) | 250;
    assert_eq!(ApiVersion::from_packed(packed), ApiVersion { variant: 1, major: 1, minor: 3, patch: 250 });
    assert_eq!(ApiVersion::from_packed(0), ApiVersion { variant: 0, major: 0, minor: 0, patch: 0 });
    let driver: u32 = (535 << 22) | (104 << 12) | 5;
    assert_eq!(PhysicalDevice::driver_version_parts(driver), (535, 104, 5));
}
