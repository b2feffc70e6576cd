use usb_topology::{
    Action, CoreError, DriverKey, Event, HostController, PropertyKind, QueryError, Resolution,
    ERROR_NO_MORE_ITEMS, IOCTL_GET_HCD_DRIVERKEY_NAME, IOCTL_USB_GET_ROOT_HUB_NAME, HEADER_UNITS,
    ControllerTopology, Phase, QueryStage,
};

fn wide(s: &str) -> Vec<u16> {
    s.encode_utf16().collect()
}

#[derive(Clone)]
struct Device {
    key: Option<&'static str>,
    id: &'static str,
    description: Option<&'static str>,
    service: Option<&'static str>,
    class: Option<&'static str>,
}

struct Registry {
    opens: bool,
    driver_key: Result<&'static str, QueryError>,
    root_hub: Result<&'static str, QueryError>,
    devices: Vec<Device>,
}

fn text(s: Option<&str>) -> Result<Option<Vec<u16>>, QueryError> {
    Ok(s.map(wide))
}

/// Drives a resolution against `reg`; returns its result and the number of
/// devices whose driver key was examined.
fn resolve(reg: &Registry) -> (Result<ControllerTopology, CoreError>, usize) {
    let mut r = Resolution::new(wide("\\\\?\\pci#ven_8086&dev_a36d"));
    let mut action = r.start();
    let mut examined = 0;
    loop {
        let event = match action {
            Action::Open => {
                if reg.opens {
                    Event::Opened
                } else {
                    Event::OpenFailed(5)
                }
            }
            Action::QueryDriverKey => {
                Event::DriverKey(reg.driver_key.map(|k| DriverKey { name: wide(k) }))
            }
            Action::NextMember(i) => {
                let present = (i as usize) < reg.devices.len();
                Event::Member { succeeded: present, code: if present { 0 } else { ERROR_NO_MORE_ITEMS } }
            }
            Action::FetchMemberKey(i) => {
                examined += 1;
                Event::MemberKey(text(reg.devices[i as usize].key))
            }
            Action::FetchIdentity(i) => Event::Identity(Ok(wide(reg.devices[i as usize].id))),
            Action::FetchProperty(i, kind) => {
                let d = &reg.devices[i as usize];
                Event::Property(text(match kind {
                    PropertyKind::Description => d.description,
                    PropertyKind::Service => d.service,
                    PropertyKind::Class => d.class,
                    _ => panic!("not a descriptive property"),
                }))
            }
            Action::QueryRootHubName => Event::RootHubName(reg.root_hub.map(wide)),
            Action::Finish(result) => return (result, examined),
        };
        action = r.on_event(event);
    }
}

fn filler(n: usize) -> Vec<Device> {
    (0..n)
        .map(|_| Device {
            key: Some("{4d36e972-e325-11ce-bfc1-08002be10318}\\0007"),
            id: "PCI\\VEN_10EC",
            description: Some("Ethernet"),
            service: Some("rt640x64"),
            class: Some("Net"),
        })
        .collect()
}

fn controller_device() -> Device {
    Device {
        key: Some("{36fc9e60-c465-11cf-8056-444553540000}\\0001"),
        id: "PCI\\VEN_8086&DEV_A36D&SUBSYS_86941043&REV_10\\3&11583659&0&A0",
        description: Some("Intel(R) USB 3.1 eXtensible Host Controller"),
        service: Some("USBXHCI"),
        class: Some("USB"),
    }
}

fn registry(devices: Vec<Device>) -> Registry {
    Registry {
        opens: true,
        driver_key: Ok("{36fc9e60-c465-11cf-8056-444553540000}\\0001"),
        root_hub: Ok("USB#ROOT_HUB30#4&2f3b1cd4&0&0#{f18a0e88-c30c-11d0-8815-00a0c906bed8}"),
        devices,
    }
}

#[test]
fn matching_device_gives_the_topology() {
    let mut devices = filler(3);
    devices.push(controller_device());
    devices.extend(filler(2));
    let (result, examined) = resolve(&registry(devices));
    let t = result.unwrap();
    assert_eq!(examined, 4);
    assert_eq!(t.path, wide("\\\\?\\pci#ven_8086&dev_a36d"));
    assert_eq!(t.identity, wide("PCI\\VEN_8086&DEV_A36D&SUBSYS_86941043&REV_10\\3&11583659&0&A0"));
    assert_eq!(t.description, Some(wide("Intel(R) USB 3.1 eXtensible Host Controller")));
    assert_eq!(t.service, Some(wide("USBXHCI")));
    assert_eq!(t.class, Some(wide("USB")));
    assert_eq!(
        t.root_hub_name,
        wide("USB#ROOT_HUB30#4&2f3b1cd4&0&0#{f18a0e88-c30c-11d0-8815-00a0c906bed8}")
    );
}

#[test]
fn resolving_twice_gives_the_same_identity() {
    let mut devices = filler(7);
    devices.push(controller_device());
    let mut second = controller_device();
    second.id = "PCI\\SECOND";
    devices.push(second);
    let reg = registry(devices);
    let first = resolve(&reg).0.unwrap();
    let again = resolve(&reg).0.unwrap();
    assert_eq!(first.identity, again.identity);
    assert_eq!(first.identity, wide(controller_device().id));
}

#[test]
fn unmatched_driver_key_is_not_found_after_all_fifty_devices() {
    let mut reg = registry(filler(50));
    reg.driver_key = Ok("USB\\ROOT_HUB\\0001");
    let (result, examined) = resolve(&reg);
    assert_eq!(result.unwrap_err(), CoreError::DeviceNotFound);
    assert_eq!(examined, 50);
}

#[test]
fn comparison_is_exact_and_case_sensitive() {
    let mut d = controller_device();
    d.key = Some("{36FC9E60-C465-11CF-8056-444553540000}\\0001");
    let mut devices = vec![d];
    let mut longer = controller_device();
    longer.key = Some("{36fc9e60-c465-11cf-8056-444553540000}\\00011");
    devices.push(longer);
    let (result, examined) = resolve(&registry(devices));
    assert_eq!(result.unwrap_err(), CoreError::DeviceNotFound);
    assert_eq!(examined, 2);
}

#[test]
fn devices_without_a_driver_key_are_passed_over() {
    let mut devices = filler(2);
    devices[0].key = None;
    devices.push(controller_device());
    let (result, examined) = resolve(&registry(devices));
    assert!(result.is_ok());
    assert_eq!(examined, 3);
}

#[test]
fn unreadable_driver_key_ends_the_scan() {
    let mut r = Resolution::new(wide("p"));
    r.on_event(Event::Opened);
    r.on_event(Event::DriverKey(Ok(DriverKey { name: wide("k") })));
    assert!(matches!(r.on_event(Event::Member { succeeded: true, code: 0 }), Action::FetchMemberKey(0)));
    match r.on_event(Event::MemberKey(Err(QueryError::SizeMismatch))) {
        Action::Finish(Err(e)) => assert_eq!(
            e,
            CoreError::PropertyUnavailable(PropertyKind::DriverKey, QueryError::SizeMismatch)
        ),
        other => panic!("{:?}", other),
    }
    assert!(r.is_done());
}

#[test]
fn unreadable_description_is_an_error() {
    let mut r = Resolution::new(wide("p"));
    r.on_event(Event::Opened);
    r.on_event(Event::DriverKey(Ok(DriverKey { name: wide("k") })));
    r.on_event(Event::Member { succeeded: true, code: 0 });
    r.on_event(Event::MemberKey(Ok(Some(wide("k")))));
    assert!(matches!(
        r.on_event(Event::Identity(Ok(wide("id")))),
        Action::FetchProperty(0, PropertyKind::Description)
    ));
    match r.on_event(Event::Property(Err(QueryError::Underlying(5)))) {
        Action::Finish(Err(e)) => assert_eq!(
            e,
            CoreError::PropertyUnavailable(PropertyKind::Description, QueryError::Underlying(5))
        ),
        other => panic!("{:?}", other),
    }
}

#[test]
fn absent_descriptive_properties_are_none() {
    let mut d = controller_device();
    d.description = None;
    d.class = None;
    let t = resolve(&registry(vec![d])).0.unwrap();
    assert_eq!(t.description, None);
    assert_eq!(t.service, Some(wide("USBXHCI")));
    assert_eq!(t.class, None);
}

#[test]
fn open_failure() {
    let mut reg = registry(vec![controller_device()]);
    reg.opens = false;
    let (result, examined) = resolve(&reg);
    assert_eq!(result.unwrap_err(), CoreError::OpenFailed(5));
    assert_eq!(examined, 0);
}

#[test]
fn driver_key_failure() {
    let mut reg = registry(vec![controller_device()]);
    reg.driver_key = Err(QueryError::SizeMismatch);
    assert_eq!(
        resolve(&reg).0.unwrap_err(),
        CoreError::DriverKeyUnavailable(QueryError::SizeMismatch)
    );
}

#[test]
fn root_hub_name_failure() {
    let mut reg = registry(vec![controller_device()]);
    reg.root_hub = Err(QueryError::Underlying(31));
    assert_eq!(
        resolve(&reg).0.unwrap_err(),
        CoreError::RootHubNameUnavailable(QueryError::Underlying(31))
    );
}

#[test]
fn identity_failure() {
    let mut r = Resolution::new(wide("p"));
    r.on_event(Event::Opened);
    r.on_event(Event::DriverKey(Ok(DriverKey { name: wide("k") })));
    assert!(matches!(r.on_event(Event::Member { succeeded: true, code: 0 }), Action::FetchMemberKey(0)));
    assert!(matches!(r.on_event(Event::MemberKey(Ok(Some(wide("k"))))), Action::FetchIdentity(0)));
    match r.on_event(Event::Identity(Err(QueryError::Malformed))) {
        Action::Finish(Err(e)) => assert_eq!(e, CoreError::InstanceIdUnavailable(QueryError::Malformed)),
        other => panic!("{:?}", other),
    }
    assert!(r.is_done());
}

#[test]
fn enumeration_failure_during_the_scan() {
    let mut r = Resolution::new(wide("p"));
    r.on_event(Event::Opened);
    r.on_event(Event::DriverKey(Ok(DriverKey { name: wide("k") })));
    match r.on_event(Event::Member { succeeded: false, code: 1784 }) {
        Action::Finish(Err(e)) => assert_eq!(e, CoreError::Enumeration(1784)),
        other => panic!("{:?}", other),
    }
}

#[test]
fn resolution_ignores_an_unexpected_event() {
    let mut r = Resolution::new(wide("p"));
    assert!(matches!(r.on_event(Event::Identity(Ok(wide("x")))), Action::Open));
    assert_eq!(r.phase, Phase::Opening);
}

#[test]
fn control_requests_read_after_the_length_header() {
    let c = HostController { path: wide("p") };
    let k = c.driver_key();
    assert_eq!(k.code, IOCTL_GET_HCD_DRIVERKEY_NAME);
    assert_eq!(k.query.offset, HEADER_UNITS);
    assert_eq!(k.query.stage, QueryStage::Probing);
    let h = c.root_hub_name();
    assert_eq!(h.code, IOCTL_USB_GET_ROOT_HUB_NAME);
    assert_eq!(h.query.offset, 2);
}
