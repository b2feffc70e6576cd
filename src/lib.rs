//! USB topology discovery over an operating system's device registry.
//!
//! The operating system answers every string-valued question with the same
//! two-phase convention: a first call reports the size it needs, a second call
//! fills a buffer of that size. This crate holds the decisions around those
//! calls as small state machines over plain values, so that the caller only
//! performs the calls and hands the results back.
//!
//! - [`query`]: the two-phase sized query, written once.
//! - [`property`]: device properties, where an absent one is `None`.
//! - [`enumerate`]: the walk over the members of a device set.
//! - [`host_controller`]: the walk over host controllers and their requests.
//! - [`correlate`]: from a controller's path to its device record and root hub.

pub mod correlate;
pub mod enumerate;
pub mod host_controller;
pub mod property;
pub mod query;
pub mod usb_path;

pub use correlate::{Action, ControllerTopology, CoreError, Event, Phase, Resolution};
pub use enumerate::{ClassFilter, DeviceEnumerator, ERROR_NO_MORE_ITEMS};
pub use host_controller::{
    host_controllers, ControlRequest, ControllerAction, ControllerEvent, ControllerPhase, DriverKey,
    HostController, HostControllers, HEADER_UNITS, IOCTL_GET_HCD_DRIVERKEY_NAME,
    IOCTL_USB_GET_ROOT_HUB_NAME,
};
pub use property::{get_device_property, property_value, PropertyKind, PropertyStep, ERROR_INVALID_DATA};
pub use query::{
    control_answer, control_reply, grow, payload_text, registry_byte_reply, registry_reply, QueryAction,
    QueryError, QueryStage, Reply, SizedQuery, ERROR_INSUFFICIENT_BUFFER,
};
pub use usb_path::Component;
