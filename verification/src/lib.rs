//! Typed access to the Linux Media Controller device graph: entities, pads,
//! links and interfaces of a media device, decoded from the records of the
//! kernel, and the rules that drive the control calls which fetch them.
//!
//! The library makes no control call itself. For every exchange with the
//! kernel it says what to ask, and takes what the kernel answered.

pub mod decode;
pub mod error;
pub mod media_device_info;
pub mod media_entity;
pub mod media_entity_desc;
pub mod media_interface;
pub mod media_interface_type;
pub mod media_intf_devnode;
pub mod media_link;
pub mod media_link_desc;
pub mod media_link_enum;
pub mod media_pad;
pub mod media_pad_desc;
pub mod media_topology;
pub mod media_topology_builder;
pub mod request;
pub mod text;
pub mod version;

pub use error::classify;
pub use error::trap_io_error;
pub use error::Error;
pub use error::FailureKind;
pub use error::Operation;
pub use media_device_info::MediaDeviceInfo;
pub use media_device_info::RawDeviceInfo;
pub use media_entity::EntityId;
pub use media_entity::MediaEntity;
pub use media_entity::MediaEntityFlags;
pub use media_entity::MediaEntityFunctions;
pub use media_entity::RawEntity;
pub use media_entity_desc::MediaEntityDesc;
pub use media_entity_desc::MediaEntityIter;
pub use media_entity_desc::RawEntityDesc;
pub use media_interface::InterfaceId;
pub use media_interface::MediaInterface;
pub use media_interface::RawInterface;
pub use media_interface_type::MediaInterfaceType;
pub use media_intf_devnode::MediaIntfDevnode;
pub use media_link::LinkId;
pub use media_link::LinkType;
pub use media_link::MediaLink;
pub use media_link::MediaLinkFlags;
pub use media_link::PadIdOr;
pub use media_link::RawLink;
pub use media_link_desc::MediaLinkDesc;
pub use media_link_desc::RawLinkDesc;
pub use media_link_enum::LinksQuery;
pub use media_link_enum::MediaLinksEnum;
pub use media_pad::MediaPad;
pub use media_pad::MediaPadFlags;
pub use media_pad::PadId;
pub use media_pad::RawPad;
pub use media_pad_desc::MediaPadDesc;
pub use media_pad_desc::RawPadDesc;
pub use media_topology::MediaTopology;
pub use media_topology_builder::MediaTopologyBuilder;
pub use media_topology_builder::RawTopology;
pub use media_topology_builder::TopologyQuery;
pub use media_topology_builder::TopologySizes;
pub use request::ControlCall;
pub use request::Request;
pub use request::RequestState;
pub use version::Version;
