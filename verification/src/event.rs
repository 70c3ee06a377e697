use vstd::prelude::*;

verus! {

/// Kernel event class for synchronization events.
pub const EV_SYN: u16 = 0;

/// Kernel event class for key and button events.
pub const EV_KEY: u16 = 1;

/// Kernel event class for relative-axis events.
pub const EV_REL: u16 = 2;

/// Kernel event class for absolute-axis events.
pub const EV_ABS: u16 = 3;

/// Kernel code of the "synchronize" sync event.
pub const SYN_REPORT: u16 = 0;

/// Kernel code of the multi-touch report sync event; a device that declares
/// any absolute axis must also declare this capability.
pub const SYN_MT_REPORT: u16 = 2;

/// Kernel code reserved for the multi-touch tool-type pseudo-axis.
pub const ABS_MT_TOOL_TYPE: u16 = 55;

/// Kernel bus type of a virtual device.
pub const BUS_VIRTUAL: u16 = 6;

/// A relative axis of the normalized event vocabulary. The vocabulary may be
/// richer than what the host kernel understands; an entry without a kernel
/// code is skipped wherever it appears.
#[derive(Clone, Copy, Debug, PartialEq, Eq, Structural)]
pub enum RelAxis {
    X,
    Y,
    Wheel,
    HorizontalWheel,
    /// A vocabulary entry the host kernel has no code for.
    Unsupported,
}

impl RelAxis {
    /// The kernel code of this axis, if it has one.
    pub open spec fn code_spec(self) -> Option<u16> {
        match self {
            RelAxis::X => Some(0u16),
            RelAxis::Y => Some(1u16),
            RelAxis::Wheel => Some(8u16),
            RelAxis::HorizontalWheel => Some(6u16),
            RelAxis::Unsupported => None,
        }
    }

    /// Maps this axis to its kernel code, or `None` if the kernel has none.
    pub fn to_raw(&self) -> (r: Option<u16>)
        ensures
            r == self.code_spec(),
    {
        match self {
            RelAxis::X => Some(0),
            RelAxis::Y => Some(1),
            RelAxis::Wheel => Some(8),
            RelAxis::HorizontalWheel => Some(6),
            RelAxis::Unsupported => None,
        }
    }
}

/// An absolute axis of the normalized event vocabulary.
#[derive(Clone, Copy, Debug, PartialEq, Eq, Structural)]
pub enum AbsAxis {
    X,
    Y,
    MtPositionX,
    MtPositionY,
    /// A vocabulary entry the host kernel has no code for.
    Unsupported,
}

impl AbsAxis {
    /// The kernel code of this axis, if it has one.
    pub open spec fn code_spec(self) -> Option<u16> {
        match self {
            AbsAxis::X => Some(0u16),
            AbsAxis::Y => Some(1u16),
            AbsAxis::MtPositionX => Some(53u16),
            AbsAxis::MtPositionY => Some(54u16),
            AbsAxis::Unsupported => None,
        }
    }

    /// Maps this axis to its kernel code, or `None` if the kernel has none.
    pub fn to_raw(&self) -> (r: Option<u16>)
        ensures
            r == self.code_spec(),
    {
        match self {
            AbsAxis::X => Some(0),
            AbsAxis::Y => Some(1),
            AbsAxis::MtPositionX => Some(53),
            AbsAxis::MtPositionY => Some(54),
            AbsAxis::Unsupported => None,
        }
    }
}

/// The tool reported through the multi-touch tool-type pseudo-axis.
#[derive(Clone, Copy, Debug, PartialEq, Eq, Structural)]
pub enum ToolType {
    Finger,
    Pen,
    /// A vocabulary entry the host kernel has no value for.
    Unsupported,
}

impl ToolType {
    /// The kernel value of this tool type, if it has one.
    pub open spec fn value_spec(self) -> Option<i32> {
        match self {
            ToolType::Finger => Some(0i32),
            ToolType::Pen => Some(1i32),
            ToolType::Unsupported => None,
        }
    }

    /// Maps this tool type to its kernel value, or `None` if the kernel has
    /// none.
    pub fn to_raw(&self) -> (r: Option<i32>)
        ensures
            r == self.value_spec(),
    {
        match self {
            ToolType::Finger => Some(0),
            ToolType::Pen => Some(1),
            ToolType::Unsupported => None,
        }
    }
}

/// A key or button of the normalized event vocabulary.
#[derive(Clone, Copy, Debug, PartialEq, Eq, Structural)]
pub enum Key {
    Esc,
    Enter,
    Space,
    A,
    B,
    ButtonLeft,
    ButtonRight,
    /// A vocabulary entry the host kernel has no code for.
    Unsupported,
}

impl Key {
    /// The kernel code of this key, if it has one.
    pub open spec fn code_spec(self) -> Option<u16> {
        match self {
            Key::Esc => Some(1u16),
            Key::Enter => Some(28u16),
            Key::Space => Some(57u16),
            Key::A => Some(30u16),
            Key::B => Some(48u16),
            Key::ButtonLeft => Some(272u16),
            Key::ButtonRight => Some(273u16),
            Key::Unsupported => None,
        }
    }

    /// Maps this key to its kernel code, or `None` if the kernel has none.
    pub fn to_raw(&self) -> (r: Option<u16>)
        ensures
            r == self.code_spec(),
    {
        match self {
            Key::Esc => Some(1),
            Key::Enter => Some(28),
            Key::Space => Some(57),
            Key::A => Some(30),
            Key::B => Some(48),
            Key::ButtonLeft => Some(272),
            Key::ButtonRight => Some(273),
            Key::Unsupported => None,
        }
    }
}

/// A synchronization event kind.
#[derive(Clone, Copy, Debug, PartialEq, Eq, Structural)]
pub enum SyncEvent {
    Report,
    MtReport,
}

impl SyncEvent {
    /// The kernel code of this sync event, if it has one.
    pub open spec fn code_spec(self) -> Option<u16> {
        match self {
            SyncEvent::Report => Some(SYN_REPORT),
            SyncEvent::MtReport => Some(SYN_MT_REPORT),
        }
    }

    /// Maps this sync event to its kernel code, or `None` if the kernel has
    /// none.
    pub fn to_raw(&self) -> (r: Option<u16>)
        ensures
            r == self.code_spec(),
    {
        match self {
            SyncEvent::Report => Some(SYN_REPORT),
            SyncEvent::MtReport => Some(SYN_MT_REPORT),
        }
    }
}

/// A movement along one relative axis.
#[derive(Clone, Copy, Debug, PartialEq, Eq, Structural)]
pub struct RelEvent {
    pub axis: RelAxis,
    pub value: i32,
}

/// An absolute-axis event: either a position on one axis or a report of the
/// tool touching the surface.
#[derive(Clone, Copy, Debug, PartialEq, Eq, Structural)]
#[allow(inconsistent_fields)]
pub enum AbsEvent {
    Axis { axis: AbsAxis, value: i32 },
    MtToolType { value: ToolType },
}

/// A key or button changing state.
#[derive(Clone, Copy, Debug, PartialEq, Eq, Structural)]
pub struct KeyEvent {
    pub down: bool,
    pub key: Key,
}

/// A normalized input event, as it arrives from elsewhere in the system.
#[derive(Clone, Copy, Debug, PartialEq, Eq, Structural)]
pub enum Event {
    Rel(RelEvent),
    Abs(AbsEvent),
    Key(KeyEvent),
    Sync(SyncEvent),
}

/// The range and precision a virtual device declares for one absolute axis.
#[derive(Clone, Copy, Debug, PartialEq, Eq, Structural)]
pub struct AbsInfo {
    pub min: i32,
    pub max: i32,
    pub fuzz: i32,
    pub flat: i32,
    pub resolution: i32,
}

/// The kernel-level encoding target of every normalized event.
#[derive(Clone, Copy, Debug, PartialEq, Eq, Structural)]
pub struct RawEventTriple {
    pub class: u16,
    pub code: u16,
    pub value: i32,
}

} // verus!
