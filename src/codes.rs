use vstd::prelude::*;

verus! {

/// Short item tags, with the type and tag bits in place and the size field left zero.
#[derive(Clone, Copy, Debug, PartialEq, Eq)]
pub enum ItemTag {
    UsagePage,
    Usage,
    Collection,
    UsageMinimum,
    UsageMaximum,
    LogicalMinimum,
    LogicalMaximum,
    PhysicalMinimum,
    PhysicalMaximum,
    Unit,
    ReportSize,
    Input,
    ReportID,
    ReportCount,
}

/// The numeric code of each `ItemTag`.
pub open spec fn tag_code(x: ItemTag) -> u8 {
    match x {
        ItemTag::UsagePage => 0x04,
        ItemTag::Usage => 0x08,
        ItemTag::Collection => 0xA0,
        ItemTag::UsageMinimum => 0x18,
        ItemTag::UsageMaximum => 0x28,
        ItemTag::LogicalMinimum => 0x14,
        ItemTag::LogicalMaximum => 0x24,
        ItemTag::PhysicalMinimum => 0x34,
        ItemTag::PhysicalMaximum => 0x44,
        ItemTag::Unit => 0x64,
        ItemTag::ReportSize => 0x74,
        ItemTag::Input => 0x80,
        ItemTag::ReportID => 0x84,
        ItemTag::ReportCount => 0x94,
    }
}

impl ItemTag {
    /// The numeric code of this value.
    pub fn code(&self) -> (r: u8)
        ensures
            r == tag_code(*self),
    {
        match self {
            ItemTag::UsagePage => 0x04,
            ItemTag::Usage => 0x08,
            ItemTag::Collection => 0xA0,
            ItemTag::UsageMinimum => 0x18,
            ItemTag::UsageMaximum => 0x28,
            ItemTag::LogicalMinimum => 0x14,
            ItemTag::LogicalMaximum => 0x24,
            ItemTag::PhysicalMinimum => 0x34,
            ItemTag::PhysicalMaximum => 0x44,
            ItemTag::Unit => 0x64,
            ItemTag::ReportSize => 0x74,
            ItemTag::Input => 0x80,
            ItemTag::ReportID => 0x84,
            ItemTag::ReportCount => 0x94,
        }
    }
}

/// Usage pages of the HID usage tables.
#[derive(Clone, Copy, Debug, PartialEq, Eq)]
pub enum UsagePage {
    GenericDesktopCtrls,
    SimCtrl,
    VRCtrls,
    SportCtrls,
    GameCtrls,
    GenericDevCtrls,
    KeyboardKeypad,
    LEDS,
    Button,
    Ordinal,
    Telephony,
    Consumer,
    Digitizer,
    PIDPage,
    Unicode,
    AlphanumericDisplay,
}

/// The numeric code of each `UsagePage`.
pub open spec fn usage_page_code(x: UsagePage) -> u8 {
    match x {
        UsagePage::GenericDesktopCtrls => 0x01,
        UsagePage::SimCtrl => 0x02,
        UsagePage::VRCtrls => 0x03,
        UsagePage::SportCtrls => 0x04,
        UsagePage::GameCtrls => 0x05,
        UsagePage::GenericDevCtrls => 0x06,
        UsagePage::KeyboardKeypad => 0x07,
        UsagePage::LEDS => 0x08,
        UsagePage::Button => 0x09,
        UsagePage::Ordinal => 0x0A,
        UsagePage::Telephony => 0x0B,
        UsagePage::Consumer => 0x0C,
        UsagePage::Digitizer => 0x0D,
        UsagePage::PIDPage => 0x0F,
        UsagePage::Unicode => 0x10,
        UsagePage::AlphanumericDisplay => 0x14,
    }
}

impl UsagePage {
    /// The numeric code of this value.
    pub fn code(&self) -> (r: u8)
        ensures
            r == usage_page_code(*self),
    {
        match self {
            UsagePage::GenericDesktopCtrls => 0x01,
            UsagePage::SimCtrl => 0x02,
            UsagePage::VRCtrls => 0x03,
            UsagePage::SportCtrls => 0x04,
            UsagePage::GameCtrls => 0x05,
            UsagePage::GenericDevCtrls => 0x06,
            UsagePage::KeyboardKeypad => 0x07,
            UsagePage::LEDS => 0x08,
            UsagePage::Button => 0x09,
            UsagePage::Ordinal => 0x0A,
            UsagePage::Telephony => 0x0B,
            UsagePage::Consumer => 0x0C,
            UsagePage::Digitizer => 0x0D,
            UsagePage::PIDPage => 0x0F,
            UsagePage::Unicode => 0x10,
            UsagePage::AlphanumericDisplay => 0x14,
        }
    }
}

/// Usages of the Generic Desktop page.
#[derive(Clone, Copy, Debug, PartialEq, Eq)]
#[allow(non_camel_case_types)]
pub enum Usage {
    Pointer,
    Mouse,
    Value_0x03,
    Joystick,
    Gamepad,
    Keyboard,
    Keypad,
    MultiAxisController,
    X,
    Y,
    Z,
    Rx,
    Ry,
    Rz,
    Slider,
    Dial,
    Wheel,
    HatSwitch,
    CountedBuffer,
    ByteCount,
    MotionWakeup,
    Start,
    Vx,
    Vy,
    Vz,
    Vbrx,
    Vbry,
    Vbrz,
    Vno,
    FeatureNotification,
    SysControl,
    SysPowerDown,
    SysSleep,
    SysWakeUp,
    SysContextMenu,
    SysMainMenu,
    SysAppMenu,
    SysMenuHelp,
    SysMenuExit,
    SysMenuSelect,
    SysMenuRight,
    SysMenuLeft,
    SysMenuUp,
    SysMenuDown,
    SysColdRestart,
    SysWarmRestart,
    DPadUp,
    DPadDown,
    DPadRight,
    DPadLeft,
    SysDock,
    SysUndock,
    SysSetup,
    SysBreak,
    SysDebuggerBreak,
    ApplicationBreak,
    ApplicationDebuggerBreak,
    SysSpeakerMute,
    SysHibernate,
    SysDisplayInvert,
    SysDisplayInternal,
    SysDisplayExternal,
    SysDisplayBoth,
    SysDisplayDual,
    SysDisplayToggleIntExt,
    SysDisplaySwap,
    SysDisplayLCDAutoscale,
}

/// The numeric code of each `Usage`.
pub open spec fn usage_code(x: Usage) -> u8 {
    match x {
        Usage::Pointer => 0x01,
        Usage::Mouse => 0x02,
        Usage::Value_0x03 => 0x03,
        Usage::Joystick => 0x04,
        Usage::Gamepad => 0x05,
        Usage::Keyboard => 0x06,
        Usage::Keypad => 0x07,
        Usage::MultiAxisController => 0x08,
        Usage::X => 0x30,
        Usage::Y => 0x31,
        Usage::Z => 0x32,
        Usage::Rx => 0x33,
        Usage::Ry => 0x34,
        Usage::Rz => 0x35,
        Usage::Slider => 0x36,
        Usage::Dial => 0x37,
        Usage::Wheel => 0x38,
        Usage::HatSwitch => 0x39,
        Usage::CountedBuffer => 0x3A,
        Usage::ByteCount => 0x3B,
        Usage::MotionWakeup => 0x3C,
        Usage::Start => 0x3D,
        Usage::Vx => 0x40,
        Usage::Vy => 0x41,
        Usage::Vz => 0x42,
        Usage::Vbrx => 0x43,
        Usage::Vbry => 0x44,
        Usage::Vbrz => 0x45,
        Usage::Vno => 0x46,
        Usage::FeatureNotification => 0x47,
        Usage::SysControl => 0x80,
        Usage::SysPowerDown => 0x81,
        Usage::SysSleep => 0x82,
        Usage::SysWakeUp => 0x83,
        Usage::SysContextMenu => 0x84,
        Usage::SysMainMenu => 0x85,
        Usage::SysAppMenu => 0x86,
        Usage::SysMenuHelp => 0x87,
        Usage::SysMenuExit => 0x88,
        Usage::SysMenuSelect => 0x89,
        Usage::SysMenuRight => 0x8A,
        Usage::SysMenuLeft => 0x8B,
        Usage::SysMenuUp => 0x8C,
        Usage::SysMenuDown => 0x8D,
        Usage::SysColdRestart => 0x8E,
        Usage::SysWarmRestart => 0x8F,
        Usage::DPadUp => 0x90,
        Usage::DPadDown => 0x91,
        Usage::DPadRight => 0x92,
        Usage::DPadLeft => 0x93,
        Usage::SysDock => 0xA0,
        Usage::SysUndock => 0xA1,
        Usage::SysSetup => 0xA2,
        Usage::SysBreak => 0xA3,
        Usage::SysDebuggerBreak => 0xA4,
        Usage::ApplicationBreak => 0xA5,
        Usage::ApplicationDebuggerBreak => 0xA6,
        Usage::SysSpeakerMute => 0xA7,
        Usage::SysHibernate => 0xA8,
        Usage::SysDisplayInvert => 0xB0,
        Usage::SysDisplayInternal => 0xB1,
        Usage::SysDisplayExternal => 0xB2,
        Usage::SysDisplayBoth => 0xB3,
        Usage::SysDisplayDual => 0xB4,
        Usage::SysDisplayToggleIntExt => 0xB5,
        Usage::SysDisplaySwap => 0xB6,
        Usage::SysDisplayLCDAutoscale => 0xB7,
    }
}

impl Usage {
    /// The numeric code of this value.
    pub fn code(&self) -> (r: u8)
        ensures
            r == usage_code(*self),
    {
        match self {
            Usage::Pointer => 0x01,
            Usage::Mouse => 0x02,
            Usage::Value_0x03 => 0x03,
            Usage::Joystick => 0x04,
            Usage::Gamepad => 0x05,
            Usage::Keyboard => 0x06,
            Usage::Keypad => 0x07,
            Usage::MultiAxisController => 0x08,
            Usage::X => 0x30,
            Usage::Y => 0x31,
            Usage::Z => 0x32,
            Usage::Rx => 0x33,
            Usage::Ry => 0x34,
            Usage::Rz => 0x35,
            Usage::Slider => 0x36,
            Usage::Dial => 0x37,
            Usage::Wheel => 0x38,
            Usage::HatSwitch => 0x39,
            Usage::CountedBuffer => 0x3A,
            Usage::ByteCount => 0x3B,
            Usage::MotionWakeup => 0x3C,
            Usage::Start => 0x3D,
            Usage::Vx => 0x40,
            Usage::Vy => 0x41,
            Usage::Vz => 0x42,
            Usage::Vbrx => 0x43,
            Usage::Vbry => 0x44,
            Usage::Vbrz => 0x45,
            Usage::Vno => 0x46,
            Usage::FeatureNotification => 0x47,
            Usage::SysControl => 0x80,
            Usage::SysPowerDown => 0x81,
            Usage::SysSleep => 0x82,
            Usage::SysWakeUp => 0x83,
            Usage::SysContextMenu => 0x84,
            Usage::SysMainMenu => 0x85,
            Usage::SysAppMenu => 0x86,
            Usage::SysMenuHelp => 0x87,
            Usage::SysMenuExit => 0x88,
            Usage::SysMenuSelect => 0x89,
            Usage::SysMenuRight => 0x8A,
            Usage::SysMenuLeft => 0x8B,
            Usage::SysMenuUp => 0x8C,
            Usage::SysMenuDown => 0x8D,
            Usage::SysColdRestart => 0x8E,
            Usage::SysWarmRestart => 0x8F,
            Usage::DPadUp => 0x90,
            Usage::DPadDown => 0x91,
            Usage::DPadRight => 0x92,
            Usage::DPadLeft => 0x93,
            Usage::SysDock => 0xA0,
            Usage::SysUndock => 0xA1,
            Usage::SysSetup => 0xA2,
            Usage::SysBreak => 0xA3,
            Usage::SysDebuggerBreak => 0xA4,
            Usage::ApplicationBreak => 0xA5,
            Usage::ApplicationDebuggerBreak => 0xA6,
            Usage::SysSpeakerMute => 0xA7,
            Usage::SysHibernate => 0xA8,
            Usage::SysDisplayInvert => 0xB0,
            Usage::SysDisplayInternal => 0xB1,
            Usage::SysDisplayExternal => 0xB2,
            Usage::SysDisplayBoth => 0xB3,
            Usage::SysDisplayDual => 0xB4,
            Usage::SysDisplayToggleIntExt => 0xB5,
            Usage::SysDisplaySwap => 0xB6,
            Usage::SysDisplayLCDAutoscale => 0xB7,
        }
    }
}

/// Report identifiers.
#[derive(Clone, Copy, Debug, PartialEq, Eq)]
pub enum ReportID {
    InputReport,
    OutputReport,
    FeatureReport,
}

/// The numeric code of each `ReportID`.
pub open spec fn report_id_code(x: ReportID) -> u8 {
    match x {
        ReportID::InputReport => 0x01,
        ReportID::OutputReport => 0x02,
        ReportID::FeatureReport => 0x03,
    }
}

impl ReportID {
    /// The numeric code of this value.
    pub fn code(&self) -> (r: u8)
        ensures
            r == report_id_code(*self),
    {
        match self {
            ReportID::InputReport => 0x01,
            ReportID::OutputReport => 0x02,
            ReportID::FeatureReport => 0x03,
        }
    }
}

/// Unit codes.
#[derive(Clone, Copy, Debug, PartialEq, Eq)]
pub enum Unit {
    EnglishRotationDegrees,
    CM,
    SIRad,
}

/// The numeric code of each `Unit`.
pub open spec fn unit_code(x: Unit) -> u8 {
    match x {
        Unit::EnglishRotationDegrees => 0x14,
        Unit::CM => 0x11,
        Unit::SIRad => 0x21,
    }
}

impl Unit {
    /// The numeric code of this value.
    pub fn code(&self) -> (r: u8)
        ensures
            r == unit_code(*self),
    {
        match self {
            Unit::EnglishRotationDegrees => 0x14,
            Unit::CM => 0x11,
            Unit::SIRad => 0x21,
        }
    }
}

/// Kinds of collection.
#[derive(Clone, Copy, Debug, PartialEq, Eq)]
#[allow(non_camel_case_types)]
pub enum CollectionAttr {
    Physical,
    Application,
    Value_0x02,
    Report,
}

/// The numeric code of each `CollectionAttr`.
pub open spec fn collection_code(x: CollectionAttr) -> u8 {
    match x {
        CollectionAttr::Physical => 0x00,
        CollectionAttr::Application => 0x01,
        CollectionAttr::Value_0x02 => 0x02,
        CollectionAttr::Report => 0x03,
    }
}

impl CollectionAttr {
    /// The numeric code of this value.
    pub fn code(&self) -> (r: u8)
        ensures
            r == collection_code(*self),
    {
        match self {
            CollectionAttr::Physical => 0x00,
            CollectionAttr::Application => 0x01,
            CollectionAttr::Value_0x02 => 0x02,
            CollectionAttr::Report => 0x03,
        }
    }
}

} // verus!
