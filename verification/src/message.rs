//! Engine message categories, the registration filter mask, handler
//! dispositions and UI levels.
//!
//! Each of the twelve message categories carries a distinct high-byte bit
//! pattern. The filter handed to the engine at registration is the bitwise
//! OR of all twelve, so no engine message is silently dropped.

use vstd::prelude::*;

verus! {

/// One of the twelve fixed engine message categories.
#[derive(Debug, Clone, Copy, PartialEq, Eq, Structural)]
pub enum MessageType {
    FatalExit,
    Error,
    Warning,
    User,
    Info,
    ActionStart,
    ActionData,
    CommonData,
    Initialize,
    Terminate,
    InstallStart,
    InstallEnd,
}

impl MessageType {
    /// The high-byte bit pattern the engine uses for this category.
    pub open spec fn spec_bits(self) -> u32 {
        match self {
            MessageType::FatalExit => 0x0000_0000,
            MessageType::Error => 0x0100_0000,
            MessageType::Warning => 0x0200_0000,
            MessageType::User => 0x0300_0000,
            MessageType::Info => 0x0400_0000,
            MessageType::ActionStart => 0x0800_0000,
            MessageType::ActionData => 0x0900_0000,
            MessageType::CommonData => 0x0B00_0000,
            MessageType::Initialize => 0x0C00_0000,
            MessageType::Terminate => 0x0D00_0000,
            MessageType::InstallStart => 0x1A00_0000,
            MessageType::InstallEnd => 0x1B00_0000,
        }
    }

    /// The category's bit pattern as a runtime value.
    pub fn bits(self) -> (r: u32)
        ensures
            r == self.spec_bits(),
    {
        match self {
            MessageType::FatalExit => 0x0000_0000,
            MessageType::Error => 0x0100_0000,
            MessageType::Warning => 0x0200_0000,
            MessageType::User => 0x0300_0000,
            MessageType::Info => 0x0400_0000,
            MessageType::ActionStart => 0x0800_0000,
            MessageType::ActionData => 0x0900_0000,
            MessageType::CommonData => 0x0B00_0000,
            MessageType::Initialize => 0x0C00_0000,
            MessageType::Terminate => 0x0D00_0000,
            MessageType::InstallStart => 0x1A00_0000,
            MessageType::InstallEnd => 0x1B00_0000,
        }
    }

    /// The category encoded in the high byte of a raw engine message code,
    /// or nothing when the high byte matches no category.
    pub open spec fn spec_from_raw(raw: u32) -> Option<MessageType> {
        if raw & 0xFF00_0000 == 0x0000_0000 {
            Some(MessageType::FatalExit)
        } else if raw & 0xFF00_0000 == 0x0100_0000 {
            Some(MessageType::Error)
        } else if raw & 0xFF00_0000 == 0x0200_0000 {
            Some(MessageType::Warning)
        } else if raw & 0xFF00_0000 == 0x0300_0000 {
            Some(MessageType::User)
        } else if raw & 0xFF00_0000 == 0x0400_0000 {
            Some(MessageType::Info)
        } else if raw & 0xFF00_0000 == 0x0800_0000 {
            Some(MessageType::ActionStart)
        } else if raw & 0xFF00_0000 == 0x0900_0000 {
            Some(MessageType::ActionData)
        } else if raw & 0xFF00_0000 == 0x0B00_0000 {
            Some(MessageType::CommonData)
        } else if raw & 0xFF00_0000 == 0x0C00_0000 {
            Some(MessageType::Initialize)
        } else if raw & 0xFF00_0000 == 0x0D00_0000 {
            Some(MessageType::Terminate)
        } else if raw & 0xFF00_0000 == 0x1A00_0000 {
            Some(MessageType::InstallStart)
        } else if raw & 0xFF00_0000 == 0x1B00_0000 {
            Some(MessageType::InstallEnd)
        } else {
            None
        }
    }

    /// Decodes the category from a raw engine message code. The low bytes
    /// carry presentation flags and are ignored; only the high byte names
    /// the category.
    pub fn from_raw(raw: u32) -> (r: Option<MessageType>)
        ensures
            r == MessageType::spec_from_raw(raw),
    {
        let high = raw & 0xFF00_0000;
        if high == 0x0000_0000 {
            Some(MessageType::FatalExit)
        } else if high == 0x0100_0000 {
            Some(MessageType::Error)
        } else if high == 0x0200_0000 {
            Some(MessageType::Warning)
        } else if high == 0x0300_0000 {
            Some(MessageType::User)
        } else if high == 0x0400_0000 {
            Some(MessageType::Info)
        } else if high == 0x0800_0000 {
            Some(MessageType::ActionStart)
        } else if high == 0x0900_0000 {
            Some(MessageType::ActionData)
        } else if high == 0x0B00_0000 {
            Some(MessageType::CommonData)
        } else if high == 0x0C00_0000 {
            Some(MessageType::Initialize)
        } else if high == 0x0D00_0000 {
            Some(MessageType::Terminate)
        } else if high == 0x1A00_0000 {
            Some(MessageType::InstallStart)
        } else if high == 0x1B00_0000 {
            Some(MessageType::InstallEnd)
        } else {
            None
        }
    }

    /// The category's display name.
    pub open spec fn spec_label(self) -> Seq<char> {
        match self {
            MessageType::FatalExit => "FatalExit"@,
            MessageType::Error => "Error"@,
            MessageType::Warning => "Warning"@,
            MessageType::User => "User"@,
            MessageType::Info => "Info"@,
            MessageType::ActionStart => "ActionStart"@,
            MessageType::ActionData => "ActionData"@,
            MessageType::CommonData => "CommonData"@,
            MessageType::Initialize => "Initialize"@,
            MessageType::Terminate => "Terminate"@,
            MessageType::InstallStart => "InstallStart"@,
            MessageType::InstallEnd => "InstallEnd"@,
        }
    }

    /// The category's display name, as used in trace lines.
    pub fn label(self) -> (r: &'static str)
        ensures
            r@ == self.spec_label(),
    {
        match self {
            MessageType::FatalExit => "FatalExit",
            MessageType::Error => "Error",
            MessageType::Warning => "Warning",
            MessageType::User => "User",
            MessageType::Info => "Info",
            MessageType::ActionStart => "ActionStart",
            MessageType::ActionData => "ActionData",
            MessageType::CommonData => "CommonData",
            MessageType::Initialize => "Initialize",
            MessageType::Terminate => "Terminate",
            MessageType::InstallStart => "InstallStart",
            MessageType::InstallEnd => "InstallEnd",
        }
    }
}

/// The registration filter: the bitwise OR of all twelve category patterns.
pub open spec fn spec_message_filter() -> u32 {
    MessageType::FatalExit.spec_bits() | MessageType::Error.spec_bits()
        | MessageType::Warning.spec_bits() | MessageType::User.spec_bits()
        | MessageType::Info.spec_bits() | MessageType::ActionStart.spec_bits()
        | MessageType::ActionData.spec_bits() | MessageType::CommonData.spec_bits()
        | MessageType::Initialize.spec_bits() | MessageType::Terminate.spec_bits()
        | MessageType::InstallStart.spec_bits() | MessageType::InstallEnd.spec_bits()
}

/// The filter mask handed to the engine at callback registration. It is
/// the OR of every category's pattern, each appearing exactly once, so all
/// engine messages are requested.
pub fn message_filter() -> (r: u32)
    ensures
        r == spec_message_filter(),
        r == 0x1F00_0000u32,
{
    proof {
        lemma_message_filter_value();
    }
    MessageType::FatalExit.bits() | MessageType::Error.bits() | MessageType::Warning.bits()
        | MessageType::User.bits() | MessageType::Info.bits() | MessageType::ActionStart.bits()
        | MessageType::ActionData.bits() | MessageType::CommonData.bits()
        | MessageType::Initialize.bits() | MessageType::Terminate.bits()
        | MessageType::InstallStart.bits() | MessageType::InstallEnd.bits()
}

/// The OR of the twelve category patterns folds to one fixed mask.
pub proof fn lemma_message_filter_value()
    ensures
        spec_message_filter() == 0x1F00_0000u32,
{
    assert(0x0000_0000u32 | 0x0100_0000u32 | 0x0200_0000u32 | 0x0300_0000u32 | 0x0400_0000u32
        | 0x0800_0000u32 | 0x0900_0000u32 | 0x0B00_0000u32 | 0x0C00_0000u32 | 0x0D00_0000u32
        | 0x1A00_0000u32 | 0x1B00_0000u32 == 0x1F00_0000u32) by (bit_vector);
}

/// No category is missing from the filter: every category's pattern is
/// contained in the mask.
pub proof fn lemma_filter_admits_every_category(m: MessageType)
    ensures
        spec_message_filter() & m.spec_bits() == m.spec_bits(),
{
    lemma_message_filter_value();
    let b = m.spec_bits();
    assert(0x1F00_0000u32 & b == b) by (bit_vector)
        requires
            b == 0x0000_0000u32 || b == 0x0100_0000u32 || b == 0x0200_0000u32
                || b == 0x0300_0000u32 || b == 0x0400_0000u32 || b == 0x0800_0000u32
                || b == 0x0900_0000u32 || b == 0x0B00_0000u32 || b == 0x0C00_0000u32
                || b == 0x0D00_0000u32 || b == 0x1A00_0000u32 || b == 0x1B00_0000u32,
    ;
}

/// The three-valued response a handler returns for one engine message.
#[derive(Debug, Clone, Copy, PartialEq, Eq, Structural)]
pub enum HandlerResult {
    Default,
    OK,
    Cancel,
}

impl HandlerResult {
    /// The small integer the engine understands for this disposition.
    pub open spec fn spec_code(self) -> u32 {
        match self {
            HandlerResult::Default => 0,
            HandlerResult::OK => 1,
            HandlerResult::Cancel => 2,
        }
    }

    /// Marshals the disposition back to the engine's integer coding.
    pub fn code(self) -> (r: u32)
        ensures
            r == self.spec_code(),
    {
        match self {
            HandlerResult::Default => 0,
            HandlerResult::OK => 1,
            HandlerResult::Cancel => 2,
        }
    }
}

/// How much of the engine's built-in UI is shown during the install.
#[derive(Debug, Clone, Copy, PartialEq, Eq, Structural)]
pub enum UILevel {
    Default,
    Silent,
    Basic,
    Reduced,
    Full,
}

impl UILevel {
    /// The engine's integer coding of this UI level.
    pub open spec fn spec_code(self) -> u32 {
        match self {
            UILevel::Default => 1,
            UILevel::Silent => 2,
            UILevel::Basic => 3,
            UILevel::Reduced => 4,
            UILevel::Full => 5,
        }
    }

    /// The integer code handed to the native UI-level call.
    pub fn code(self) -> (r: u32)
        ensures
            r == self.spec_code(),
    {
        match self {
            UILevel::Default => 1,
            UILevel::Silent => 2,
            UILevel::Basic => 3,
            UILevel::Reduced => 4,
            UILevel::Full => 5,
        }
    }
}

impl Default for UILevel {
    /// The engine's default UI level.
    fn default() -> (r: Self)
        ensures
            r == UILevel::Default,
    {
        UILevel::Default
    }
}

} // verus!
