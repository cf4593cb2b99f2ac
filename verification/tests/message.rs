use msitrace::message::{message_filter, HandlerResult, MessageType, UILevel};

const ALL_CATEGORIES: [MessageType; 12] = [
    MessageType::FatalExit,
    MessageType::Error,
    MessageType::Warning,
    MessageType::User,
    MessageType::Info,
    MessageType::ActionStart,
    MessageType::ActionData,
    MessageType::CommonData,
    MessageType::Initialize,
    MessageType::Terminate,
    MessageType::InstallStart,
    MessageType::InstallEnd,
];

#[test]
fn category_bit_patterns() {
    assert_eq!(MessageType::FatalExit.bits(), 0x0000_0000);
    assert_eq!(MessageType::Error.bits(), 0x0100_0000);
    assert_eq!(MessageType::Warning.bits(), 0x0200_0000);
    assert_eq!(MessageType::User.bits(), 0x0300_0000);
    assert_eq!(MessageType::Info.bits(), 0x0400_0000);
    assert_eq!(MessageType::ActionStart.bits(), 0x0800_0000);
    assert_eq!(MessageType::ActionData.bits(), 0x0900_0000);
    assert_eq!(MessageType::CommonData.bits(), 0x0B00_0000);
    assert_eq!(MessageType::Initialize.bits(), 0x0C00_0000);
    assert_eq!(MessageType::Terminate.bits(), 0x0D00_0000);
    assert_eq!(MessageType::InstallStart.bits(), 0x1A00_0000);
    assert_eq!(MessageType::InstallEnd.bits(), 0x1B00_0000);
}

#[test]
fn categories_are_distinct() {
    for (i, a) in ALL_CATEGORIES.iter().enumerate() {
        for (j, b) in ALL_CATEGORIES.iter().enumerate() {
            if i != j {
                assert_ne!(a.bits(), b.bits());
            }
        }
    }
}

#[test]
fn filter_is_or_of_all_twelve() {
    let mut or = 0u32;
    for c in ALL_CATEGORIES {
        or |= c.bits();
    }
    assert_eq!(message_filter(), or);
    assert_eq!(message_filter(), 0x1F00_0000);
}

#[test]
fn filter_admits_every_category() {
    for c in ALL_CATEGORIES {
        assert_eq!(message_filter() & c.bits(), c.bits());
    }
}

#[test]
fn category_decoding_ignores_low_bytes() {
    assert_eq!(MessageType::from_raw(0x0400_0000), Some(MessageType::Info));
    assert_eq!(MessageType::from_raw(0x0400_1234), Some(MessageType::Info));
    assert_eq!(MessageType::from_raw(0x0000_0007), Some(MessageType::FatalExit));
    assert_eq!(MessageType::from_raw(0x1B00_0000), Some(MessageType::InstallEnd));
    assert_eq!(MessageType::from_raw(0x0500_0000), None);
    assert_eq!(MessageType::from_raw(0xFF00_0000), None);
    for c in ALL_CATEGORIES {
        assert_eq!(MessageType::from_raw(c.bits() | 0x42), Some(c));
    }
}

#[test]
fn category_labels() {
    assert_eq!(MessageType::FatalExit.label(), "FatalExit");
    assert_eq!(MessageType::Info.label(), "Info");
    assert_eq!(MessageType::InstallEnd.label(), "InstallEnd");
}

#[test]
fn disposition_codes() {
    assert_eq!(HandlerResult::Default.code(), 0);
    assert_eq!(HandlerResult::OK.code(), 1);
    assert_eq!(HandlerResult::Cancel.code(), 2);
}

#[test]
fn ui_level_codes() {
    assert_eq!(UILevel::Default.code(), 1);
    assert_eq!(UILevel::Silent.code(), 2);
    assert_eq!(UILevel::Basic.code(), 3);
    assert_eq!(UILevel::Reduced.code(), 4);
    assert_eq!(UILevel::Full.code(), 5);
    assert_eq!(UILevel::default(), UILevel::Default);
}
