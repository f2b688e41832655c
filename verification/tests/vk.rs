use cosmic_touch_keyboard::vk::{handle_cmd, timestamp_ms, VkCommand, VkRequest};

#[test]
fn tap_presses_then_releases() {
    let r = handle_cmd(VkCommand::Tap(30), 1000);
    assert_eq!(
        r,
        vec![
            VkRequest::Key { time: 1000, key: 30, state: 1 },
            VkRequest::Key { time: 1001, key: 30, state: 0 },
        ]
    );
}

#[test]
fn tap_release_time_wraps() {
    let r = handle_cmd(VkCommand::Tap(16), u32::MAX);
    assert_eq!(r[1], VkRequest::Key { time: 0, key: 16, state: 0 });
}

#[test]
fn press_release_and_modifiers() {
    assert_eq!(handle_cmd(VkCommand::Press(5), 7), vec![VkRequest::Key { time: 7, key: 5, state: 1 }]);
    assert_eq!(handle_cmd(VkCommand::Release(5), 8), vec![VkRequest::Key { time: 8, key: 5, state: 0 }]);
    assert_eq!(
        handle_cmd(VkCommand::Modifiers(5), 9),
        vec![VkRequest::Modifiers { depressed: 5, latched: 0, locked: 0, group: 0 }]
    );
}

#[test]
fn timestamps_truncate_to_32_bits() {
    assert_eq!(timestamp_ms(None), 0);
    assert_eq!(timestamp_ms(Some(1234)), 1234);
    assert_eq!(timestamp_ms(Some(0x1_0000_0005)), 5);
    assert_eq!(timestamp_ms(Some(1_700_000_000_123)), (1_700_000_000_123u128 % (1u128 << 32)) as u32);
}
