use mediad::mixer::{
    mute_calls, percent_of, raw_step, volume_calls, Direction, MixerCall, SinkInfo,
    FULL_VOLUME, VOLUME_STEP,
};

fn sink(mute: bool, volume: u8) -> SinkInfo {
    SinkInfo { index: 4, mute, volume }
}

fn press(mut sink: SinkInfo, direction: Direction) -> SinkInfo {
    for call in volume_calls(sink, direction) {
        sink = sink.apply(call);
    }
    sink
}

#[test]
fn step_and_bounds() {
    assert_eq!(VOLUME_STEP, 5);
    assert_eq!(FULL_VOLUME, 100);
}

#[test]
fn mute_key_mutes_an_audible_sink() {
    assert_eq!(mute_calls(sink(false, 40)), vec![MixerCall::SetMute { index: 4, mute: true }]);
}

#[test]
fn mute_key_unmutes_a_muted_sink() {
    assert_eq!(mute_calls(sink(true, 40)), vec![MixerCall::SetMute { index: 4, mute: false }]);
}

#[test]
fn mute_key_addresses_the_sink_it_was_given() {
    let other = SinkInfo { index: 77, mute: false, volume: 10 };
    assert_eq!(mute_calls(other), vec![MixerCall::SetMute { index: 77, mute: true }]);
}

#[test]
fn volume_up_on_audible_sink_is_one_call() {
    assert_eq!(
        volume_calls(sink(false, 40), Direction::Up),
        vec![MixerCall::RaiseVolume { index: 4, percent: 5 }]
    );
}

#[test]
fn volume_down_on_audible_sink_is_one_call() {
    assert_eq!(
        volume_calls(sink(false, 40), Direction::Down),
        vec![MixerCall::LowerVolume { index: 4, percent: 5 }]
    );
}

#[test]
fn volume_up_while_muted_unmutes_first() {
    assert_eq!(
        volume_calls(sink(true, 40), Direction::Up),
        vec![
            MixerCall::SetMute { index: 4, mute: false },
            MixerCall::RaiseVolume { index: 4, percent: 5 },
        ]
    );
}

#[test]
fn volume_down_while_muted_unmutes_first() {
    assert_eq!(
        volume_calls(sink(true, 40), Direction::Down),
        vec![
            MixerCall::SetMute { index: 4, mute: false },
            MixerCall::LowerVolume { index: 4, percent: 5 },
        ]
    );
}

#[test]
fn raise_adds_the_step() {
    let after = sink(false, 40).apply(MixerCall::RaiseVolume { index: 4, percent: 5 });
    assert_eq!(after, sink(false, 45));
}

#[test]
fn lower_takes_the_step() {
    let after = sink(false, 40).apply(MixerCall::LowerVolume { index: 4, percent: 5 });
    assert_eq!(after, sink(false, 35));
}

#[test]
fn raise_stops_at_full_volume() {
    let after = sink(false, 98).apply(MixerCall::RaiseVolume { index: 4, percent: 5 });
    assert_eq!(after.volume, 100);
    let after = sink(false, 95).apply(MixerCall::RaiseVolume { index: 4, percent: 5 });
    assert_eq!(after.volume, 100);
    let after = sink(false, 94).apply(MixerCall::RaiseVolume { index: 4, percent: 5 });
    assert_eq!(after.volume, 99);
    let after = sink(false, 100).apply(MixerCall::RaiseVolume { index: 4, percent: 255 });
    assert_eq!(after.volume, 100);
    let after = sink(false, 0).apply(MixerCall::RaiseVolume { index: 4, percent: 255 });
    assert_eq!(after.volume, 100);
}

#[test]
fn lower_stops_at_zero() {
    let after = sink(false, 3).apply(MixerCall::LowerVolume { index: 4, percent: 5 });
    assert_eq!(after.volume, 0);
    let after = sink(false, 5).apply(MixerCall::LowerVolume { index: 4, percent: 5 });
    assert_eq!(after.volume, 0);
    let after = sink(false, 6).apply(MixerCall::LowerVolume { index: 4, percent: 5 });
    assert_eq!(after.volume, 1);
    let after = sink(false, 0).apply(MixerCall::LowerVolume { index: 4, percent: 255 });
    assert_eq!(after.volume, 0);
}

#[test]
fn a_volume_out_of_bounds_is_brought_within_them() {
    let after = sink(false, 200).apply(MixerCall::LowerVolume { index: 4, percent: 5 });
    assert_eq!(after.volume, 100);
    let after = sink(false, 200).apply(MixerCall::RaiseVolume { index: 4, percent: 5 });
    assert_eq!(after.volume, 100);
    let after = sink(false, 104).apply(MixerCall::LowerVolume { index: 4, percent: 5 });
    assert_eq!(after.volume, 99);
}

#[test]
fn set_mute_sets_the_flag_only() {
    let after = sink(false, 40).apply(MixerCall::SetMute { index: 4, mute: true });
    assert_eq!(after, sink(true, 40));
    let after = after.apply(MixerCall::SetMute { index: 4, mute: true });
    assert_eq!(after, sink(true, 40));
    let after = after.apply(MixerCall::SetMute { index: 4, mute: false });
    assert_eq!(after, sink(false, 40));
}

#[test]
fn calls_to_another_sink_change_nothing() {
    let before = sink(true, 40);
    assert_eq!(before.apply(MixerCall::SetMute { index: 5, mute: false }), before);
    assert_eq!(before.apply(MixerCall::RaiseVolume { index: 5, percent: 5 }), before);
    assert_eq!(before.apply(MixerCall::LowerVolume { index: 5, percent: 5 }), before);
}

#[test]
fn repeated_volume_up_saturates_at_full_volume() {
    let mut current = sink(false, 98);
    current = press(current, Direction::Up);
    assert_eq!(current.volume, 100);
    for _ in 0..10 {
        current = press(current, Direction::Up);
        assert_eq!(current.volume, 100);
        assert!(current.volume <= FULL_VOLUME);
    }
}

#[test]
fn volume_up_from_every_volume_stays_within_bounds() {
    for start in 0..=100u8 {
        let after = press(sink(false, start), Direction::Up);
        let expected: u8 = if start >= 95 { 100 } else { start + 5 };
        assert_eq!(after.volume, expected);
    }
}

#[test]
fn repeated_volume_down_saturates_at_zero() {
    let mut current = sink(false, 12);
    current = press(current, Direction::Down);
    assert_eq!(current.volume, 7);
    current = press(current, Direction::Down);
    assert_eq!(current.volume, 2);
    current = press(current, Direction::Down);
    assert_eq!(current.volume, 0);
    current = press(current, Direction::Down);
    assert_eq!(current.volume, 0);
}

#[test]
fn volume_key_leaves_the_sink_unmuted() {
    let after = press(sink(true, 50), Direction::Up);
    assert_eq!(after, sink(false, 55));
    let after = press(sink(true, 50), Direction::Down);
    assert_eq!(after, sink(false, 45));
}

#[test]
fn mute_key_twice_restores_the_sink() {
    let before = sink(false, 33);
    let mut current = before;
    for _ in 0..2 {
        for call in mute_calls(current) {
            current = current.apply(call);
        }
    }
    assert_eq!(current, before);
}

#[test]
fn raw_volumes_read_as_the_nearest_percent() {
    let normal: u32 = 0x10000;
    assert_eq!(percent_of(0, normal), Some(0));
    assert_eq!(percent_of(normal, normal), Some(100));
    assert_eq!(percent_of(normal / 2, normal), Some(50));
    assert_eq!(percent_of(64225, normal), Some(98));
    assert_eq!(percent_of(327, normal), Some(0));
    assert_eq!(percent_of(328, normal), Some(1));
    assert_eq!(percent_of(983, normal), Some(1));
    assert_eq!(percent_of(984, normal), Some(2));
    assert_eq!(percent_of(10, 4), Some(100));
    assert_eq!(percent_of(1, 4), Some(25));
    assert_eq!(percent_of(1, 3), Some(33));
    assert_eq!(percent_of(2, 3), Some(67));
}

#[test]
fn raw_volumes_above_normal_read_as_full() {
    let normal: u32 = 0x10000;
    assert_eq!(percent_of(normal + 1, normal), Some(100));
    assert_eq!(percent_of(2 * normal, normal), Some(100));
    assert_eq!(percent_of(u32::MAX, normal), Some(100));
    assert_eq!(percent_of(u32::MAX, 1), Some(100));
    assert_eq!(percent_of(u32::MAX, u32::MAX), Some(100));
}

#[test]
fn a_normal_of_zero_gives_no_reading() {
    assert_eq!(percent_of(0, 0), None);
    assert_eq!(percent_of(100, 0), None);
}

#[test]
fn a_step_with_room_is_the_step_named() {
    let normal: u32 = 0x10000;
    let up = MixerCall::RaiseVolume { index: 0, percent: 5 };
    let down = MixerCall::LowerVolume { index: 0, percent: 5 };
    assert_eq!(raw_step(up, 0, normal), 3276);
    assert_eq!(raw_step(up, normal / 2, normal), 3276);
    assert_eq!(raw_step(up, normal - 3276, normal), 3276);
    assert_eq!(raw_step(down, normal, normal), 3276);
    assert_eq!(raw_step(down, 3276, normal), 3276);
    assert_eq!(raw_step(up, 0, 100), 5);
    assert_eq!(raw_step(down, 50, 100), 5);
}

#[test]
fn a_step_upwards_stops_at_the_normal_volume() {
    let normal: u32 = 0x10000;
    let up = MixerCall::RaiseVolume { index: 0, percent: 5 };
    assert_eq!(raw_step(up, normal - 3275, normal), 3275);
    assert_eq!(raw_step(up, 64225, normal), 1311);
    assert_eq!(raw_step(up, normal - 1, normal), 1);
    assert_eq!(raw_step(up, normal, normal), 0);
    assert_eq!(raw_step(up, normal + 1, normal), 0);
    assert_eq!(raw_step(up, u32::MAX, normal), 0);
    assert_eq!(raw_step(up, 98, 100), 2);
    assert_eq!(raw_step(MixerCall::RaiseVolume { index: 0, percent: 255 }, 0, u32::MAX), u32::MAX);
}

#[test]
fn repeated_bounded_steps_upwards_end_at_the_normal_volume() {
    let up = MixerCall::RaiseVolume { index: 0, percent: 5 };
    let mut raw: u32 = 98;
    for _ in 0..4 {
        raw += raw_step(up, raw, 100);
        assert_eq!(raw, 100);
    }
    let normal: u32 = 0x10000;
    let mut raw: u32 = 64225;
    for _ in 0..4 {
        raw += raw_step(up, raw, normal);
        assert_eq!(raw, normal);
    }
}

#[test]
fn a_step_downwards_stops_at_zero() {
    let normal: u32 = 0x10000;
    let down = MixerCall::LowerVolume { index: 0, percent: 5 };
    assert_eq!(raw_step(down, 3275, normal), 3275);
    assert_eq!(raw_step(down, 1, normal), 1);
    assert_eq!(raw_step(down, 0, normal), 0);
    assert_eq!(raw_step(down, 3, 100), 3);
    assert_eq!(raw_step(down, u32::MAX, normal), 3276);
}

#[test]
fn a_call_that_moves_no_volume_has_no_step() {
    assert_eq!(raw_step(MixerCall::SetMute { index: 0, mute: true }, 500, 0x10000), 0);
    assert_eq!(raw_step(MixerCall::SetMute { index: 0, mute: false }, 0, 0), 0);
}

#[test]
fn a_normal_of_zero_leaves_no_room() {
    assert_eq!(raw_step(MixerCall::RaiseVolume { index: 0, percent: 5 }, 0, 0), 0);
    assert_eq!(raw_step(MixerCall::RaiseVolume { index: 0, percent: 5 }, 7, 0), 0);
    assert_eq!(raw_step(MixerCall::LowerVolume { index: 0, percent: 5 }, 7, 0), 0);
}
