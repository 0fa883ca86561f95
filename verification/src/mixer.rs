//! The calls that a mute or volume key makes on the audio mixer, and what
//! they do to the sink they address.
//!
//! Volumes are whole percents. A sink's volume lies between 0 and
//! [`FULL_VOLUME`]; the mixer holds it there, so that a step past either end
//! stops at the end. Where the audio server behind the mixer counts volumes
//! in raw amounts and holds no such bound itself, [`raw_step`] bounds each
//! step by the volume that the sink has.

use vstd::prelude::*;

verus! {

/// The percents by which one press of a volume key changes the volume.
pub const VOLUME_STEP: u8 = 5;

/// The highest volume of a sink, in percent.
pub const FULL_VOLUME: u8 = 100;

/// The default sink as the mixer reports it.
#[derive(Clone, Copy, Debug, PartialEq, Eq, Structural)]
pub struct SinkInfo {
    pub index: u32,
    pub mute: bool,
    /// In percent.
    pub volume: u8,
}

/// The way a volume key moves the volume.
#[derive(Clone, Copy, Debug, PartialEq, Eq, Structural)]
pub enum Direction {
    Up,
    Down,
}

/// One call on the mixer. Each names the sink it addresses by its index.
#[derive(Clone, Copy, Debug, PartialEq, Eq, Structural)]
pub enum MixerCall {
    SetMute { index: u32, mute: bool },
    RaiseVolume { index: u32, percent: u8 },
    LowerVolume { index: u32, percent: u8 },
}

/// The call that moves the volume of sink `index` one step in `direction`.
pub open spec fn step_call(index: u32, direction: Direction) -> MixerCall {
    match direction {
        Direction::Up => MixerCall::RaiseVolume { index, percent: VOLUME_STEP },
        Direction::Down => MixerCall::LowerVolume { index, percent: VOLUME_STEP },
    }
}

/// The call that takes the mute off sink `index`.
pub open spec fn unmute_call(index: u32) -> MixerCall {
    MixerCall::SetMute { index, mute: false }
}

/// What the mute key asks of the mixer: the sink's mute flag turned over.
pub open spec fn mute_plan(sink: SinkInfo) -> Seq<MixerCall> {
    seq![MixerCall::SetMute { index: sink.index, mute: !sink.mute }]
}

/// What a volume key asks of the mixer: one step in `direction`, and before
/// it, where the sink is muted, the mute taken off.
pub open spec fn volume_plan(sink: SinkInfo, direction: Direction) -> Seq<MixerCall> {
    if sink.mute {
        seq![unmute_call(sink.index), step_call(sink.index, direction)]
    } else {
        seq![step_call(sink.index, direction)]
    }
}

/// The volume within the mixer's bounds that is nearest to `volume`.
pub open spec fn clamped(volume: int) -> int {
    if volume <= 0 {
        0
    } else if volume >= FULL_VOLUME {
        FULL_VOLUME as int
    } else {
        volume
    }
}

/// The volume in percent that the raw volume `raw` stands for where `normal`
/// stands for 100 %: the nearest whole percent, but no more than
/// [`FULL_VOLUME`].
pub open spec fn percent_of_raw(raw: u32, normal: u32) -> int
    recommends
        normal > 0,
{
    clamped((raw * 100 + normal / 2) / (normal as int))
}

/// Reads a raw volume as a volume in percent, where `normal` is the raw
/// volume that stands for 100 %. With a `normal` of zero there is no such
/// reading.
pub fn percent_of(raw: u32, normal: u32) -> (percent: Option<u8>)
    ensures
        normal == 0 ==> percent is None,
        normal > 0 ==> percent == Some(percent_of_raw(raw, normal) as u8),
{
    if normal == 0 {
        return None;
    }
    let scaled: u64 = (raw as u64 * 100 + normal as u64 / 2) / normal as u64;
    if scaled >= FULL_VOLUME as u64 {
        Some(FULL_VOLUME)
    } else {
        Some(scaled as u8)
    }
}

/// The raw amount that stands for `percent` where `normal` stands for 100 %,
/// rounded down.
pub open spec fn raw_of_percent(percent: u8, normal: u32) -> int {
    percent * normal / 100
}

/// The raw amount by which `call` moves a raw volume of `raw` within the
/// mixer's bounds, where `normal` stands for 100 %: the amount that the call
/// names, but upwards no more than is left below `normal`, and downwards no
/// more than is left above zero. A call that moves no volume moves it by
/// nothing.
pub open spec fn raw_step_of(call: MixerCall, raw: u32, normal: u32) -> int {
    match call {
        MixerCall::SetMute { .. } => 0,
        MixerCall::RaiseVolume { percent, .. } => if raw >= normal {
            0
        } else if raw_of_percent(percent, normal) >= normal - raw {
            normal - raw
        } else {
            raw_of_percent(percent, normal)
        },
        MixerCall::LowerVolume { percent, .. } => if raw_of_percent(percent, normal) >= raw {
            raw as int
        } else {
            raw_of_percent(percent, normal)
        },
    }
}

/// Bounds the step of a call by the volume that the sink has: gives the raw
/// amount to move a raw volume of `raw` by, so that a volume within the
/// mixer's bounds stays within them.
pub fn raw_step(call: MixerCall, raw: u32, normal: u32) -> (step: u32)
    ensures
        step == raw_step_of(call, raw, normal),
        call is RaiseVolume && raw <= normal ==> raw + step <= normal,
        call is LowerVolume ==> step <= raw,
{
    match call {
        MixerCall::SetMute { .. } => 0,
        MixerCall::RaiseVolume { percent, .. } => {
            assert(percent * normal <= 255 * 0xffff_ffff) by (nonlinear_arith)
                requires
                    percent <= 255,
                    normal <= 0xffff_ffff,
            ;
            let named: u64 = percent as u64 * normal as u64 / 100;
            if raw >= normal {
                0
            } else if named >= (normal - raw) as u64 {
                normal - raw
            } else {
                named as u32
            }
        },
        MixerCall::LowerVolume { percent, .. } => {
            assert(percent * normal <= 255 * 0xffff_ffff) by (nonlinear_arith)
                requires
                    percent <= 255,
                    normal <= 0xffff_ffff,
            ;
            let named: u64 = percent as u64 * normal as u64 / 100;
            if named >= raw as u64 {
                raw
            } else {
                named as u32
            }
        },
    }
}

impl SinkInfo {
    /// The sink's volume lies within the mixer's bounds.
    pub open spec fn in_bounds(self) -> bool {
        self.volume <= FULL_VOLUME
    }

    /// The sink once the mixer has carried out `call`. A call that addresses
    /// another sink leaves this one as it is.
    pub open spec fn after(self, call: MixerCall) -> SinkInfo {
        match call {
            MixerCall::SetMute { index, mute } => if index == self.index {
                SinkInfo { mute, ..self }
            } else {
                self
            },
            MixerCall::RaiseVolume { index, percent } => if index == self.index {
                SinkInfo { volume: clamped(self.volume + percent) as u8, ..self }
            } else {
                self
            },
            MixerCall::LowerVolume { index, percent } => if index == self.index {
                SinkInfo { volume: clamped(self.volume - percent) as u8, ..self }
            } else {
                self
            },
        }
    }

    /// The sink once the mixer has carried out `calls` one after the other.
    pub open spec fn after_all(self, calls: Seq<MixerCall>) -> SinkInfo
        decreases calls.len(),
    {
        if calls.len() == 0 {
            self
        } else {
            self.after(calls[0]).after_all(calls.drop_first())
        }
    }

    /// The sink after `presses` presses of the volume key for `direction`,
    /// each planned on the sink that the press before it left.
    pub open spec fn after_presses(self, direction: Direction, presses: nat) -> SinkInfo
        decreases presses,
    {
        if presses == 0 {
            self
        } else {
            let before = self.after_presses(direction, (presses - 1) as nat);
            before.after_all(volume_plan(before, direction))
        }
    }

    /// The sink as the mixer reports it once it has carried out `call`.
    pub fn apply(self, call: MixerCall) -> (sink: SinkInfo)
        ensures
            sink == self.after(call),
    {
        match call {
            MixerCall::SetMute { index, mute } => {
                if index == self.index {
                    SinkInfo { index: self.index, mute, volume: self.volume }
                } else {
                    self
                }
            },
            MixerCall::RaiseVolume { index, percent } => {
                if index == self.index {
                    let volume: u8 = if percent >= FULL_VOLUME || self.volume >= FULL_VOLUME
                        - percent {
                        FULL_VOLUME
                    } else {
                        self.volume + percent
                    };
                    SinkInfo { index: self.index, mute: self.mute, volume }
                } else {
                    self
                }
            },
            MixerCall::LowerVolume { index, percent } => {
                if index == self.index {
                    let volume: u8 = if self.volume <= percent {
                        0
                    } else if self.volume - percent >= FULL_VOLUME {
                        FULL_VOLUME
                    } else {
                        self.volume - percent
                    };
                    SinkInfo { index: self.index, mute: self.mute, volume }
                } else {
                    self
                }
            },
        }
    }
}

/// The calls by which the mute key turns the mute of `sink` over.
pub fn mute_calls(sink: SinkInfo) -> (calls: Vec<MixerCall>)
    ensures
        calls@ == mute_plan(sink),
{
    let mut calls: Vec<MixerCall> = Vec::new();
    calls.push(MixerCall::SetMute { index: sink.index, mute: !sink.mute });
    calls
}

/// The calls by which a volume key moves the volume of `sink` one step: on a
/// muted sink exactly one call that takes the mute off and then exactly one
/// that moves the volume, in this order; on another sink the one that moves
/// the volume alone.
pub fn volume_calls(sink: SinkInfo, direction: Direction) -> (calls: Vec<MixerCall>)
    ensures
        calls@ == volume_plan(sink, direction),
        sink.mute ==> calls@ == seq![unmute_call(sink.index), step_call(sink.index, direction)],
        !sink.mute ==> calls@ == seq![step_call(sink.index, direction)],
{
    let mut calls: Vec<MixerCall> = Vec::new();
    if sink.mute {
        calls.push(MixerCall::SetMute { index: sink.index, mute: false });
    }
    match direction {
        Direction::Up => calls.push(
            MixerCall::RaiseVolume { index: sink.index, percent: VOLUME_STEP },
        ),
        Direction::Down => calls.push(
            MixerCall::LowerVolume { index: sink.index, percent: VOLUME_STEP },
        ),
    }
    calls
}

/// Pressing the mute key twice leaves the sink as it was.
pub proof fn lemma_mute_twice_restores(sink: SinkInfo)
    ensures
        sink.after_all(mute_plan(sink)).after_all(mute_plan(sink.after_all(mute_plan(sink))))
            == sink,
{
    let once = sink.after_all(mute_plan(sink));
    lemma_after_plan(sink, mute_plan(sink));
    lemma_after_plan(once, mute_plan(once));
}

/// What a plan of one or two calls does to a sink, call by call.
proof fn lemma_after_plan(sink: SinkInfo, calls: Seq<MixerCall>)
    ensures
        calls.len() == 1 ==> sink.after_all(calls) == sink.after(calls[0]),
        calls.len() == 2 ==> sink.after_all(calls) == sink.after(calls[0]).after(calls[1]),
{
    reveal_with_fuel(SinkInfo::after_all, 3);
    if calls.len() == 2 {
        assert(calls.drop_first()[0] == calls[1]);
        assert(calls.drop_first().drop_first().len() == 0);
    }
}

/// One press of a volume key leaves the sink unmuted and its volume one step
/// further in the key's direction, but not beyond the mixer's bounds.
pub proof fn lemma_volume_press(sink: SinkInfo, direction: Direction)
    requires
        sink.in_bounds(),
    ensures
        sink.after_all(volume_plan(sink, direction)) == (SinkInfo {
            index: sink.index,
            mute: false,
            volume: match direction {
                Direction::Up => clamped(sink.volume + VOLUME_STEP) as u8,
                Direction::Down => clamped(sink.volume - VOLUME_STEP) as u8,
            },
        }),
        sink.after_all(volume_plan(sink, direction)).in_bounds(),
{
    lemma_after_plan(sink, volume_plan(sink, direction));
}

/// However often volume-up is pressed, the volume never exceeds
/// [`FULL_VOLUME`]: after `presses` presses it is `presses` steps above where
/// it began, or at [`FULL_VOLUME`] if that is lower.
pub proof fn lemma_volume_up_saturates(sink: SinkInfo, presses: nat)
    requires
        sink.in_bounds(),
    ensures
        sink.after_presses(Direction::Up, presses).volume == clamped(
            sink.volume + presses * VOLUME_STEP,
        ),
        sink.after_presses(Direction::Up, presses).volume <= FULL_VOLUME,
        sink.after_presses(Direction::Up, presses).index == sink.index,
        presses > 0 ==> !sink.after_presses(Direction::Up, presses).mute,
    decreases presses,
{
    if presses > 0 {
        let before = sink.after_presses(Direction::Up, (presses - 1) as nat);
        lemma_volume_up_saturates(sink, (presses - 1) as nat);
        lemma_volume_press(before, Direction::Up);
    }
}

/// However often volume-down is pressed, the volume never falls below zero:
/// after `presses` presses it is `presses` steps below where it began, or at
/// zero if that is higher.
pub proof fn lemma_volume_down_saturates(sink: SinkInfo, presses: nat)
    requires
        sink.in_bounds(),
    ensures
        sink.after_presses(Direction::Down, presses).volume == clamped(
            sink.volume - presses * VOLUME_STEP,
        ),
        sink.after_presses(Direction::Down, presses).index == sink.index,
        presses > 0 ==> !sink.after_presses(Direction::Down, presses).mute,
    decreases presses,
{
    if presses > 0 {
        let before = sink.after_presses(Direction::Down, (presses - 1) as nat);
        lemma_volume_down_saturates(sink, (presses - 1) as nat);
        lemma_volume_press(before, Direction::Down);
    }
}

} // verus!
