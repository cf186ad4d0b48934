use vstd::prelude::*;

use super::apu::APU;
use super::apu_synth::APUSynthChannel;
use super::noise::{APUNoiseChannelState, APUNoiseOscillatorCommand};
use super::pulse::{APUPulseChannelState, APUPulseOscillatorCommand};
use super::triangle::{APUTriangleChannelState, APUTriangleOscillatorCommand};
use crate::audio::synth::{command_channel, command_time, SynthCommand};

verus! {

/// A command for one of the APU's oscillators.
#[derive(Debug, Clone, Copy, PartialEq, Eq, Structural)]
pub enum APUOscillatorCommand {
    Pulse(APUPulseOscillatorCommand),
    Triangle(APUTriangleOscillatorCommand),
    Noise(APUNoiseOscillatorCommand),
}

/// A command the APU sends to its synthesizer.
pub type APUSynthCommand = SynthCommand<APUSynthChannel, APUOscillatorCommand>;

/// The first `n` pairs of `before` and `after` reduced to the `after` commands
/// that differ from their `before` partners.
pub open spec fn changed_prefix<C>(before: Seq<C>, after: Seq<C>, n: nat) -> Seq<C>
    decreases n,
{
    if n == 0 {
        seq![]
    } else {
        let rest = changed_prefix(before, after, (n - 1) as nat);
        if before[n - 1] == after[n - 1] {
            rest
        } else {
            rest.push(after[n - 1])
        }
    }
}

/// The commands of `after` that differ from the command at the same place in
/// `before`, in order (the pairs run to the shorter of the two).
pub open spec fn changed_commands<C>(before: Seq<C>, after: Seq<C>) -> Seq<C> {
    changed_prefix(
        before,
        after,
        if before.len() < after.len() {
            before.len()
        } else {
            after.len()
        },
    )
}

/// Commands that can be compared.
pub trait CommandEq: Sized + Copy {
    fn same(&self, other: &Self) -> (r: bool)
        ensures
            r == (*self == *other),
    ;
}

impl CommandEq for APUPulseOscillatorCommand {
    fn same(&self, other: &Self) -> (r: bool) {
        *self == *other
    }
}

impl CommandEq for APUTriangleOscillatorCommand {
    fn same(&self, other: &Self) -> (r: bool) {
        *self == *other
    }
}

impl CommandEq for APUNoiseOscillatorCommand {
    fn same(&self, other: &Self) -> (r: bool) {
        *self == *other
    }
}

/// The commands of `after` that differ from their partners in `before`.
pub fn diff_command_lists<C: CommandEq>(before: &Vec<C>, after: &Vec<C>) -> (r: Vec<C>)
    ensures
        r@ == changed_commands(before@, after@),
{
    let n = if before.len() < after.len() {
        before.len()
    } else {
        after.len()
    };
    let mut out: Vec<C> = Vec::new();
    let mut i: usize = 0;
    while i < n
        invariant
            i <= n,
            n <= before@.len(),
            n <= after@.len(),
            n == (if before@.len() < after@.len() {
                before@.len()
            } else {
                after@.len()
            }),
            out@ == changed_prefix(before@, after@, i as nat),
        decreases n - i,
    {
        if !before[i].same(&after[i]) {
            out.push(after[i]);
        }
        i = i + 1;
    }
    out
}

/// A channel's reportable state: what its oscillator must be told.
pub trait APUChannelStateTrait: Sized {
    type Channel;
    type Command;

    /// The commands that bring an oscillator to this state.
    spec fn command_seq(&self) -> Seq<Self::Command>;

    /// The state a capture of `channel` reports.
    spec fn captured_from(channel: Self::Channel) -> Self;

    /// The channel after a capture.
    spec fn channel_after_capture(channel: Self::Channel) -> Self::Channel;

    /// Takes the channel's reportable state.
    fn capture(channel: &mut Self::Channel) -> (r: Self)
        ensures
            r == Self::captured_from(*old(channel)),
            *final(channel) == Self::channel_after_capture(*old(channel)),
    ;

    fn commands(&self) -> (r: Vec<Self::Command>)
        ensures
            r@ == self.command_seq(),
    ;

    /// The commands that differ between this state and `after`: the ones that
    /// move an oscillator from this state to that one.
    fn diff_commands(&self, after: &Self) -> (r: Vec<Self::Command>)
        ensures
            r@ == changed_commands(self.command_seq(), after.command_seq()),
    ;
}

impl APUChannelStateTrait for APUPulseChannelState {
    type Channel = super::pulse::APUPulseChannel;
    type Command = APUPulseOscillatorCommand;

    open spec fn command_seq(&self) -> Seq<APUPulseOscillatorCommand> {
        self.command_list()
    }

    open spec fn captured_from(channel: super::pulse::APUPulseChannel) -> APUPulseChannelState {
        channel.captured()
    }

    open spec fn channel_after_capture(channel: super::pulse::APUPulseChannel) -> super::pulse::APUPulseChannel {
        channel.after_capture()
    }

    fn capture(channel: &mut super::pulse::APUPulseChannel) -> (r: APUPulseChannelState) {
        APUPulseChannelState::capture(channel)
    }

    fn commands(&self) -> (r: Vec<APUPulseOscillatorCommand>) {
        APUPulseChannelState::commands(self)
    }

    fn diff_commands(&self, after: &Self) -> (r: Vec<APUPulseOscillatorCommand>) {
        let b = APUPulseChannelState::commands(self);
        let a = APUPulseChannelState::commands(after);
        diff_command_lists(&b, &a)
    }
}

impl APUChannelStateTrait for APUTriangleChannelState {
    type Channel = super::triangle::APUTriangleChannel;
    type Command = APUTriangleOscillatorCommand;

    open spec fn command_seq(&self) -> Seq<APUTriangleOscillatorCommand> {
        self.command_list()
    }

    open spec fn captured_from(channel: super::triangle::APUTriangleChannel) -> APUTriangleChannelState {
        channel.captured()
    }

    open spec fn channel_after_capture(channel: super::triangle::APUTriangleChannel) -> super::triangle::APUTriangleChannel {
        channel
    }

    fn capture(channel: &mut super::triangle::APUTriangleChannel) -> (r: APUTriangleChannelState) {
        APUTriangleChannelState::capture(channel)
    }

    fn commands(&self) -> (r: Vec<APUTriangleOscillatorCommand>) {
        APUTriangleChannelState::commands(self)
    }

    fn diff_commands(&self, after: &Self) -> (r: Vec<APUTriangleOscillatorCommand>) {
        let b = APUTriangleChannelState::commands(self);
        let a = APUTriangleChannelState::commands(after);
        diff_command_lists(&b, &a)
    }
}

impl APUChannelStateTrait for APUNoiseChannelState {
    type Channel = super::noise::APUNoiseChannel;
    type Command = APUNoiseOscillatorCommand;

    open spec fn command_seq(&self) -> Seq<APUNoiseOscillatorCommand> {
        self.command_list()
    }

    open spec fn captured_from(channel: super::noise::APUNoiseChannel) -> APUNoiseChannelState {
        channel.captured()
    }

    open spec fn channel_after_capture(channel: super::noise::APUNoiseChannel) -> super::noise::APUNoiseChannel {
        channel
    }

    fn capture(channel: &mut super::noise::APUNoiseChannel) -> (r: APUNoiseChannelState) {
        APUNoiseChannelState::capture(channel)
    }

    fn commands(&self) -> (r: Vec<APUNoiseOscillatorCommand>) {
        APUNoiseChannelState::commands(self)
    }

    fn diff_commands(&self, after: &Self) -> (r: Vec<APUNoiseOscillatorCommand>) {
        let b = APUNoiseChannelState::commands(self);
        let a = APUNoiseChannelState::commands(after);
        diff_command_lists(&b, &a)
    }
}

/// `cmds` as synthesizer commands for `channel`, stamped with `time`.
pub open spec fn stamped(channel: APUSynthChannel, cmds: Seq<APUOscillatorCommand>, time: u64) -> Seq<
    APUSynthCommand,
> {
    cmds.map_values(|c: APUOscillatorCommand| SynthCommand::ChannelCommand(channel, c, time))
}

/// Pulse commands as oscillator commands.
pub open spec fn pulse_cmds(s: Seq<APUPulseOscillatorCommand>) -> Seq<APUOscillatorCommand> {
    s.map_values(|c: APUPulseOscillatorCommand| APUOscillatorCommand::Pulse(c))
}

/// Triangle commands as oscillator commands.
pub open spec fn triangle_cmds(s: Seq<APUTriangleOscillatorCommand>) -> Seq<APUOscillatorCommand> {
    s.map_values(|c: APUTriangleOscillatorCommand| APUOscillatorCommand::Triangle(c))
}

/// Noise commands as oscillator commands.
pub open spec fn noise_cmds(s: Seq<APUNoiseOscillatorCommand>) -> Seq<APUOscillatorCommand> {
    s.map_values(|c: APUNoiseOscillatorCommand| APUOscillatorCommand::Noise(c))
}

fn wrap_pulse(v: Vec<APUPulseOscillatorCommand>) -> (r: Vec<APUOscillatorCommand>)
    ensures
        r@ == pulse_cmds(v@),
{
    let mut out: Vec<APUOscillatorCommand> = Vec::new();
    let mut i: usize = 0;
    while i < v.len()
        invariant
            i <= v@.len(),
            out@ == pulse_cmds(v@.subrange(0, i as int)),
        decreases v.len() - i,
    {
        out.push(APUOscillatorCommand::Pulse(v[i]));
        assert(v@.subrange(0, i + 1) =~= v@.subrange(0, i as int).push(v@[i as int]));
        i = i + 1;
    }
    assert(v@.subrange(0, v@.len() as int) =~= v@);
    out
}

fn wrap_triangle(v: Vec<APUTriangleOscillatorCommand>) -> (r: Vec<APUOscillatorCommand>)
    ensures
        r@ == triangle_cmds(v@),
{
    let mut out: Vec<APUOscillatorCommand> = Vec::new();
    let mut i: usize = 0;
    while i < v.len()
        invariant
            i <= v@.len(),
            out@ == triangle_cmds(v@.subrange(0, i as int)),
        decreases v.len() - i,
    {
        out.push(APUOscillatorCommand::Triangle(v[i]));
        assert(v@.subrange(0, i + 1) =~= v@.subrange(0, i as int).push(v@[i as int]));
        i = i + 1;
    }
    assert(v@.subrange(0, v@.len() as int) =~= v@);
    out
}

fn wrap_noise(v: Vec<APUNoiseOscillatorCommand>) -> (r: Vec<APUOscillatorCommand>)
    ensures
        r@ == noise_cmds(v@),
{
    let mut out: Vec<APUOscillatorCommand> = Vec::new();
    let mut i: usize = 0;
    while i < v.len()
        invariant
            i <= v@.len(),
            out@ == noise_cmds(v@.subrange(0, i as int)),
        decreases v.len() - i,
    {
        out.push(APUOscillatorCommand::Noise(v[i]));
        assert(v@.subrange(0, i + 1) =~= v@.subrange(0, i as int).push(v@[i as int]));
        i = i + 1;
    }
    assert(v@.subrange(0, v@.len() as int) =~= v@);
    out
}

/// Appends `cmds` to `out` as commands for `channel` at `time`.
fn stamp_into(out: &mut Vec<APUSynthCommand>, channel: APUSynthChannel, cmds: Vec<APUOscillatorCommand>, time: u64)
    ensures
        final(out)@ == old(out)@ + stamped(channel, cmds@, time),
{
    let mut i: usize = 0;
    while i < cmds.len()
        invariant
            i <= cmds@.len(),
            out@ == old(out)@ + stamped(channel, cmds@.subrange(0, i as int), time),
        decreases cmds.len() - i,
    {
        out.push(SynthCommand::ChannelCommand(channel, cmds[i], time));
        assert(cmds@.subrange(0, i + 1) =~= cmds@.subrange(0, i as int).push(cmds@[i as int]));
        assert(stamped(channel, cmds@.subrange(0, i + 1), time) =~= stamped(
            channel,
            cmds@.subrange(0, i as int),
            time,
        ).push(SynthCommand::ChannelCommand(channel, cmds@[i as int], time)));
        i = i + 1;
    }
    assert(cmds@.subrange(0, cmds@.len() as int) =~= cmds@);
}

/// The reportable state of one channel.
#[derive(Debug, Clone, Copy, PartialEq, Eq, Structural)]
pub enum APUChannelState {
    Pulse1(APUPulseChannelState),
    Pulse2(APUPulseChannelState),
    Triangle(APUTriangleChannelState),
    Noise(APUNoiseChannelState),
}

impl APUChannelState {
    /// The synthesizer channel the state is for.
    pub open spec fn channel(self) -> APUSynthChannel {
        match self {
            APUChannelState::Pulse1(_) => APUSynthChannel::Pulse1,
            APUChannelState::Pulse2(_) => APUSynthChannel::Pulse2,
            APUChannelState::Triangle(_) => APUSynthChannel::Triangle,
            APUChannelState::Noise(_) => APUSynthChannel::Noise,
        }
    }

    /// Whether two states are of the same channel.
    pub open spec fn same_channel(self, other: APUChannelState) -> bool {
        self.channel() == other.channel()
    }

    /// The oscillator commands that bring the channel to this state.
    pub open spec fn osc_commands(self) -> Seq<APUOscillatorCommand> {
        match self {
            APUChannelState::Pulse1(s) => pulse_cmds(s.command_list()),
            APUChannelState::Pulse2(s) => pulse_cmds(s.command_list()),
            APUChannelState::Triangle(s) => triangle_cmds(s.command_list()),
            APUChannelState::Noise(s) => noise_cmds(s.command_list()),
        }
    }

    /// The oscillator commands that move the channel from this state to `after`.
    pub open spec fn osc_diff(self, after: APUChannelState) -> Seq<APUOscillatorCommand> {
        match (self, after) {
            (APUChannelState::Pulse1(a), APUChannelState::Pulse1(b)) => pulse_cmds(
                changed_commands(a.command_list(), b.command_list()),
            ),
            (APUChannelState::Pulse2(a), APUChannelState::Pulse2(b)) => pulse_cmds(
                changed_commands(a.command_list(), b.command_list()),
            ),
            (APUChannelState::Triangle(a), APUChannelState::Triangle(b)) => triangle_cmds(
                changed_commands(a.command_list(), b.command_list()),
            ),
            (APUChannelState::Noise(a), APUChannelState::Noise(b)) => noise_cmds(
                changed_commands(a.command_list(), b.command_list()),
            ),
            _ => seq![],
        }
    }

    /// Takes the reportable state of one of the APU's channels.
    pub fn capture(apu: &mut APU, channel: APUSynthChannel) -> (r: APUChannelState)
        ensures
            r.channel() == channel,
            match channel {
                APUSynthChannel::Pulse1 => {
                    &&& r == APUChannelState::Pulse1(old(apu).pulse1.captured())
                    &&& *final(apu) == (APU { pulse1: old(apu).pulse1.after_capture(), ..*old(apu) })
                },
                APUSynthChannel::Pulse2 => {
                    &&& r == APUChannelState::Pulse2(old(apu).pulse2.captured())
                    &&& *final(apu) == (APU { pulse2: old(apu).pulse2.after_capture(), ..*old(apu) })
                },
                APUSynthChannel::Triangle => {
                    &&& r == APUChannelState::Triangle(old(apu).triangle.captured())
                    &&& *final(apu) == *old(apu)
                },
                APUSynthChannel::Noise => {
                    &&& r == APUChannelState::Noise(old(apu).noise.captured())
                    &&& *final(apu) == *old(apu)
                },
            },
    {
        match channel {
            APUSynthChannel::Pulse1 => APUChannelState::Pulse1(APUPulseChannelState::capture(&mut apu.pulse1)),
            APUSynthChannel::Pulse2 => APUChannelState::Pulse2(APUPulseChannelState::capture(&mut apu.pulse2)),
            APUSynthChannel::Triangle => APUChannelState::Triangle(APUTriangleChannelState::capture(&apu.triangle)),
            APUSynthChannel::Noise => APUChannelState::Noise(APUNoiseChannelState::capture(&apu.noise)),
        }
    }

    /// The commands that bring the channel's oscillator to this state.
    pub fn commands(&self, time: u64) -> (r: Vec<APUSynthCommand>)
        ensures
            r@ == stamped(self.channel(), self.osc_commands(), time),
    {
        let mut out: Vec<APUSynthCommand> = Vec::new();
        match self {
            APUChannelState::Pulse1(s) => stamp_into(&mut out, APUSynthChannel::Pulse1, wrap_pulse(s.commands()), time),
            APUChannelState::Pulse2(s) => stamp_into(&mut out, APUSynthChannel::Pulse2, wrap_pulse(s.commands()), time),
            APUChannelState::Triangle(s) => stamp_into(&mut out, APUSynthChannel::Triangle, wrap_triangle(s.commands()), time),
            APUChannelState::Noise(s) => stamp_into(&mut out, APUSynthChannel::Noise, wrap_noise(s.commands()), time),
        }
        assert(out@ =~= stamped(self.channel(), self.osc_commands(), time));
        out
    }

    /// The commands that move the channel's oscillator from this state to `other`.
    pub fn diff_commands(&self, other: &APUChannelState, time: u64) -> (r: Vec<APUSynthCommand>)
        requires
            self.same_channel(*other),
        ensures
            r@ == stamped(self.channel(), self.osc_diff(*other), time),
    {
        let mut out: Vec<APUSynthCommand> = Vec::new();
        match (self, other) {
            (APUChannelState::Pulse1(a), APUChannelState::Pulse1(b)) => stamp_into(&mut out, APUSynthChannel::Pulse1, wrap_pulse(APUChannelStateTrait::diff_commands(a, b)), time),
            (APUChannelState::Pulse2(a), APUChannelState::Pulse2(b)) => stamp_into(&mut out, APUSynthChannel::Pulse2, wrap_pulse(APUChannelStateTrait::diff_commands(a, b)), time),
            (APUChannelState::Triangle(a), APUChannelState::Triangle(b)) => stamp_into(&mut out, APUSynthChannel::Triangle, wrap_triangle(APUChannelStateTrait::diff_commands(a, b)), time),
            (APUChannelState::Noise(a), APUChannelState::Noise(b)) => stamp_into(&mut out, APUSynthChannel::Noise, wrap_noise(APUChannelStateTrait::diff_commands(a, b)), time),
            _ => {},
        }
        assert(out@ =~= stamped(self.channel(), self.osc_diff(*other), time));
        out
    }
}

/// The reportable state of all four channels.
#[derive(Debug, Clone, Copy, PartialEq, Eq, Structural)]
pub struct APUState {
    pub(crate) pulse1: APUChannelState,
    pub(crate) pulse2: APUChannelState,
    pub(crate) triangle: APUChannelState,
    pub(crate) noise: APUChannelState,
}

impl APUState {
    /// Each field holds the state of its own channel.
    #[verifier::type_invariant]
    pub closed spec fn wf(self) -> bool {
        &&& self.pulse1.channel() == APUSynthChannel::Pulse1
        &&& self.pulse2.channel() == APUSynthChannel::Pulse2
        &&& self.triangle.channel() == APUSynthChannel::Triangle
        &&& self.noise.channel() == APUSynthChannel::Noise
    }

    /// The reported state of one channel.
    pub closed spec fn channel_state(self, channel: APUSynthChannel) -> APUChannelState {
        match channel {
            APUSynthChannel::Pulse1 => self.pulse1,
            APUSynthChannel::Pulse2 => self.pulse2,
            APUSynthChannel::Triangle => self.triangle,
            APUSynthChannel::Noise => self.noise,
        }
    }

    /// The state of `apu`'s channels.
    pub closed spec fn of(apu: APU) -> APUState {
        APUState {
            pulse1: APUChannelState::Pulse1(apu.pulse1.captured()),
            pulse2: APUChannelState::Pulse2(apu.pulse2.captured()),
            triangle: APUChannelState::Triangle(apu.triangle.captured()),
            noise: APUChannelState::Noise(apu.noise.captured()),
        }
    }

    /// The commands that bring all four oscillators to this state, channel by channel.
    pub closed spec fn all_commands(self, time: u64) -> Seq<APUSynthCommand> {
        stamped(self.pulse1.channel(), self.pulse1.osc_commands(), time) + stamped(
            self.pulse2.channel(),
            self.pulse2.osc_commands(),
            time,
        ) + stamped(self.triangle.channel(), self.triangle.osc_commands(), time) + stamped(
            self.noise.channel(),
            self.noise.osc_commands(),
            time,
        )
    }

    /// The commands that move all four oscillators from this state to `other`.
    pub closed spec fn all_diff(self, other: APUState, time: u64) -> Seq<APUSynthCommand> {
        stamped(APUSynthChannel::Pulse1, self.pulse1.osc_diff(other.pulse1), time) + stamped(
            APUSynthChannel::Pulse2,
            self.pulse2.osc_diff(other.pulse2),
            time,
        ) + stamped(APUSynthChannel::Triangle, self.triangle.osc_diff(other.triangle), time)
            + stamped(APUSynthChannel::Noise, self.noise.osc_diff(other.noise), time)
    }

    /// Takes the state of the APU's channels (clearing the pulse channels'
    /// one-shot frame-counter events).
    pub fn capture(apu: &mut APU) -> (r: APUState)
        ensures
            r == APUState::of(*old(apu)),
            *final(apu) == old(apu).after_capture(),
    {
        let pulse1 = APUChannelState::capture(apu, APUSynthChannel::Pulse1);
        let pulse2 = APUChannelState::capture(apu, APUSynthChannel::Pulse2);
        let triangle = APUChannelState::capture(apu, APUSynthChannel::Triangle);
        let noise = APUChannelState::capture(apu, APUSynthChannel::Noise);
        APUState { pulse1, pulse2, triangle, noise }
    }

    /// The commands that bring all four oscillators to this state: the first
    /// pulse channel's seven, the second's seven, the triangle's five and the
    /// noise channel's six, in that order, all stamped with `time`.
    pub fn commands(&self, time: u64) -> (r: Vec<APUSynthCommand>)
        ensures
            r@ == self.all_commands(time),
            r@ == stamped(
                APUSynthChannel::Pulse1,
                self.channel_state(APUSynthChannel::Pulse1).osc_commands(),
                time,
            ) + stamped(APUSynthChannel::Pulse2, self.channel_state(APUSynthChannel::Pulse2).osc_commands(), time)
                + stamped(
                APUSynthChannel::Triangle,
                self.channel_state(APUSynthChannel::Triangle).osc_commands(),
                time,
            ) + stamped(APUSynthChannel::Noise, self.channel_state(APUSynthChannel::Noise).osc_commands(), time),
            r@.len() == 25,
            forall|i: int| 0 <= i < 25 ==> command_time(#[trigger] r@[i]) == time,
            forall|i: int|
                0 <= i < 25 ==> command_channel(#[trigger] r@[i]) == (if i < 7 {
                    APUSynthChannel::Pulse1
                } else if i < 14 {
                    APUSynthChannel::Pulse2
                } else if i < 19 {
                    APUSynthChannel::Triangle
                } else {
                    APUSynthChannel::Noise
                }),
    {
        proof {
            use_type_invariant(self);
        }
        let mut out = self.pulse1.commands(time);
        let mut b = self.pulse2.commands(time);
        out.append(&mut b);
        let mut c = self.triangle.commands(time);
        out.append(&mut c);
        let mut d = self.noise.commands(time);
        out.append(&mut d);
        proof {
            let a = stamped(APUSynthChannel::Pulse1, self.pulse1.osc_commands(), time);
            let b2 = stamped(APUSynthChannel::Pulse2, self.pulse2.osc_commands(), time);
            let c2 = stamped(APUSynthChannel::Triangle, self.triangle.osc_commands(), time);
            let d2 = stamped(APUSynthChannel::Noise, self.noise.osc_commands(), time);
            assert(a.len() == 7 && b2.len() == 7 && c2.len() == 5 && d2.len() == 6);
            assert(out@ == a + b2 + c2 + d2);
            assert forall|i: int| 0 <= i < 25 implies command_time(#[trigger] out@[i]) == time && command_channel(
                out@[i],
            ) == (if i < 7 {
                APUSynthChannel::Pulse1
            } else if i < 14 {
                APUSynthChannel::Pulse2
            } else if i < 19 {
                APUSynthChannel::Triangle
            } else {
                APUSynthChannel::Noise
            }) by {
                if i < 7 {
                    assert(out@[i] == a[i]);
                } else if i < 14 {
                    assert(out@[i] == b2[i - 7]);
                } else if i < 19 {
                    assert(out@[i] == c2[i - 14]);
                } else {
                    assert(out@[i] == d2[i - 19]);
                }
            }
        }
        out
    }

    /// The commands that move all four oscillators from this state to `other`:
    /// each channel's changed commands, in the order first pulse, second pulse,
    /// triangle, noise, at most 25, all stamped with `time`; none when nothing
    /// changed.
    pub fn diff_commands(&self, other: &APUState, time: u64) -> (r: Vec<APUSynthCommand>)
        ensures
            r@ == self.all_diff(*other, time),
            r@ == stamped(
                APUSynthChannel::Pulse1,
                self.channel_state(APUSynthChannel::Pulse1).osc_diff(other.channel_state(APUSynthChannel::Pulse1)),
                time,
            ) + stamped(
                APUSynthChannel::Pulse2,
                self.channel_state(APUSynthChannel::Pulse2).osc_diff(other.channel_state(APUSynthChannel::Pulse2)),
                time,
            ) + stamped(
                APUSynthChannel::Triangle,
                self.channel_state(APUSynthChannel::Triangle).osc_diff(
                    other.channel_state(APUSynthChannel::Triangle),
                ),
                time,
            ) + stamped(
                APUSynthChannel::Noise,
                self.channel_state(APUSynthChannel::Noise).osc_diff(other.channel_state(APUSynthChannel::Noise)),
                time,
            ),
            r@.len() <= 25,
            forall|i: int| 0 <= i < r@.len() ==> command_time(#[trigger] r@[i]) == time,
            *self == *other ==> r@.len() == 0,
    {
        proof {
            use_type_invariant(self);
            use_type_invariant(other);
        }
        let mut out = self.pulse1.diff_commands(&other.pulse1, time);
        let mut b = self.pulse2.diff_commands(&other.pulse2, time);
        out.append(&mut b);
        let mut c = self.triangle.diff_commands(&other.triangle, time);
        out.append(&mut c);
        let mut d = self.noise.diff_commands(&other.noise, time);
        out.append(&mut d);
        proof {
            let a = stamped(APUSynthChannel::Pulse1, self.pulse1.osc_diff(other.pulse1), time);
            let b2 = stamped(APUSynthChannel::Pulse2, self.pulse2.osc_diff(other.pulse2), time);
            let c2 = stamped(APUSynthChannel::Triangle, self.triangle.osc_diff(other.triangle), time);
            let d2 = stamped(APUSynthChannel::Noise, self.noise.osc_diff(other.noise), time);
            lemma_osc_diff_len(self.pulse1, other.pulse1);
            lemma_osc_diff_len(self.pulse2, other.pulse2);
            lemma_osc_diff_len(self.triangle, other.triangle);
            lemma_osc_diff_len(self.noise, other.noise);
            assert(out@ == a + b2 + c2 + d2);
            assert forall|i: int| 0 <= i < out@.len() implies command_time(#[trigger] out@[i]) == time by {
                if i < a.len() {
                    assert(out@[i] == a[i]);
                } else if i < a.len() + b2.len() {
                    assert(out@[i] == b2[i - a.len()]);
                } else if i < a.len() + b2.len() + c2.len() {
                    assert(out@[i] == c2[i - a.len() - b2.len()]);
                } else {
                    assert(out@[i] == d2[i - a.len() - b2.len() - c2.len()]);
                }
            }
            if *self == *other {
                lemma_diff_unchanged_state(*self, time);
            }
        }
        out
    }
}

/// Comparing a command list with itself finds nothing changed.
pub proof fn lemma_changed_prefix_self<C>(s: Seq<C>, n: nat)
    requires
        n <= s.len(),
    ensures
        changed_prefix(s, s, n) == Seq::<C>::empty(),
    decreases n,
{
    if n > 0 {
        lemma_changed_prefix_self(s, (n - 1) as nat);
    }
}

/// An unchanged APU state reports no commands: every channel's diff against
/// itself is empty.
pub proof fn lemma_diff_unchanged_state(state: APUState, time: u64)
    ensures
        state.all_diff(state, time) == Seq::<APUSynthCommand>::empty(),
{
    match state.pulse1 {
        APUChannelState::Pulse1(a) | APUChannelState::Pulse2(a) => lemma_changed_prefix_self(a.command_list(), a.command_list().len()),
        APUChannelState::Triangle(a) => lemma_changed_prefix_self(a.command_list(), a.command_list().len()),
        APUChannelState::Noise(a) => lemma_changed_prefix_self(a.command_list(), a.command_list().len()),
    }
    match state.pulse2 {
        APUChannelState::Pulse1(a) | APUChannelState::Pulse2(a) => lemma_changed_prefix_self(a.command_list(), a.command_list().len()),
        APUChannelState::Triangle(a) => lemma_changed_prefix_self(a.command_list(), a.command_list().len()),
        APUChannelState::Noise(a) => lemma_changed_prefix_self(a.command_list(), a.command_list().len()),
    }
    match state.triangle {
        APUChannelState::Pulse1(a) | APUChannelState::Pulse2(a) => lemma_changed_prefix_self(a.command_list(), a.command_list().len()),
        APUChannelState::Triangle(a) => lemma_changed_prefix_self(a.command_list(), a.command_list().len()),
        APUChannelState::Noise(a) => lemma_changed_prefix_self(a.command_list(), a.command_list().len()),
    }
    match state.noise {
        APUChannelState::Pulse1(a) | APUChannelState::Pulse2(a) => lemma_changed_prefix_self(a.command_list(), a.command_list().len()),
        APUChannelState::Triangle(a) => lemma_changed_prefix_self(a.command_list(), a.command_list().len()),
        APUChannelState::Noise(a) => lemma_changed_prefix_self(a.command_list(), a.command_list().len()),
    }
    assert(pulse_cmds(Seq::<APUPulseOscillatorCommand>::empty()) =~= Seq::<APUOscillatorCommand>::empty());
    assert(triangle_cmds(Seq::<APUTriangleOscillatorCommand>::empty()) =~= Seq::<APUOscillatorCommand>::empty());
    assert(noise_cmds(Seq::<APUNoiseOscillatorCommand>::empty()) =~= Seq::<APUOscillatorCommand>::empty());
    assert(state.all_diff(state, time) =~= Seq::<APUSynthCommand>::empty());
}


/// Each channel compared with itself up to `n` yields at most `n` commands.
pub proof fn lemma_changed_prefix_len<C>(before: Seq<C>, after: Seq<C>, n: nat)
    ensures
        changed_prefix(before, after, n).len() <= n,
    decreases n,
{
    if n > 0 {
        lemma_changed_prefix_len(before, after, (n - 1) as nat);
    }
}

/// The state of an APU's channels holds, channel by channel, what a capture of
/// that channel reports.
pub proof fn lemma_state_of(apu: APU)
    ensures
        APUState::of(apu).channel_state(APUSynthChannel::Pulse1) == APUChannelState::Pulse1(apu.pulse1.captured()),
        APUState::of(apu).channel_state(APUSynthChannel::Pulse2) == APUChannelState::Pulse2(apu.pulse2.captured()),
        APUState::of(apu).channel_state(APUSynthChannel::Triangle) == APUChannelState::Triangle(
            apu.triangle.captured(),
        ),
        APUState::of(apu).channel_state(APUSynthChannel::Noise) == APUChannelState::Noise(apu.noise.captured()),
{
}

/// The full command list of a state is each channel's commands, stamped, in the
/// order first pulse, second pulse, triangle, noise.
pub proof fn lemma_all_commands_by_channel(s: APUState, time: u64)
    ensures
        s.all_commands(time) == stamped(
            s.channel_state(APUSynthChannel::Pulse1).channel(),
            s.channel_state(APUSynthChannel::Pulse1).osc_commands(),
            time,
        ) + stamped(
            s.channel_state(APUSynthChannel::Pulse2).channel(),
            s.channel_state(APUSynthChannel::Pulse2).osc_commands(),
            time,
        ) + stamped(
            s.channel_state(APUSynthChannel::Triangle).channel(),
            s.channel_state(APUSynthChannel::Triangle).osc_commands(),
            time,
        ) + stamped(
            s.channel_state(APUSynthChannel::Noise).channel(),
            s.channel_state(APUSynthChannel::Noise).osc_commands(),
            time,
        ),
{
}

/// The difference of two states is each channel's difference, stamped, in the
/// order first pulse, second pulse, triangle, noise.
pub proof fn lemma_all_diff_by_channel(s: APUState, o: APUState, time: u64)
    ensures
        s.all_diff(o, time) == stamped(
            APUSynthChannel::Pulse1,
            s.channel_state(APUSynthChannel::Pulse1).osc_diff(o.channel_state(APUSynthChannel::Pulse1)),
            time,
        ) + stamped(
            APUSynthChannel::Pulse2,
            s.channel_state(APUSynthChannel::Pulse2).osc_diff(o.channel_state(APUSynthChannel::Pulse2)),
            time,
        ) + stamped(
            APUSynthChannel::Triangle,
            s.channel_state(APUSynthChannel::Triangle).osc_diff(o.channel_state(APUSynthChannel::Triangle)),
            time,
        ) + stamped(
            APUSynthChannel::Noise,
            s.channel_state(APUSynthChannel::Noise).osc_diff(o.channel_state(APUSynthChannel::Noise)),
            time,
        ),
{
}

/// The commands reporting an APU's whole state: the first pulse channel's seven,
/// the second's seven, the triangle's five and the noise channel's six, 25 in
/// all, every one stamped with `time`.
pub proof fn lemma_state_commands(apu: APU, time: u64)
    ensures
        ({
            let r = APUState::of(apu).all_commands(time);
            &&& r == stamped(APUSynthChannel::Pulse1, pulse_cmds(apu.pulse1.captured().command_list()), time)
                + stamped(APUSynthChannel::Pulse2, pulse_cmds(apu.pulse2.captured().command_list()), time)
                + stamped(APUSynthChannel::Triangle, triangle_cmds(apu.triangle.captured().command_list()), time)
                + stamped(APUSynthChannel::Noise, noise_cmds(apu.noise.captured().command_list()), time)
            &&& r.len() == 25
            &&& forall|i: int| 0 <= i < 25 ==> command_time(#[trigger] r[i]) == time
        }),
{
    let r = APUState::of(apu).all_commands(time);
    assert forall|i: int| 0 <= i < 25 implies command_time(#[trigger] r[i]) == time by {
        if i < 7 {
        } else if i < 14 {
        } else if i < 19 {
        } else {
        }
    }
}

/// The commands between two captured APU states: each channel's changed
/// commands in that order, at most 25, every one stamped with `time`.
pub proof fn lemma_state_diff(before: APU, after: APU, time: u64)
    ensures
        ({
            let r = APUState::of(before).all_diff(APUState::of(after), time);
            &&& r == stamped(
                APUSynthChannel::Pulse1,
                pulse_cmds(changed_commands(before.pulse1.captured().command_list(), after.pulse1.captured().command_list())),
                time,
            ) + stamped(
                APUSynthChannel::Pulse2,
                pulse_cmds(changed_commands(before.pulse2.captured().command_list(), after.pulse2.captured().command_list())),
                time,
            ) + stamped(
                APUSynthChannel::Triangle,
                triangle_cmds(changed_commands(before.triangle.captured().command_list(), after.triangle.captured().command_list())),
                time,
            ) + stamped(
                APUSynthChannel::Noise,
                noise_cmds(changed_commands(before.noise.captured().command_list(), after.noise.captured().command_list())),
                time,
            )
            &&& r.len() <= 25
            &&& forall|i: int| 0 <= i < r.len() ==> command_time(#[trigger] r[i]) == time
        }),
{
    let p1 = before.pulse1.captured().command_list();
    let q1 = after.pulse1.captured().command_list();
    let p2 = before.pulse2.captured().command_list();
    let q2 = after.pulse2.captured().command_list();
    let t1 = before.triangle.captured().command_list();
    let u1 = after.triangle.captured().command_list();
    let n1 = before.noise.captured().command_list();
    let m1 = after.noise.captured().command_list();
    lemma_changed_prefix_len(p1, q1, 7);
    lemma_changed_prefix_len(p2, q2, 7);
    lemma_changed_prefix_len(t1, u1, 5);
    lemma_changed_prefix_len(n1, m1, 6);
    let a = stamped(APUSynthChannel::Pulse1, pulse_cmds(changed_commands(p1, q1)), time);
    let b = stamped(APUSynthChannel::Pulse2, pulse_cmds(changed_commands(p2, q2)), time);
    let c = stamped(APUSynthChannel::Triangle, triangle_cmds(changed_commands(t1, u1)), time);
    let d = stamped(APUSynthChannel::Noise, noise_cmds(changed_commands(n1, m1)), time);
    let r = a + b + c + d;
    assert forall|i: int| 0 <= i < r.len() implies command_time(#[trigger] r[i]) == time by {
        if i < a.len() {
            assert(r[i] == a[i]);
        } else if i < a.len() + b.len() {
            assert(r[i] == b[i - a.len()]);
        } else if i < a.len() + b.len() + c.len() {
            assert(r[i] == c[i - a.len() - b.len()]);
        } else {
            assert(r[i] == d[i - a.len() - b.len() - c.len()]);
        }
    }
}


/// A channel's difference to another state has at most as many commands as the
/// channel has: seven for a pulse channel, five for the triangle, six for noise.
pub proof fn lemma_osc_diff_len(a: APUChannelState, b: APUChannelState)
    ensures
        a.osc_diff(b).len() <= match a {
            APUChannelState::Triangle(_) => 5int,
            APUChannelState::Noise(_) => 6int,
            _ => 7int,
        },
{
    match (a, b) {
        (APUChannelState::Pulse1(x), APUChannelState::Pulse1(y)) => lemma_changed_prefix_len(x.command_list(), y.command_list(), 7),
        (APUChannelState::Pulse2(x), APUChannelState::Pulse2(y)) => lemma_changed_prefix_len(x.command_list(), y.command_list(), 7),
        (APUChannelState::Triangle(x), APUChannelState::Triangle(y)) => lemma_changed_prefix_len(x.command_list(), y.command_list(), 5),
        (APUChannelState::Noise(x), APUChannelState::Noise(y)) => lemma_changed_prefix_len(x.command_list(), y.command_list(), 6),
        _ => {},
    }
}

} // verus!
