//! The abstract hardware-control surface consumed by the state engine.
//!
//! A concrete driver knows how to frame bytes for one physical device
//! family; the engine only relies on the capability interface below. Each
//! exec method's contract records the call it makes in a ghost call log, so
//! that the engine's own contracts can state exactly which hardware calls a
//! `sync` issues.

use vstd::prelude::*;

use crate::color::Rgb;

verus! {

/// A lighting mode a driver claims to support. Distinct from the engine's
/// `KeyboardState`, which also includes "off".
#[derive(Clone, Copy, PartialEq, Eq, Structural, Debug)]
pub enum KeyboardMode {
    ModeSteady,
    ModeBreathing,
    ModeColorshift,
}

impl KeyboardMode {
    /// The fixed one-byte external code of this mode.
    pub open spec fn spec_to_u8(&self) -> u8 {
        match *self {
            KeyboardMode::ModeSteady => 0x01,
            KeyboardMode::ModeBreathing => 0x02,
            KeyboardMode::ModeColorshift => 0x03,
        }
    }

    pub fn to_u8(&self) -> (b: u8)
        ensures
            b == self.spec_to_u8(),
    {
        match *self {
            KeyboardMode::ModeSteady => 0x01,
            KeyboardMode::ModeBreathing => 0x02,
            KeyboardMode::ModeColorshift => 0x03,
        }
    }
}

/// One call issued to a driver, as the engine's contracts see it.
pub ghost enum DriverCall {
    SetPower { on: bool },
    SetColor { color: Rgb, brightness: u8 },
    SetBreathing { colors: Seq<Rgb>, brightness: u8, speed: u8 },
    SetShift { colors: Seq<Rgb>, brightness: u8, speed: u8 },
}

/// The capability interface a concrete keyboard driver implements.
///
/// `calls` is the ghost log of every hardware call made so far; each exec
/// method appends exactly one entry. `modes` is the fixed set of lighting
/// modes the device advertises; no lighting call changes it. The `bool`
/// results report whether the device accepted the command; the engine does
/// not depend on them.
pub trait Driver {
    /// Ghost log of the hardware calls issued so far, oldest first.
    spec fn calls(&self) -> Seq<DriverCall>;

    /// The lighting modes the device claims to support.
    spec fn modes(&self) -> Seq<KeyboardMode>;

    /// Show one steady color at the given brightness.
    fn set_color(&mut self, color: &Rgb, brightness: u8) -> (ok: bool)
        ensures
            final(self).calls() == old(self).calls().push(
                DriverCall::SetColor { color: *color, brightness },
            ),
            final(self).modes() == old(self).modes(),
    ;

    /// Breathe through the given colors at the given brightness and speed.
    fn set_breathing(&mut self, colors: &Vec<Rgb>, brightness: u8, speed: u8) -> (ok: bool)
        ensures
            final(self).calls() == old(self).calls().push(
                DriverCall::SetBreathing { colors: colors@, brightness, speed },
            ),
            final(self).modes() == old(self).modes(),
    ;

    /// Shift through the given colors at the given brightness and speed.
    fn set_shift(&mut self, colors: &Vec<Rgb>, brightness: u8, speed: u8) -> (ok: bool)
        ensures
            final(self).calls() == old(self).calls().push(
                DriverCall::SetShift { colors: colors@, brightness, speed },
            ),
            final(self).modes() == old(self).modes(),
    ;

    /// Turn the whole backlight on or off.
    fn set_power(&mut self, value: bool) -> (ok: bool)
        ensures
            final(self).calls() == old(self).calls().push(
                DriverCall::SetPower { on: value },
            ),
            final(self).modes() == old(self).modes(),
    ;

    /// The modes the device claims to support.
    fn get_modes(&self) -> (r: Vec<KeyboardMode>)
        ensures
            r@ == self.modes(),
    ;

    /// The largest color-list length the device accepts.
    fn get_max_colors(&self) -> u8;
}

/// One recorded driver call, the exec mirror of [`DriverCall`].
pub enum RecordedCall {
    Power(bool),
    Color(Rgb, u8),
    Breathing(Vec<Rgb>, u8, u8),
    Shift(Vec<Rgb>, u8, u8),
}

/// What a [`RecordedCall`] stands for in the ghost call log.
pub open spec fn recorded_call_view(c: RecordedCall) -> DriverCall {
    match c {
        RecordedCall::Power(on) => DriverCall::SetPower { on },
        RecordedCall::Color(color, brightness) => DriverCall::SetColor { color, brightness },
        RecordedCall::Breathing(colors, brightness, speed) => DriverCall::SetBreathing {
            colors: colors@,
            brightness,
            speed,
        },
        RecordedCall::Shift(colors, brightness, speed) => DriverCall::SetShift {
            colors: colors@,
            brightness,
            speed,
        },
    }
}

/// A driver that performs no hardware I/O: it accepts every command and
/// keeps the full call history, so hosted callers and tests can observe
/// exactly what the engine pushed to the hardware.
pub struct RecordingDriver {
    log: Vec<RecordedCall>,
    supported: Vec<KeyboardMode>,
    max_colors: u8,
}

impl RecordingDriver {
    pub fn new(supported: Vec<KeyboardMode>, max_colors: u8) -> (d: RecordingDriver)
        ensures
            d.calls() == Seq::<DriverCall>::empty(),
            d.modes() == supported@,
    {
        let d = RecordingDriver { log: Vec::new(), supported, max_colors };
        proof {
            assert(d.calls() =~= Seq::<DriverCall>::empty());
        }
        d
    }

    /// Every call received so far, oldest first.
    pub fn log(&self) -> (r: &Vec<RecordedCall>)
        ensures
            r@.map_values(|c: RecordedCall| recorded_call_view(c)) == self.calls(),
    {
        &self.log
    }

    /// How many calls have been received.
    pub fn call_count(&self) -> (n: usize)
        ensures
            n == self.calls().len(),
    {
        self.log.len()
    }
}

impl Driver for RecordingDriver {
    closed spec fn calls(&self) -> Seq<DriverCall> {
        self.log@.map_values(|c: RecordedCall| recorded_call_view(c))
    }

    closed spec fn modes(&self) -> Seq<KeyboardMode> {
        self.supported@
    }

    fn set_color(&mut self, color: &Rgb, brightness: u8) -> (ok: bool) {
        let entry = RecordedCall::Color(*color, brightness);
        proof {
            old(self).log@.lemma_push_map_commute(
                |c: RecordedCall| recorded_call_view(c),
                entry,
            );
        }
        self.log.push(entry);
        true
    }

    fn set_breathing(&mut self, colors: &Vec<Rgb>, brightness: u8, speed: u8) -> (ok: bool) {
        let entry = RecordedCall::Breathing(clone_colors(colors), brightness, speed);
        proof {
            old(self).log@.lemma_push_map_commute(
                |c: RecordedCall| recorded_call_view(c),
                entry,
            );
        }
        self.log.push(entry);
        true
    }

    fn set_shift(&mut self, colors: &Vec<Rgb>, brightness: u8, speed: u8) -> (ok: bool) {
        let entry = RecordedCall::Shift(clone_colors(colors), brightness, speed);
        proof {
            old(self).log@.lemma_push_map_commute(
                |c: RecordedCall| recorded_call_view(c),
                entry,
            );
        }
        self.log.push(entry);
        true
    }

    fn set_power(&mut self, value: bool) -> (ok: bool) {
        let entry = RecordedCall::Power(value);
        proof {
            old(self).log@.lemma_push_map_commute(
                |c: RecordedCall| recorded_call_view(c),
                entry,
            );
        }
        self.log.push(entry);
        true
    }

    fn get_modes(&self) -> (r: Vec<KeyboardMode>) {
        let mut out: Vec<KeyboardMode> = Vec::new();
        let mut i: usize = 0;
        while i < self.supported.len()
            invariant
                i <= self.supported.len(),
                out@ == self.supported@.take(i as int),
            decreases self.supported.len() - i,
        {
            out.push(self.supported[i]);
            proof {
                assert(out@ =~= self.supported@.take(i + 1 as int));
            }
            i = i + 1;
        }
        proof {
            assert(out@ =~= self.supported@);
        }
        out
    }

    fn get_max_colors(&self) -> u8 {
        self.max_colors
    }
}

/// A fresh copy of a color list.
fn clone_colors(colors: &Vec<Rgb>) -> (r: Vec<Rgb>)
    ensures
        r@ == colors@,
{
    let mut out: Vec<Rgb> = Vec::new();
    let mut i: usize = 0;
    while i < colors.len()
        invariant
            i <= colors.len(),
            out@ == colors@.take(i as int),
        decreases colors.len() - i,
    {
        out.push(colors[i]);
        proof {
            assert(out@ =~= colors@.take(i + 1 as int));
        }
        i = i + 1;
    }
    proof {
        assert(out@ =~= colors@);
    }
    out
}

} // verus!
