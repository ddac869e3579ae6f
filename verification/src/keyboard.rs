//! The keyboard state engine: the authoritative lighting state, the
//! dirty-flag gated synchronization with the hardware driver, and the
//! persisted binary state image.

use vstd::prelude::*;

use crate::color::Rgb;
use crate::driver::{Driver, DriverCall};
use crate::driver::KeyboardMode;

verus! {

/// The engine's current lighting behavior. Unlike a driver's
/// `KeyboardMode`, it also includes "off".
#[derive(Clone, Copy, PartialEq, Eq, Structural, Debug)]
pub enum KeyboardState {
    KeyboardOff,
    KeyboardSteady,
    KeyboardBreathing,
    KeyboardColorShift,
}

impl KeyboardState {
    /// The fixed one-byte external code of each state.
    pub open spec fn spec_to_u8(s: KeyboardState) -> u8 {
        match s {
            KeyboardState::KeyboardOff => 0x00,
            KeyboardState::KeyboardSteady => 0x01,
            KeyboardState::KeyboardBreathing => 0x02,
            KeyboardState::KeyboardColorShift => 0x03,
        }
    }

    /// Which state a byte decodes to; bytes outside the four codes decode
    /// to nothing.
    pub open spec fn spec_from_u8(byte: u8) -> Option<KeyboardState> {
        if byte == 0x00 {
            Some(KeyboardState::KeyboardOff)
        } else if byte == 0x01 {
            Some(KeyboardState::KeyboardSteady)
        } else if byte == 0x02 {
            Some(KeyboardState::KeyboardBreathing)
        } else if byte == 0x03 {
            Some(KeyboardState::KeyboardColorShift)
        } else {
            None
        }
    }

    pub fn from_u8(byte: u8) -> (r: Option<KeyboardState>)
        ensures
            r == KeyboardState::spec_from_u8(byte),
    {
        if byte == 0x00 {
            Some(KeyboardState::KeyboardOff)
        } else if byte == 0x01 {
            Some(KeyboardState::KeyboardSteady)
        } else if byte == 0x02 {
            Some(KeyboardState::KeyboardBreathing)
        } else if byte == 0x03 {
            Some(KeyboardState::KeyboardColorShift)
        } else {
            None
        }
    }

    pub fn to_u8(state: KeyboardState) -> (b: u8)
        ensures
            b == KeyboardState::spec_to_u8(state),
    {
        match state {
            KeyboardState::KeyboardOff => 0x00,
            KeyboardState::KeyboardSteady => 0x01,
            KeyboardState::KeyboardBreathing => 0x02,
            KeyboardState::KeyboardColorShift => 0x03,
        }
    }
}

/// Law: the state byte codes are a bijection over the four states. Encoding
/// then decoding restores the state, and every byte outside the four codes
/// decodes to nothing.
pub proof fn lemma_state_code_round_trip(s: KeyboardState, b: u8)
    ensures
        KeyboardState::spec_from_u8(KeyboardState::spec_to_u8(s)) == Some(s),
        3 < b ==> KeyboardState::spec_from_u8(b) is None,
{
}

/// The fatal outcome of a sync whose state needs a color but whose color
/// list is empty: a programmer-invariant violation, not a user error.
#[derive(Clone, Copy, PartialEq, Eq, Structural, Debug)]
pub enum SyncError {
    EmptyColors,
}

/// The fatal outcome of decoding a corrupt persisted state image.
#[derive(Clone, Copy, PartialEq, Eq, Structural, Debug)]
pub enum LoadError {
    /// The image ends before the field being read.
    Truncated,
    /// The state byte is outside the four valid codes.
    BadStateByte,
}

/// Everything observable about an engine: its own fields plus the driver's
/// ghost call log and advertised modes.
#[verifier::ext_equal]
pub ghost struct KeyboardView {
    pub state: KeyboardState,
    pub colors: Seq<Rgb>,
    pub brightness: u8,
    pub speed: u8,
    pub syncing: bool,
    pub power: bool,
    pub need_sync: bool,
    pub calls: Seq<DriverCall>,
    pub modes: Seq<KeyboardMode>,
}

/// The driver calls one `sync` issues from the given engine state: none if
/// the state is clean, `set_power(false)` if power is off or the state is
/// off, otherwise the one lighting call for the state — or none, when the
/// needed color list is empty and the sync fails instead.
pub open spec fn sync_calls(v: KeyboardView) -> Seq<DriverCall> {
    if !v.need_sync {
        Seq::<DriverCall>::empty()
    } else if !v.power {
        seq![DriverCall::SetPower { on: false }]
    } else {
        match v.state {
            KeyboardState::KeyboardOff => seq![DriverCall::SetPower { on: false }],
            KeyboardState::KeyboardSteady => if v.colors.len() == 0 {
                Seq::<DriverCall>::empty()
            } else {
                seq![DriverCall::SetColor { color: v.colors[0], brightness: v.brightness }]
            },
            KeyboardState::KeyboardBreathing => if v.colors.len() == 0 {
                Seq::<DriverCall>::empty()
            } else {
                seq![
                    DriverCall::SetBreathing {
                        colors: v.colors,
                        brightness: v.brightness,
                        speed: v.speed,
                    },
                ]
            },
            KeyboardState::KeyboardColorShift => if v.colors.len() == 0 {
                Seq::<DriverCall>::empty()
            } else {
                seq![
                    DriverCall::SetShift {
                        colors: v.colors,
                        brightness: v.brightness,
                        speed: v.speed,
                    },
                ]
            },
        }
    }
}

/// Whether a sync from the given state succeeds, and if not, with which
/// fatal error.
pub open spec fn sync_result(v: KeyboardView) -> Result<(), SyncError> {
    if v.need_sync && v.power && !(v.state is KeyboardOff) && v.colors.len() == 0 {
        Err(SyncError::EmptyColors)
    } else {
        Ok(())
    }
}

/// The engine state after one `sync`: the dirty flag is clear and the
/// driver log has grown by exactly the calls of [`sync_calls`].
pub open spec fn synced(v: KeyboardView) -> KeyboardView {
    KeyboardView { need_sync: false, calls: v.calls + sync_calls(v), ..v }
}

/// The engine state after a mutator has updated its fields to `w`: the
/// catch-up sync runs if and only if the auto-sync gate is open.
pub open spec fn auto_synced(w: KeyboardView) -> KeyboardView {
    if w.syncing {
        synced(w)
    } else {
        w
    }
}

/// What a mutator returns: the sync outcome when the auto-sync gate is open, plain
/// success otherwise.
pub open spec fn auto_sync_result(w: KeyboardView) -> Result<(), SyncError> {
    if w.syncing {
        sync_result(w)
    } else {
        Ok(())
    }
}

/// The state engine. It owns its driver exclusively for its whole lifetime
/// and is mutated only through its own methods.
pub struct Keyboard<D: Driver> {
    driver: D,
    state: KeyboardState,
    colors: Vec<Rgb>,
    brightness: u8,
    speed: u8,
    syncing: bool,
    power: bool,
    need_sync: bool,
}

impl<D: Driver> View for Keyboard<D> {
    type V = KeyboardView;

    closed spec fn view(&self) -> KeyboardView {
        KeyboardView {
            state: self.state,
            colors: self.colors@,
            brightness: self.brightness,
            speed: self.speed,
            syncing: self.syncing,
            power: self.power,
            need_sync: self.need_sync,
            calls: self.driver.calls(),
            modes: self.driver.modes(),
        }
    }
}

impl<D: Driver> Keyboard<D> {
    /// A fresh engine: powered off, state off, one black color, all gates
    /// closed, nothing dirty, the driver untouched.
    pub fn new(driver: D) -> (kb: Keyboard<D>)
        ensures
            kb@ == (KeyboardView {
                state: KeyboardState::KeyboardOff,
                colors: seq![Rgb { r: 0, g: 0, b: 0 }],
                brightness: 0,
                speed: 0,
                syncing: false,
                power: false,
                need_sync: false,
                calls: driver.calls(),
                modes: driver.modes(),
            }),
    {
        let mut colors: Vec<Rgb> = Vec::new();
        colors.push(Rgb::new(0, 0, 0));
        let kb = Keyboard {
            driver,
            state: KeyboardState::KeyboardOff,
            colors,
            brightness: 0,
            speed: 0,
            syncing: false,
            power: false,
            need_sync: false,
        };
        proof {
            assert(kb@.colors =~= seq![Rgb { r: 0, g: 0, b: 0 }]);
            assert(kb@ =~= (KeyboardView {
                state: KeyboardState::KeyboardOff,
                colors: seq![Rgb { r: 0, g: 0, b: 0 }],
                brightness: 0,
                speed: 0,
                syncing: false,
                power: false,
                need_sync: false,
                calls: kb@.calls,
                modes: kb@.modes,
            }));
        }
        kb
    }

    /// Push the current state to the hardware, if anything changed since
    /// the last push.
    ///
    /// A clean engine issues no driver call. Otherwise the dirty flag is
    /// cleared first; power off (or state off) short-circuits to
    /// `set_power(false)`, and each lit state issues its one lighting call.
    /// A lit state with an empty color list is the fatal empty-colors
    /// error: the dirty flag is already cleared, but no call is issued.
    pub fn sync(&mut self) -> (r: Result<(), SyncError>)
        ensures
            final(self)@ == synced(old(self)@),
            r == sync_result(old(self)@),
    {
        if !self.need_sync {
            // Do not touch the driver if nothing was updated.
            proof {
                assert(final(self)@ =~= synced(old(self)@));
            }
            return Ok(());
        }
        self.need_sync = false;
        if !self.power {
            self.driver.set_power(false);
            proof {
                assert(final(self)@ =~= synced(old(self)@));
            }
            return Ok(());
        }
        match self.state {
            KeyboardState::KeyboardOff => {
                self.driver.set_power(false);
                proof {
                    assert(final(self)@ =~= synced(old(self)@));
                }
                Ok(())
            },
            KeyboardState::KeyboardSteady => {
                if self.colors.len() == 0 {
                    proof {
                        assert(final(self)@ =~= synced(old(self)@));
                    }
                    return Err(SyncError::EmptyColors);
                }
                let first = self.colors[0];
                self.driver.set_color(&first, self.brightness);
                proof {
                    assert(final(self)@ =~= synced(old(self)@));
                }
                Ok(())
            },
            KeyboardState::KeyboardBreathing => {
                if self.colors.len() == 0 {
                    proof {
                        assert(final(self)@ =~= synced(old(self)@));
                    }
                    return Err(SyncError::EmptyColors);
                }
                self.driver.set_breathing(&self.colors, self.brightness, self.speed);
                proof {
                    assert(final(self)@ =~= synced(old(self)@));
                }
                Ok(())
            },
            KeyboardState::KeyboardColorShift => {
                if self.colors.len() == 0 {
                    proof {
                        assert(final(self)@ =~= synced(old(self)@));
                    }
                    return Err(SyncError::EmptyColors);
                }
                self.driver.set_shift(&self.colors, self.brightness, self.speed);
                proof {
                    assert(final(self)@ =~= synced(old(self)@));
                }
                Ok(())
            },
        }
    }

    /// Close the auto-sync gate. Does not sync.
    pub fn lock_sync(&mut self)
        ensures
            final(self)@ == (KeyboardView { syncing: false, ..old(self)@ }),
    {
        self.syncing = false;
    }

    /// Open the auto-sync gate. Does not sync by itself; the next mutator
    /// performs the catch-up sync.
    pub fn unlock_sync(&mut self)
        ensures
            final(self)@ == (KeyboardView { syncing: true, ..old(self)@ }),
    {
        self.syncing = true;
    }

    /// Set the lighting state, mark the engine dirty, and sync if the
    /// auto-sync gate is open.
    pub fn set_state(&mut self, state: KeyboardState) -> (r: Result<(), SyncError>)
        ensures
            final(self)@ == auto_synced(
                KeyboardView { state, need_sync: true, ..old(self)@ },
            ),
            r == auto_sync_result(KeyboardView { state, need_sync: true, ..old(self)@ }),
    {
        self.state = state;
        self.need_sync = true;
        if self.syncing {
            self.sync()
        } else {
            Ok(())
        }
    }

    /// Replace the color list with the one given color, mark the engine
    /// dirty, and sync if the auto-sync gate is open.
    pub fn set_color(&mut self, color: Rgb) -> (r: Result<(), SyncError>)
        ensures
            final(self)@ == auto_synced(
                KeyboardView { colors: seq![color], need_sync: true, ..old(self)@ },
            ),
            r == auto_sync_result(
                KeyboardView { colors: seq![color], need_sync: true, ..old(self)@ },
            ),
    {
        let mut colors: Vec<Rgb> = Vec::new();
        colors.push(color);
        self.colors = colors;
        self.need_sync = true;
        proof {
            assert(self.colors@ =~= seq![color]);
        }
        if self.syncing {
            self.sync()
        } else {
            Ok(())
        }
    }

    /// Append one color to the list, mark the engine dirty, and sync if
    /// the auto-sync gate is open.
    pub fn add_color(&mut self, color: Rgb) -> (r: Result<(), SyncError>)
        ensures
            final(self)@ == auto_synced(
                KeyboardView {
                    colors: old(self)@.colors.push(color),
                    need_sync: true,
                    ..old(self)@
                },
            ),
            r == auto_sync_result(
                KeyboardView {
                    colors: old(self)@.colors.push(color),
                    need_sync: true,
                    ..old(self)@
                },
            ),
    {
        self.colors.push(color);
        self.need_sync = true;
        if self.syncing {
            self.sync()
        } else {
            Ok(())
        }
    }

    /// Set the brightness, mark the engine dirty, and sync if the
    /// auto-sync gate is open. Brightness 0 is a valid value.
    pub fn set_brightness(&mut self, brightness: u8) -> (r: Result<(), SyncError>)
        ensures
            final(self)@ == auto_synced(
                KeyboardView { brightness, need_sync: true, ..old(self)@ },
            ),
            r == auto_sync_result(KeyboardView { brightness, need_sync: true, ..old(self)@ }),
    {
        self.brightness = brightness;
        self.need_sync = true;
        if self.syncing {
            self.sync()
        } else {
            Ok(())
        }
    }

    /// Set the animation speed, mark the engine dirty, and sync if the
    /// auto-sync gate is open.
    pub fn set_speed(&mut self, speed: u8) -> (r: Result<(), SyncError>)
        ensures
            final(self)@ == auto_synced(
                KeyboardView { speed, need_sync: true, ..old(self)@ },
            ),
            r == auto_sync_result(KeyboardView { speed, need_sync: true, ..old(self)@ }),
    {
        self.speed = speed;
        self.need_sync = true;
        if self.syncing {
            self.sync()
        } else {
            Ok(())
        }
    }

    /// Empty the color list. Does not mark the engine dirty and never
    /// syncs.
    pub fn reset_colors(&mut self)
        ensures
            final(self)@ == (KeyboardView { colors: Seq::<Rgb>::empty(), ..old(self)@ }),
    {
        self.colors = Vec::new();
        proof {
            assert(self.colors@ =~= Seq::<Rgb>::empty());
        }
    }

    /// Set the master power flag and mark the engine dirty. Unlike the
    /// other mutators this never auto-syncs, even with the auto-sync gate open.
    pub fn set_power(&mut self, power: bool)
        ensures
            final(self)@ == (KeyboardView { power, need_sync: true, ..old(self)@ }),
    {
        self.need_sync = true;
        self.power = power;
    }

    /// Flip the master power flag, mark the engine dirty, and sync
    /// unconditionally, whatever the auto-sync gate says.
    pub fn toggle_power(&mut self) -> (r: Result<(), SyncError>)
        ensures
            final(self)@ == synced(
                KeyboardView { power: !old(self)@.power, need_sync: true, ..old(self)@ },
            ),
            r == sync_result(
                KeyboardView { power: !old(self)@.power, need_sync: true, ..old(self)@ },
            ),
    {
        self.power = !self.power;
        self.need_sync = true;
        self.sync()
    }

    /// The modes the driver claims to support: a read-only passthrough.
    pub fn get_color_modes(&self) -> (r: Vec<KeyboardMode>)
        ensures
            r@ == self@.modes,
    {
        self.driver.get_modes()
    }

    /// Borrow the driver, to observe what was pushed to the hardware.
    pub fn driver(&self) -> (r: &D)
        ensures
            r.calls() == self@.calls,
            r.modes() == self@.modes,
    {
        &self.driver
    }

    /// The current lighting state.
    pub fn state(&self) -> (s: KeyboardState)
        ensures
            s == self@.state,
    {
        self.state
    }

    /// The current color list.
    pub fn colors(&self) -> (r: &Vec<Rgb>)
        ensures
            r@ == self@.colors,
    {
        &self.colors
    }

    /// The current brightness.
    pub fn brightness(&self) -> (b: u8)
        ensures
            b == self@.brightness,
    {
        self.brightness
    }

    /// The current animation speed.
    pub fn speed(&self) -> (s: u8)
        ensures
            s == self@.speed,
    {
        self.speed
    }

    /// The master power flag.
    pub fn power(&self) -> (p: bool)
        ensures
            p == self@.power,
    {
        self.power
    }

    /// Whether the auto-sync gate is open.
    pub fn syncing(&self) -> (s: bool)
        ensures
            s == self@.syncing,
    {
        self.syncing
    }

    /// Whether the in-memory state has diverged from what was last pushed
    /// to the hardware.
    pub fn need_sync(&self) -> (n: bool)
        ensures
            n == self@.need_sync,
    {
        self.need_sync
    }
}

/// Law: sync is idempotent on the driver. One sync leaves the engine
/// clean, a clean engine issues no driver call, so a second sync with no
/// mutation in between leaves the call log unchanged — and any one sync
/// issues at most one call.
pub proof fn lemma_sync_twice_at_most_one_call(v: KeyboardView)
    ensures
        sync_calls(v).len() <= 1,
        !synced(v).need_sync,
        sync_calls(synced(v)) == Seq::<DriverCall>::empty(),
        synced(synced(v)).calls == synced(v).calls,
{
    assert(synced(synced(v)).calls =~= synced(v).calls);
}

/// Law: with the auto-sync gate closed, a mutator only records its field
/// change and the dirty flag; the driver sees no call.
pub proof fn lemma_auto_sync_gate(w: KeyboardView)
    requires
        !w.syncing,
    ensures
        auto_synced(w) == w,
        auto_sync_result(w) == Ok::<(), SyncError>(()),
{
}

/// Law: with power off, a dirty sync issues exactly `set_power(false)` —
/// never a lighting call, whatever the state — and cannot fail; a clean
/// one issues nothing.
pub proof fn lemma_power_off_short_circuit(v: KeyboardView)
    requires
        !v.power,
    ensures
        sync_result(v) is Ok,
        v.need_sync ==> sync_calls(v) == seq![DriverCall::SetPower { on: false }],
        !v.need_sync ==> sync_calls(v) == Seq::<DriverCall>::empty(),
        forall|i: int|
            0 <= i < sync_calls(v).len() ==> sync_calls(v)[i] is SetPower,
{
}

/// Law: a dirty sync of a lit state with an empty color list is the fatal
/// empty-colors error, and no driver call is issued.
pub proof fn lemma_empty_colors_guard(v: KeyboardView)
    requires
        v.need_sync,
        v.power,
        !(v.state is KeyboardOff),
        v.colors.len() == 0,
    ensures
        sync_result(v) == Err::<(), SyncError>(SyncError::EmptyColors),
        sync_calls(v) == Seq::<DriverCall>::empty(),
        synced(v).calls == v.calls,
{
    assert(synced(v).calls =~= v.calls);
}

/// The byte image of a color list: three bytes per color, in order.
pub open spec fn color_bytes(cs: Seq<Rgb>) -> Seq<u8>
    decreases cs.len(),
{
    if cs.len() == 0 {
        Seq::<u8>::empty()
    } else {
        color_bytes(cs.drop_last()) + seq![cs.last().r, cs.last().g, cs.last().b]
    }
}

/// The persisted state image of an engine: brightness, speed, state code,
/// power byte, color count, then the color bytes.
pub open spec fn encoded(v: KeyboardView) -> Seq<u8> {
    seq![
        v.brightness,
        v.speed,
        KeyboardState::spec_to_u8(v.state),
        if v.power { 1u8 } else { 0u8 },
        v.colors.len() as u8,
    ] + color_bytes(v.colors)
}

pub proof fn lemma_color_bytes_len(cs: Seq<Rgb>)
    ensures
        color_bytes(cs).len() == 3 * cs.len(),
    decreases cs.len(),
{
    if cs.len() > 0 {
        lemma_color_bytes_len(cs.drop_last());
    }
}

pub proof fn lemma_color_bytes_index(cs: Seq<Rgb>, k: int)
    requires
        0 <= k < cs.len(),
    ensures
        color_bytes(cs)[3 * k] == cs[k].r,
        color_bytes(cs)[3 * k + 1] == cs[k].g,
        color_bytes(cs)[3 * k + 2] == cs[k].b,
    decreases cs.len(),
{
    lemma_color_bytes_len(cs.drop_last());
    if k < cs.len() - 1 {
        lemma_color_bytes_index(cs.drop_last(), k);
    }
}

/// Whether a byte image decodes: long enough for the five header bytes, a
/// valid state byte, and long enough for the color list it announces.
pub open spec fn decode_ok(data: Seq<u8>) -> bool {
    &&& data.len() >= 5
    &&& KeyboardState::spec_from_u8(data[2]) is Some
    &&& data.len() >= 5 + 3 * (data[4] as int)
}

/// The error a corrupt image decodes to, in the order the fields are read:
/// the state byte is only reached once the bytes before it are there.
pub open spec fn decode_err(data: Seq<u8>) -> LoadError {
    if data.len() < 3 {
        LoadError::Truncated
    } else if KeyboardState::spec_from_u8(data[2]) is None {
        LoadError::BadStateByte
    } else {
        LoadError::Truncated
    }
}

/// The first `n` colors of an image's color list.
pub open spec fn decoded_colors(data: Seq<u8>, n: int) -> Seq<Rgb>
    decreases n,
{
    if n <= 0 {
        Seq::<Rgb>::empty()
    } else {
        decoded_colors(data, n - 1).push(
            Rgb {
                r: data[5 + 3 * (n - 1)],
                g: data[5 + 3 * (n - 1) + 1],
                b: data[5 + 3 * (n - 1) + 2],
            },
        )
    }
}

/// The engine view after loading an image: the persisted fields replaced,
/// the engine marked dirty, the syncing flag and the driver untouched.
pub open spec fn decoded_view(v: KeyboardView, data: Seq<u8>) -> KeyboardView {
    KeyboardView {
        brightness: data[0],
        speed: data[1],
        state: KeyboardState::spec_from_u8(data[2]).unwrap(),
        power: data[3] != 0,
        colors: decoded_colors(data, data[4] as int),
        need_sync: true,
        ..v
    }
}

impl<D: Driver> Keyboard<D> {
    /// The persisted image of the current state, to be written to storage
    /// by the caller. The image holds at most 255 colors.
    pub fn save_state(&self) -> (buf: Vec<u8>)
        requires
            self@.colors.len() <= 255,
        ensures
            buf@ == encoded(self@),
    {
        let mut buffer: Vec<u8> = Vec::new();
        buffer.push(self.brightness);
        buffer.push(self.speed);
        buffer.push(KeyboardState::to_u8(self.state));
        if self.power {
            buffer.push(0x01);
        } else {
            buffer.push(0x00);
        }
        buffer.push(self.colors.len() as u8);
        let ghost header = buffer@;
        proof {
            assert(buffer@ =~= header + color_bytes(self@.colors.take(0)));
        }
        let mut i: usize = 0;
        while i < self.colors.len()
            invariant
                i <= self.colors.len(),
                buffer@ == header + color_bytes(self@.colors.take(i as int)),
            decreases self.colors.len() - i,
        {
            let c = self.colors[i];
            buffer.push(c.r);
            buffer.push(c.g);
            buffer.push(c.b);
            proof {
                let cs = self@.colors;
                assert(cs.take(i + 1 as int).drop_last() =~= cs.take(i as int));
                assert(buffer@ =~= header + color_bytes(cs.take(i + 1 as int)));
            }
            i = i + 1;
        }
        proof {
            assert(self@.colors.take(self@.colors.len() as int) =~= self@.colors);
            assert(buffer@ =~= encoded(self@));
        }
        buffer
    }

    /// Decode a persisted image and overwrite brightness, speed, state,
    /// power and colors with it, marking the engine dirty so the next sync
    /// pushes the loaded state to the hardware. A corrupt image — too
    /// short, or with a state byte outside the four codes — is the fatal
    /// load error and leaves the engine untouched. Bytes past the
    /// announced color list are ignored.
    pub fn load_state(&mut self, data: &Vec<u8>) -> (r: Result<(), LoadError>)
        ensures
            decode_ok(data@) ==> {
                &&& r == Ok::<(), LoadError>(())
                &&& final(self)@ == decoded_view(old(self)@, data@)
            },
            !decode_ok(data@) ==> {
                &&& r == Err::<(), LoadError>(decode_err(data@))
                &&& final(self)@ == old(self)@
            },
    {
        if data.len() < 3 {
            return Err(LoadError::Truncated);
        }
        let state = match KeyboardState::from_u8(data[2]) {
            Some(s) => s,
            None => {
                return Err(LoadError::BadStateByte);
            },
        };
        if data.len() < 5 {
            return Err(LoadError::Truncated);
        }
        let n = data[4];
        let need: usize = 5 + 3 * (n as usize);
        if data.len() < need {
            return Err(LoadError::Truncated);
        }
        let mut colors: Vec<Rgb> = Vec::new();
        let mut i: usize = 0;
        while i < n as usize
            invariant
                i <= n as usize,
                data@.len() >= 5 + 3 * (n as int),
                colors@ == decoded_colors(data@, i as int),
            decreases n as usize - i,
        {
            let base: usize = 5 + 3 * i;
            colors.push(Rgb { r: data[base], g: data[base + 1], b: data[base + 2] });
            i = i + 1;
        }
        self.brightness = data[0];
        self.speed = data[1];
        self.state = state;
        self.power = data[3] != 0;
        self.colors = colors;
        self.need_sync = true;
        proof {
            assert(self@ =~= decoded_view(old(self)@, data@));
        }
        Ok(())
    }

    /// Load the persisted image if one exists. `None` means no prior
    /// state: nothing changes and no load is reported — that is not an
    /// error. A present but corrupt image is the fatal load error.
    pub fn load_state_if_exists(&mut self, data: Option<&Vec<u8>>) -> (r: Result<bool, LoadError>)
        ensures
            match data {
                None => {
                    &&& r == Ok::<bool, LoadError>(false)
                    &&& final(self)@ == old(self)@
                },
                Some(d) => if decode_ok(d@) {
                    &&& r == Ok::<bool, LoadError>(true)
                    &&& final(self)@ == decoded_view(old(self)@, d@)
                } else {
                    &&& r == Err::<bool, LoadError>(decode_err(d@))
                    &&& final(self)@ == old(self)@
                },
            },
    {
        match data {
            None => Ok(false),
            Some(d) => match self.load_state(d) {
                Ok(()) => Ok(true),
                Err(e) => Err(e),
            },
        }
    }
}

proof fn lemma_decoded_colors_prefix(v: KeyboardView, n: int)
    requires
        v.colors.len() <= 255,
        0 <= n <= v.colors.len(),
    ensures
        decoded_colors(encoded(v), n) == v.colors.take(n),
    decreases n,
{
    lemma_color_bytes_len(v.colors);
    if n > 0 {
        lemma_decoded_colors_prefix(v, n - 1);
        lemma_color_bytes_index(v.colors, n - 1);
        assert(encoded(v)[5 + 3 * (n - 1)] == color_bytes(v.colors)[3 * (n - 1)]);
        assert(encoded(v)[5 + 3 * (n - 1) + 1] == color_bytes(v.colors)[3 * (n - 1) + 1]);
        assert(encoded(v)[5 + 3 * (n - 1) + 2] == color_bytes(v.colors)[3 * (n - 1) + 2]);
        assert(v.colors.take(n) =~= v.colors.take(n - 1).push(v.colors[n - 1]));
    } else {
        assert(decoded_colors(encoded(v), 0) =~= v.colors.take(0));
    }
}

/// Law: saving and loading round-trip. The image of any engine state with
/// at most 255 colors decodes, and decoding it into any engine restores
/// brightness, speed, state, power and the color list, order preserved,
/// marks the loading engine dirty, and leaves its syncing flag and driver alone.
pub proof fn lemma_save_load_round_trip(v: KeyboardView, w: KeyboardView)
    requires
        v.colors.len() <= 255,
    ensures
        decode_ok(encoded(v)),
        decoded_view(w, encoded(v)) == (KeyboardView {
            brightness: v.brightness,
            speed: v.speed,
            state: v.state,
            power: v.power,
            colors: v.colors,
            need_sync: true,
            ..w
        }),
{
    let data = encoded(v);
    lemma_color_bytes_len(v.colors);
    lemma_state_code_round_trip(v.state, 0);
    assert(data[4] == v.colors.len() as u8);
    lemma_decoded_colors_prefix(v, v.colors.len() as int);
    assert(v.colors.take(v.colors.len() as int) =~= v.colors);
    assert(decoded_view(w, data) =~= (KeyboardView {
        brightness: v.brightness,
        speed: v.speed,
        state: v.state,
        power: v.power,
        colors: v.colors,
        need_sync: true,
        ..w
    }));
}

} // verus!
