//! The text service inside applications: the modifier mask it sends with a
//! key, and its activation state.
use vstd::prelude::*;
use crate::com::HR_INVALID_FUNCTION;

verus! {

/// librime's modifier bit for Shift (`kShiftMask`).
pub const RIME_SHIFT: u32 = 1;
/// librime's modifier bit for Control (`kControlMask`, `1 << 2`).
pub const RIME_CTRL: u32 = 4;
/// librime's modifier bit for Alt (`kAltMask`, `1 << 3`).
pub const RIME_ALT: u32 = 8;
/// librime's modifier bit for either Windows key (`kSuperMask`, `1 << 26`).
pub const RIME_WIN: u32 = 0x400_0000;

/// Whether an asynchronous key state says the key is down: its most
/// significant bit is set, i.e. the state is negative.
pub open spec fn key_down(state: i16) -> bool {
    state < 0
}

/// The bit for one modifier.
pub open spec fn bit_if(down: bool, bit: u32) -> u32 {
    if down { bit } else { 0 }
}

/// The librime modifier mask for the states of Shift, Control, Alt and the
/// two Windows keys.
pub open spec fn modifier_mask_of(shift: i16, control: i16, alt: i16, left_win: i16, right_win: i16) -> u32 {
    (bit_if(key_down(shift), RIME_SHIFT) + bit_if(key_down(control), RIME_CTRL) + bit_if(
        key_down(alt),
        RIME_ALT,
    ) + bit_if(key_down(left_win) || key_down(right_win), RIME_WIN)) as u32
}

/// The librime modifier mask sent with a key, from the asynchronous states
/// of the modifier keys (see `modifier_mask_of`).
pub fn modifier_mask(shift: i16, control: i16, alt: i16, left_win: i16, right_win: i16) -> (mask: u32)
    ensures
        mask == modifier_mask_of(shift, control, alt, left_win, right_win),
{
    let mut mask: u32 = 0;
    let s = (shift as i32) & 0x8000 != 0;
    let c = (control as i32) & 0x8000 != 0;
    let a = (alt as i32) & 0x8000 != 0;
    let w = ((left_win as i32) | (right_win as i32)) & 0x8000 != 0;
    proof {
        assert(s == (shift < 0)) by (bit_vector)
            requires
                s == ((shift as i32) & 0x8000 != 0),
        ;
        assert(c == (control < 0)) by (bit_vector)
            requires
                c == ((control as i32) & 0x8000 != 0),
        ;
        assert(a == (alt < 0)) by (bit_vector)
            requires
                a == ((alt as i32) & 0x8000 != 0),
        ;
        assert(w == (left_win < 0 || right_win < 0)) by (bit_vector)
            requires
                w == (((left_win as i32) | (right_win as i32)) & 0x8000 != 0),
        ;
    }
    if s {
        mask = mask | RIME_SHIFT;
    }
    assert(mask == bit_if(s, 1)) by (bit_vector)
        requires
            mask == if s { 0u32 | 1u32 } else { 0u32 },
    ;
    if c {
        let m = mask;
        mask = mask | RIME_CTRL;
        assert(mask == m + 4) by (bit_vector)
            requires
                m < 2,
                mask == m | 4u32,
        ;
    }
    if a {
        let m = mask;
        mask = mask | RIME_ALT;
        assert(mask == m + 8) by (bit_vector)
            requires
                m < 8,
                mask == m | 8u32,
        ;
    }
    if w {
        let m = mask;
        mask = mask | RIME_WIN;
        assert(mask == m + 0x400_0000) by (bit_vector)
            requires
                m < 16,
                mask == m | 0x400_0000u32,
        ;
    }
    mask
}

/// The activation state of the text service in one application thread.
pub struct LexiTextService {
    client_id: u32,
    thread_manager: bool,
    active: bool,
    key_sink: Option<u32>,
}

/// The value of a `LexiTextService`: client id, whether a thread manager is
/// held, whether active, and the cookie of the installed key sink (`None`
/// when no sink is installed).
pub struct LexiTextServiceView {
    pub client_id: u32,
    pub thread_manager: bool,
    pub active: bool,
    pub key_sink: Option<u32>,
}

impl View for LexiTextService {
    type V = LexiTextServiceView;

    closed spec fn view(&self) -> LexiTextServiceView {
        LexiTextServiceView {
            client_id: self.client_id,
            thread_manager: self.thread_manager,
            active: self.active,
            key_sink: self.key_sink,
        }
    }
}

impl LexiTextService {
    /// A text service not yet activated.
    pub fn new() -> (t: LexiTextService)
        ensures
            t@ == (LexiTextServiceView {
                client_id: 0,
                thread_manager: false,
                active: false,
                key_sink: None,
            }),
    {
        LexiTextService { client_id: 0, thread_manager: false, active: false, key_sink: None }
    }

    /// `Activate`: without a thread manager it fails and nothing changes;
    /// otherwise it records the client id and becomes active, and the key
    /// sink is to be installed (`Ok(true)`) unless it already is.
    pub fn activate(&mut self, has_thread_manager: bool, client_id: u32) -> (r: Result<bool, i32>)
        ensures
            !has_thread_manager ==> r == Err::<bool, i32>(HR_INVALID_FUNCTION) && final(self)@
                == old(self)@,
            has_thread_manager ==> r == Ok::<bool, i32>(old(self)@.key_sink is None)
                && final(self)@ == (LexiTextServiceView {
                client_id,
                thread_manager: true,
                active: true,
                ..old(self)@
            }),
    {
        if !has_thread_manager {
            return Err(HR_INVALID_FUNCTION);
        }
        self.client_id = client_id;
        self.thread_manager = true;
        self.active = true;
        Ok(self.key_sink.is_none())
    }

    /// The key sink was advised successfully, under `cookie`.
    pub fn sink_installed(&mut self, cookie: u32)
        ensures
            final(self)@ == (LexiTextServiceView { key_sink: Some(cookie), ..old(self)@ }),
    {
        self.key_sink = Some(cookie);
    }

    /// `Deactivate`: when a thread manager is held and a key sink is
    /// installed, the sink is to be unadvised with the cookie returned here,
    /// after which it counts as removed; otherwise nothing is to be unadvised.
    /// The service becomes inactive.
    pub fn deactivate(&mut self) -> (unadvise: Option<u32>)
        ensures
            unadvise == (if old(self)@.thread_manager { old(self)@.key_sink } else { None }),
            final(self)@ == (LexiTextServiceView {
                active: false,
                key_sink: if unadvise is Some { None } else { old(self)@.key_sink },
                ..old(self)@
            }),
    {
        let unadvise = if self.thread_manager { self.key_sink } else { None };
        if unadvise.is_some() {
            self.key_sink = None;
        }
        self.active = false;
        unadvise
    }

    /// Whether the service is active.
    pub fn is_active(&self) -> (r: bool)
        ensures
            r == self@.active,
    {
        self.active
    }
}

} // verus!
