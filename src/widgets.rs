use vstd::prelude::*;

verus! {

/// What a multi-flag switch shows.
#[derive(Clone, Copy, Debug, PartialEq, Eq, Structural)]
pub enum FlagState {
    On,
    Off,
    Mixed,
}

pub open spec fn all_read(reads: Seq<Option<bool>>, v: bool) -> bool {
    forall|i: int| 0 <= i < reads.len() ==> #[trigger] reads[i] == Some(v)
}

/// The state shown for flags read back together: on or off only when every
/// read succeeded and they agree; mixed otherwise.
pub open spec fn multi_state_spec(reads: Seq<Option<bool>>) -> FlagState {
    if reads.len() > 0 && all_read(reads, true) {
        FlagState::On
    } else if reads.len() > 0 && all_read(reads, false) {
        FlagState::Off
    } else {
        FlagState::Mixed
    }
}

pub fn multi_flag_state(reads: &Vec<Option<bool>>) -> (r: FlagState)
    ensures
        r == multi_state_spec(reads@),
{
    if reads.len() == 0 {
        return FlagState::Mixed;
    }
    let mut all_on = true;
    let mut all_off = true;
    let mut i: usize = 0;
    while i < reads.len()
        invariant
            i <= reads@.len(),
            all_on == (forall|j: int| 0 <= j < i ==> #[trigger] reads@[j] == Some(true)),
            all_off == (forall|j: int| 0 <= j < i ==> #[trigger] reads@[j] == Some(false)),
        decreases reads@.len() - i,
    {
        match reads[i] {
            Some(true) => {
                all_off = false;
            },
            Some(false) => {
                all_on = false;
            },
            None => {
                all_on = false;
                all_off = false;
            },
        }
        i = i + 1;
    }
    if all_on {
        FlagState::On
    } else if all_off {
        FlagState::Off
    } else {
        FlagState::Mixed
    }
}

/// The value written to every flag of a multi-flag switch when it is toggled:
/// off when all are on, on otherwise.
pub fn multi_flag_target(state: FlagState) -> (r: bool)
    ensures
        r == (state != FlagState::On),
{
    match state {
        FlagState::On => false,
        _ => true,
    }
}

/// The value a single flag toggle writes: the opposite of what was read, or
/// nothing when the read failed.
pub fn flag_toggle_target(read: Option<bool>) -> (r: Option<bool>)
    ensures
        match read {
            Some(v) => r == Some(!v),
            None => r is None,
        },
{
    match read {
        Some(v) => Some(!v),
        None => None,
    }
}

/// The saved position of a save/teleport command.
pub struct PositionSlot<T> {
    pub saved: Option<T>,
}

impl<T: Copy> PositionSlot<T> {
    pub fn new() -> (r: PositionSlot<T>)
        ensures
            r.saved is None,
    {
        PositionSlot { saved: None }
    }

    /// Captures the current position; a failed read keeps what was saved.
    pub fn save(&mut self, current: Option<T>)
        ensures
            final(self).saved == (if current is Some { current } else { old(self).saved }),
    {
        if current.is_some() {
            self.saved = current;
        }
    }

    /// The position to write back on load: none if nothing was ever captured
    /// or if the current position cannot be read.
    pub fn load(&self, current_readable: bool) -> (r: Option<T>)
        ensures
            r == (if current_readable { self.saved } else { None }),
    {
        if current_readable {
            self.saved
        } else {
            None
        }
    }
}

} // verus!
