//! The volume block: its state, how a status line updates it, and how it is shown.
use vstd::prelude::*;
use crate::status::{
    digits_value, error_message_fits, is_digit, parse_status_line, status_of, ParseErrorKind,
    StatusReading,
};

verus! {

/// Shown at volume zero, muted or not.
pub const ZERO_ICON: char = '\u{F0E08}';

/// Shown when muted at a volume above zero.
pub const MUTE_ICON: char = '\u{F0581}';

/// The level icon for the lowest third of volumes.
pub const LOW_ICON: char = '\u{F057F}';

/// The level icon for the middle third of volumes.
pub const MEDIUM_ICON: char = '\u{F0580}';

/// The level icon for the upper third of volumes and above.
pub const HIGH_ICON: char = '\u{F057E}';

/// How many level icons there are.
pub const LEVEL_ICON_COUNT: usize = 3;

/// The block's name towards the host.
pub const BLOCK_NAME: &'static str = "volume";

/// The model of the block's state.
pub struct VolumeState {
    pub current_volume: int,
    pub muted: bool,
}

/// How urgently a block asks for the user's attention.
#[derive(PartialEq, Eq, Structural, Debug, Clone, Copy)]
pub enum Attention {
    Dim,
    Normal,
    Warning,
    Critical,
}

/// What a block shows: an icon, a main text, an optional second text, and
/// an attention level.
#[derive(Debug, Clone)]
pub struct NiceOutput {
    pub icon: char,
    pub primary_text: String,
    pub secondary_text: Option<String>,
    pub attention: Attention,
}

/// An error from updating a block, naming the block.
#[derive(Debug, Clone)]
pub struct UpdateError {
    pub block_name: String,
    pub kind: ParseErrorKind,
    pub message: String,
}

/// The block's mutable state: the last parsed volume percentage and mute flag.
pub struct VolumeBlock {
    current_volume: i32,
    muted: bool,
}

impl View for VolumeBlock {
    type V = VolumeState;

    closed spec fn view(&self) -> VolumeState {
        VolumeState { current_volume: self.current_volume as int, muted: self.muted }
    }
}

impl Default for VolumeBlock {
    fn default() -> (r: Self)
        ensures
            r@ == (VolumeState { current_volume: 0, muted: false }),
            r.wf(),
    {
        VolumeBlock::new()
    }
}

/// The level icon at position `i`, lowest first.
pub open spec fn level_icon(i: int) -> char {
    if i == 0 {
        LOW_ICON
    } else if i == 1 {
        MEDIUM_ICON
    } else {
        HIGH_ICON
    }
}

/// The level icon's position for an unmuted volume: equal bins over
/// `[0, 100]`, with 100 and above in the last.
pub open spec fn icon_index(volume: int) -> int {
    let i = volume * LEVEL_ICON_COUNT / 100;
    if i < LEVEL_ICON_COUNT - 1 {
        i
    } else {
        LEVEL_ICON_COUNT - 1
    }
}

pub open spec fn icon_for(s: VolumeState) -> char {
    if s.current_volume == 0 {
        ZERO_ICON
    } else if s.muted {
        MUTE_ICON
    } else {
        level_icon(icon_index(s.current_volume))
    }
}

/// `d` is the decimal notation of `n`, without leading zeros.
pub open spec fn is_decimal_of(d: Seq<char>, n: nat) -> bool {
    &&& d.len() > 0
    &&& forall|i: int| 0 <= i < d.len() ==> is_digit(#[trigger] d[i])
    &&& digits_value(d) == n
    &&& d[0] == '0' ==> d.len() == 1
}

/// `t` is the decimal notation of `n` followed by `%`.
pub open spec fn is_percent_text(t: Seq<char>, n: int) -> bool {
    exists|d: Seq<char>| is_decimal_of(d, n as nat) && t == d + seq!['%']
}

/// `t` is the main text for state `s`: `Muted`, or the percentage and `%`.
pub open spec fn text_fits(s: VolumeState, t: Seq<char>) -> bool {
    if s.muted || s.current_volume == 0 {
        t == "Muted"@
    } else {
        is_percent_text(t, s.current_volume)
    }
}

/// The state after a successful reading of a status line.
pub open spec fn apply_reading(s: VolumeState, reading: StatusReading) -> VolumeState {
    match reading {
        StatusReading::Unmuted(p) => VolumeState { current_volume: p as int, muted: false },
        StatusReading::Muted => VolumeState { current_volume: s.current_volume, muted: true },
    }
}

/// The state after reading `line`: unchanged when the line is rejected.
pub open spec fn state_after(s: VolumeState, line: Seq<char>) -> VolumeState {
    match status_of(line) {
        Ok(reading) => apply_reading(s, reading),
        Err(_) => s,
    }
}

/// Relies on `i32::to_string` through its `Display`: a non-negative value is
/// written in decimal, without sign or leading zeros.
#[verifier::external_body]
fn decimal_text(v: i32) -> (r: String)
    requires
        v >= 0,
    ensures
        is_decimal_of(r@, v as nat),
{
    v.to_string()
}

/// A non-negative percentage in decimal, followed by `%`.
fn percent_text(v: i32) -> (r: String)
    requires
        v >= 0,
    ensures
        is_percent_text(r@, v as int),
{
    let mut t = decimal_text(v);
    let ghost d = t@;
    t.append("%");
    proof {
        reveal_strlit("%");
        assert(t@ =~= d + seq!['%']);
    }
    t
}

impl VolumeBlock {
    pub open spec fn wf(&self) -> bool {
        self@.current_volume >= 0
    }

    /// Returns a new block with volume zero and not muted.
    pub fn new() -> (r: Self)
        ensures
            r@ == (VolumeState { current_volume: 0, muted: false }),
            r.wf(),
    {
        VolumeBlock { current_volume: 0, muted: false }
    }

    /// Reads one status line of the mixer into the block's state.
    ///
    /// On success the mute flag is set from the line, and the volume too when
    /// the line is unmuted; a muted line keeps the volume. On error the state
    /// is unchanged and the error names this block.
    pub fn update_current_volume(&mut self, info: &str) -> (r: Result<(), UpdateError>)
        requires
            old(self).wf(),
        ensures
            final(self).wf(),
            final(self)@ == state_after(old(self)@, info@),
            r is Ok <==> status_of(info@) is Ok,
            r is Err ==> {
                &&& status_of(info@) == Err::<StatusReading, ParseErrorKind>(r->Err_0.kind)
                &&& r->Err_0.block_name@ == BLOCK_NAME@
                &&& error_message_fits(r->Err_0.kind, info@, r->Err_0.message@)
            },
    {
        match parse_status_line(info) {
            Ok(StatusReading::Unmuted(p)) => {
                self.current_volume = p;
                self.muted = false;
                Ok(())
            },
            Ok(StatusReading::Muted) => {
                self.muted = true;
                Ok(())
            },
            Err(e) => Err(
                UpdateError {
                    block_name: String::from_str(BLOCK_NAME),
                    kind: e.kind,
                    message: e.message,
                },
            ),
        }
    }

    /// The last volume percentage read.
    pub fn current_volume(&self) -> (r: i32)
        ensures
            r == self@.current_volume,
    {
        self.current_volume
    }

    /// Whether the last reading found the channel muted.
    pub fn is_muted(&self) -> (r: bool)
        ensures
            r == self@.muted,
    {
        self.muted
    }

    /// The icon for the current state.
    pub fn get_icon(&self) -> (r: char)
        requires
            self.wf(),
        ensures
            r == icon_for(self@),
    {
        if self.current_volume == 0 {
            ZERO_ICON
        } else if self.muted {
            MUTE_ICON
        } else {
            let v: u64 = self.current_volume as u64;
            let n: u64 = LEVEL_ICON_COUNT as u64;
            assert(v * n <= 3 * 0x8000_0000) by (nonlinear_arith)
                requires
                    v <= 0x8000_0000,
                    n == 3,
            ;
            let i: u64 = v * n / 100;
            if i == 0 {
                LOW_ICON
            } else if i == 1 {
                MEDIUM_ICON
            } else {
                HIGH_ICON
            }
        }
    }

    /// The block's name.
    pub fn name(&self) -> (r: &'static str)
        ensures
            r@ == BLOCK_NAME@,
    {
        BLOCK_NAME
    }

    /// What the block shows for its current state; always present.
    pub fn output(&self) -> (r: Option<NiceOutput>)
        requires
            self.wf(),
        ensures
            r is Some,
            r->0.icon == icon_for(self@),
            text_fits(self@, r->0.primary_text@),
            r->0.secondary_text is None,
            r->0.attention == Attention::Dim,
    {
        let primary_text = if self.muted || self.current_volume == 0 {
            String::from_str("Muted")
        } else {
            percent_text(self.current_volume)
        };
        Some(
            NiceOutput {
                icon: self.get_icon(),
                primary_text,
                secondary_text: None,
                attention: Attention::Dim,
            },
        )
    }
}

} // verus!
