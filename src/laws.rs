//! Facts about reading status lines and choosing what to show.
use vstd::prelude::*;
use crate::status::{
    bracket_segment, contains, digits_of, digits_value, off_token, on_token, status_of,
    ParseErrorKind, StatusReading,
};
use crate::volume::{
    icon_for, icon_index, level_icon, state_after, text_fits, VolumeState, LEVEL_ICON_COUNT,
    ZERO_ICON,
};

verus! {

/// A line whose part from the first `[` holds `on`, and whose digits there
/// form a valid `i32`, leaves the block unmuted at the value of those digits.
pub proof fn unmuted_line_sets_volume(s: VolumeState, line: Seq<char>)
    requires
        bracket_segment(line) is Some,
        contains(bracket_segment(line)->0, on_token()),
        digits_of(bracket_segment(line)->0).len() > 0,
        digits_value(digits_of(bracket_segment(line)->0)) <= i32::MAX,
    ensures
        state_after(s, line) == (VolumeState {
            current_volume: digits_value(digits_of(bracket_segment(line)->0)) as int,
            muted: false,
        }),
{
}

/// A line whose part from the first `[` holds `off` but not `on` mutes the
/// block and keeps its volume.
pub proof fn muted_line_keeps_volume(s: VolumeState, line: Seq<char>)
    requires
        bracket_segment(line) is Some,
        contains(bracket_segment(line)->0, off_token()),
        !contains(bracket_segment(line)->0, on_token()),
    ensures
        state_after(s, line) == (VolumeState { current_volume: s.current_volume, muted: true }),
{
}

/// Reading the same line a second time changes nothing more.
pub proof fn reading_twice_is_reading_once(s: VolumeState, line: Seq<char>)
    ensures
        state_after(state_after(s, line), line) == state_after(s, line),
{
}

/// Among unmuted states above zero, a higher volume never picks an earlier
/// level icon.
pub proof fn level_icon_is_monotonic(v1: int, v2: int)
    requires
        0 < v1 <= v2,
    ensures
        icon_index(v1) <= icon_index(v2),
        icon_for(VolumeState { current_volume: v1, muted: false }) == level_icon(icon_index(v1)),
        icon_for(VolumeState { current_volume: v2, muted: false }) == level_icon(icon_index(v2)),
{
    assert(v1 * 3 / 100 <= v2 * 3 / 100) by (nonlinear_arith)
        requires
            0 < v1 <= v2,
    ;
}

/// At volume zero the zero icon and the text `Muted` are shown, muted or not.
pub proof fn zero_volume_shows_muted(muted: bool, t: Seq<char>)
    ensures
        icon_for(VolumeState { current_volume: 0, muted }) == ZERO_ICON,
        text_fits(VolumeState { current_volume: 0, muted }, t) <==> t == "Muted"@,
{
}

/// Unmuted at volume 100, the last level icon is shown.
pub proof fn full_volume_shows_last_icon()
    ensures
        icon_for(VolumeState { current_volume: 100, muted: false }) == level_icon(
            LEVEL_ICON_COUNT - 1,
        ),
{
}

/// A line without `[` is rejected as malformed.
pub proof fn line_without_bracket_is_malformed(line: Seq<char>)
    requires
        forall|i: int| 0 <= i < line.len() ==> line[i] != '[',
    ensures
        status_of(line) == Err::<StatusReading, ParseErrorKind>(ParseErrorKind::MalformedOutput),
    decreases line.len(),
{
    if line.len() > 0 {
        line_without_bracket_is_malformed(line.drop_first());
    }
}

/// A line whose part from the first `[` holds neither `on` nor `off` is
/// rejected: its mute state is ambiguous.
pub proof fn line_without_mute_token_is_ambiguous(line: Seq<char>)
    requires
        bracket_segment(line) is Some,
        !contains(bracket_segment(line)->0, on_token()),
        !contains(bracket_segment(line)->0, off_token()),
    ensures
        status_of(line) == Err::<StatusReading, ParseErrorKind>(
            ParseErrorKind::AmbiguousMuteState,
        ),
{
}

} // verus!
