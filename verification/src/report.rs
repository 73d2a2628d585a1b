//! Keyboard input reports and the press/release pairing of keystrokes.
//!
//! A keystroke reaches the host as two reports: one with the key down, then
//! one with nothing down. Reports leave in the order of the keystrokes, one
//! at a time.

use vstd::prelude::*;

use crate::keystroke::{
    closing_chord, digit_keystrokes, keystroke_sequence, keystrokes, opening_chord, Keystroke,
};
use crate::tag::TagIdentifier;

verus! {

/// A boot-protocol keyboard input report: the momentary state of the keys.
/// On the wire it is eight bytes: modifier, reserved, six keycodes.
#[derive(Clone, Copy, Debug, PartialEq, Eq)]
pub struct HidReport {
    pub modifier: u8,
    pub reserved: u8,
    pub keycodes: [u8; 6],
}

/// The report that holds one key down, alone, with the given modifier bits.
pub open spec fn press_report(keycode: u8, modifier: u8) -> HidReport {
    HidReport { modifier, reserved: 0, keycodes: [keycode, 0, 0, 0, 0, 0] }
}

/// The report with no key and no modifier down.
pub open spec fn release_report() -> HidReport {
    press_report(0, 0)
}

/// The two reports of one keystroke.
pub open spec fn keypress_pair(keycode: u8, modifier: u8) -> Seq<HidReport> {
    seq![press_report(keycode, modifier), release_report()]
}

/// The reports of a keystroke sequence: at each even position the press of
/// the next keystroke, at each odd position a release.
pub open spec fn report_sequence(keys: Seq<Keystroke>) -> Seq<HidReport> {
    Seq::new(
        2 * keys.len(),
        |j: int|
            if j % 2 == 0 {
                press_report(keys[j / 2].keycode, keys[j / 2].modifier)
            } else {
                release_report()
            },
    )
}

/// Everything that one detection emits.
pub open spec fn emitted_reports(bytes: Seq<u8>, hotkey: bool) -> Seq<HidReport> {
    report_sequence(keystroke_sequence(bytes, hotkey))
}

impl HidReport {
    /// Builds the report for a single key held down.
    pub fn press(keycode: u8, modifier: u8) -> (r: HidReport)
        ensures
            r == press_report(keycode, modifier),
    {
        HidReport { modifier, reserved: 0, keycodes: [keycode, 0, 0, 0, 0, 0] }
    }

    /// Builds the report that releases every key.
    pub fn release() -> (r: HidReport)
        ensures
            r == release_report(),
    {
        HidReport::press(0, 0)
    }
}

/// The press and the release for one keystroke, in sending order.
pub fn keypress_reports(keycode: u8, modifier: u8) -> (pair: [HidReport; 2])
    ensures
        pair@ == keypress_pair(keycode, modifier),
{
    let pair = [HidReport::press(keycode, modifier), HidReport::release()];
    assert(pair@ =~= keypress_pair(keycode, modifier));
    pair
}

/// Expands keystrokes into the reports to send, in sending order.
pub fn reports_for(keys: &[Keystroke]) -> (reports: Vec<HidReport>)
    ensures
        reports@ == report_sequence(keys@),
{
    let mut reports: Vec<HidReport> = Vec::new();
    let mut i: usize = 0;
    while i < keys.len()
        invariant
            i <= keys@.len(),
            reports@.len() == 2 * i,
            forall|j: int| 0 <= j < 2 * i ==> reports@[j] == report_sequence(keys@)[j],
        decreases keys@.len() - i,
    {
        let pair = keypress_reports(keys[i].keycode, keys[i].modifier);
        reports.push(pair[0]);
        reports.push(pair[1]);
        i += 1;
    }
    assert(reports@ =~= report_sequence(keys@));
    reports
}

/// The reports for one detected tag, in sending order. `hotkey` is the mode
/// input as sampled at detection.
pub fn emission(id: &TagIdentifier, hotkey: bool) -> (reports: Vec<HidReport>)
    ensures
        reports@ == emitted_reports(id@, hotkey),
{
    let keys = keystrokes(id, hotkey);
    reports_for(keys.as_slice())
}

/// A press is never followed by another press: a report sequence holds a
/// press at every even position and a release at every odd one, so it ends
/// with a release.
pub proof fn lemma_presses_are_released(keys: Seq<Keystroke>)
    ensures
        report_sequence(keys).len() == 2 * keys.len(),
        forall|j: int|
            0 <= j < 2 * keys.len() && j % 2 == 1 ==> #[trigger] report_sequence(keys)[j]
                == release_report(),
        forall|i: int|
            0 <= i < keys.len() ==> report_sequence(keys)[2 * i] == press_report(
                (#[trigger] keys[i]).keycode,
                keys[i].modifier,
            ),
{
    assert forall|i: int| 0 <= i < keys.len() implies report_sequence(keys)[2 * i] == press_report(
        (#[trigger] keys[i]).keycode,
        keys[i].modifier,
    ) by {
        assert((2 * i) / 2 == i);
    }
}

/// Without the wrap, an identifier of `n` bytes emits `4 * n` reports: for
/// each character of its text the press of that character's key without
/// modifier, then a release.
pub proof fn lemma_plain_emission(bytes: Seq<u8>)
    ensures
        emitted_reports(bytes, false).len() == 4 * bytes.len(),
        forall|i: int|
            0 <= i < 2 * bytes.len() ==> emitted_reports(bytes, false)[2 * i] == press_report(
                (#[trigger] digit_keystrokes(bytes)[i]).keycode,
                0,
            ) && emitted_reports(bytes, false)[2 * i + 1] == release_report(),
{
    assert forall|i: int| 0 <= i < 2 * bytes.len() implies emitted_reports(bytes, false)[2 * i]
        == press_report((#[trigger] digit_keystrokes(bytes)[i]).keycode, 0) && emitted_reports(
        bytes,
        false,
    )[2 * i + 1] == release_report() by {
        assert((2 * i) / 2 == i);
    }
}

/// With the wrap, an identifier of `n` bytes emits `4 * n + 4` reports: the
/// opening chord and its release, then for each character of its text a
/// press without modifier and a release, then the closing chord and its
/// release.
pub proof fn lemma_wrapped_emission(bytes: Seq<u8>)
    ensures
        emitted_reports(bytes, true).len() == 4 * bytes.len() + 4,
        emitted_reports(bytes, true)[0] == press_report(24, 7),
        emitted_reports(bytes, true)[1] == release_report(),
        forall|i: int|
            0 <= i < 2 * bytes.len() ==> emitted_reports(bytes, true)[2 + 2 * i] == press_report(
                (#[trigger] digit_keystrokes(bytes)[i]).keycode,
                0,
            ) && emitted_reports(bytes, true)[3 + 2 * i] == release_report(),
        emitted_reports(bytes, true)[4 * bytes.len() as int + 2] == press_report(7, 7),
        emitted_reports(bytes, true)[4 * bytes.len() as int + 3] == release_report(),
{
    let keys = keystroke_sequence(bytes, true);
    let n = bytes.len() as int;
    assert(keys.len() == 2 * n + 2);
    assert(keys[0] == opening_chord());
    assert(keys[2 * n + 1] == closing_chord());
    assert((4 * n + 2) / 2 == 2 * n + 1);
    assert forall|i: int| 0 <= i < 2 * n implies emitted_reports(bytes, true)[2 + 2 * i]
        == press_report((#[trigger] digit_keystrokes(bytes)[i]).keycode, 0) && emitted_reports(
        bytes,
        true,
    )[3 + 2 * i] == release_report() by {
        assert(keys[i + 1] == digit_keystrokes(bytes)[i]);
        assert((2 + 2 * i) / 2 == i + 1);
    }
}

} // verus!
