//! Choosing a wallpaper backend by probing for the programs it needs.
//!
//! Detection tries programs in a fixed order, asking each for its version;
//! the first one that answers successfully selects its backend, and feh is
//! chosen when none does. [`detect`] takes the outcomes of the probes run so
//! far and says which probe to run next or which backend was detected.

use vstd::prelude::*;
use super::Backend;
use crate::text::owned;

verus! {

/// How many programs detection probes.
pub const PROBE_COUNT: usize = 8;

/// The program probed at position `i`.
pub open spec fn probe_program(i: int) -> Seq<char> {
    if i == 0 {
        "swaymsg"@
    } else if i == 1 {
        "hyprctl"@
    } else if i == 2 {
        "aww"@
    } else if i == 3 {
        "gsettings"@
    } else if i == 4 {
        "qdbus"@
    } else if i == 5 {
        "xfconf-query"@
    } else if i == 6 {
        "nitrogen"@
    } else {
        "feh"@
    }
}

/// The argument passed to the program probed at position `i`.
pub open spec fn probe_argument(i: int) -> Seq<char> {
    if i == 1 {
        "version"@
    } else {
        "--version"@
    }
}

/// The backend selected when the program at position `i` answers.
pub open spec fn probe_backend(i: int) -> Backend {
    if i == 0 {
        Backend::Sway
    } else if i == 1 {
        Backend::Hyprland
    } else if i == 2 {
        Backend::Aww
    } else if i == 3 {
        Backend::Gnome
    } else if i == 4 {
        Backend::Kde
    } else if i == 5 {
        Backend::Xfce
    } else if i == 6 {
        Backend::Nitrogen
    } else {
        Backend::Feh
    }
}

/// What detection does next.
#[derive(Debug, Clone, Copy, PartialEq, Eq, Structural)]
pub enum Detection {
    /// Run the probe at this position and report whether it succeeded.
    Probe(usize),
    /// Detection is over.
    Detected(Backend),
}

/// The first position below `end` whose probe succeeded.
pub open spec fn first_success(probed: Seq<bool>, end: int) -> Option<int>
    decreases end,
{
    if end <= 0 {
        None
    } else {
        match first_success(probed, end - 1) {
            Some(j) => Some(j),
            None => if probed[end - 1] {
                Some(end - 1)
            } else {
                None
            },
        }
    }
}

/// The decision after the probes `probed` (the outcome of probe `i` at
/// position `i`): the backend of the first probe that succeeded; otherwise the
/// next probe; feh once every probe failed.
pub open spec fn detection(probed: Seq<bool>) -> Detection {
    let end = if probed.len() < PROBE_COUNT {
        probed.len() as int
    } else {
        PROBE_COUNT as int
    };
    match first_success(probed, end) {
        Some(j) => Detection::Detected(probe_backend(j)),
        None => if probed.len() < PROBE_COUNT {
            Detection::Probe(probed.len() as usize)
        } else {
            Detection::Detected(Backend::Feh)
        },
    }
}

/// The program and argument of the probe at position `index`.
pub fn probe_command(index: usize) -> (r: (String, String))
    requires
        index < PROBE_COUNT,
    ensures
        r.0@ == probe_program(index as int),
        r.1@ == probe_argument(index as int),
{
    let program = if index == 0 {
        "swaymsg"
    } else if index == 1 {
        "hyprctl"
    } else if index == 2 {
        "aww"
    } else if index == 3 {
        "gsettings"
    } else if index == 4 {
        "qdbus"
    } else if index == 5 {
        "xfconf-query"
    } else if index == 6 {
        "nitrogen"
    } else {
        "feh"
    };
    let argument = if index == 1 {
        "version"
    } else {
        "--version"
    };
    (owned(program), owned(argument))
}

/// The backend of the probe at position `index`.
fn backend_of_probe(index: usize) -> (b: Backend)
    ensures
        b == probe_backend(index as int),
{
    if index == 0 {
        Backend::Sway
    } else if index == 1 {
        Backend::Hyprland
    } else if index == 2 {
        Backend::Aww
    } else if index == 3 {
        Backend::Gnome
    } else if index == 4 {
        Backend::Kde
    } else if index == 5 {
        Backend::Xfce
    } else if index == 6 {
        Backend::Nitrogen
    } else {
        Backend::Feh
    }
}

/// Decides the next detection step from the outcomes of the probes run so
/// far, in order.
pub fn detect(probed: &[bool]) -> (r: Detection)
    ensures
        r == detection(probed@),
{
    let end: usize = if probed.len() < PROBE_COUNT {
        probed.len()
    } else {
        PROBE_COUNT
    };
    let mut i: usize = 0;
    while i < end
        invariant
            i <= end <= probed.len(),
            end <= PROBE_COUNT,
            end == (if probed.len() < PROBE_COUNT {
                probed.len()
            } else {
                PROBE_COUNT
            }),
            first_success(probed@, i as int) is None,
        decreases end - i,
    {
        if probed[i] {
            assert(first_success(probed@, i + 1) == Some(i as int));
            proof {
                lemma_first_success_stable(probed@, i + 1, end as int);
            }
            return Detection::Detected(backend_of_probe(i));
        }
        i = i + 1;
    }
    if probed.len() < PROBE_COUNT {
        Detection::Probe(probed.len())
    } else {
        Detection::Detected(Backend::Feh)
    }
}

/// Once a success is found below `a`, looking further does not change it.
proof fn lemma_first_success_stable(probed: Seq<bool>, a: int, b: int)
    requires
        a <= b,
        first_success(probed, a) is Some,
    ensures
        first_success(probed, b) == first_success(probed, a),
    decreases b - a,
{
    if a < b {
        lemma_first_success_stable(probed, a, b - 1);
    }
}

/// Detection runs the probes in order and stops at the first program that
/// answers, selecting its backend; until then each step asks for the next
/// probe.
pub proof fn detection_stops_at_first_success(available: Seq<bool>, i: int)
    requires
        available.len() == PROBE_COUNT,
        0 <= i < PROBE_COUNT,
        available[i],
        forall|j: int| 0 <= j < i ==> !available[j],
    ensures
        forall|k: int| 0 <= k <= i ==> detection(#[trigger] available.take(k)) == Detection::Probe(
            k as usize,
        ),
        detection(available.take(i + 1)) == Detection::Detected(probe_backend(i)),
{
    assert forall|k: int| 0 <= k <= i implies detection(#[trigger] available.take(k))
        == Detection::Probe(k as usize) by {
        lemma_no_success(available.take(k), k);
    }
    let t = available.take(i + 1);
    lemma_no_success(t, i);
    assert(t[i] == available[i]);
}

proof fn lemma_no_success(s: Seq<bool>, end: int)
    requires
        0 <= end <= s.len(),
        forall|j: int| 0 <= j < end ==> !s[j],
    ensures
        first_success(s, end) is None,
    decreases end,
{
    if end > 0 {
        lemma_no_success(s, end - 1);
    }
}

/// Detection ends with feh when no program answers.
pub proof fn detection_defaults_to_feh(available: Seq<bool>)
    requires
        available.len() == PROBE_COUNT,
        forall|j: int| 0 <= j < PROBE_COUNT ==> !available[j],
    ensures
        detection(available) == Detection::Detected(Backend::Feh),
{
    lemma_no_success(available, PROBE_COUNT as int);
}

/// Detection never selects the custom backend and never answers "auto".
pub proof fn detection_is_concrete(probed: Seq<bool>)
    ensures
        detection(probed) != Detection::Detected(Backend::Auto),
        detection(probed) != Detection::Detected(Backend::Custom),
{
}


/// Detection asks the programs in the order swaymsg, hyprctl, aww,
/// gsettings, qdbus, xfconf-query, nitrogen, feh, each once, and each with
/// `--version` but hyprctl, which is asked `version`.
pub proof fn probe_order()
    ensures
        probe_program(0) == "swaymsg"@,
        probe_program(1) == "hyprctl"@,
        probe_program(2) == "aww"@,
        probe_program(3) == "gsettings"@,
        probe_program(4) == "qdbus"@,
        probe_program(5) == "xfconf-query"@,
        probe_program(6) == "nitrogen"@,
        probe_program(7) == "feh"@,
        forall|i: int, j: int|
            0 <= i < j < PROBE_COUNT ==> #[trigger] probe_program(i) != #[trigger] probe_program(j),
        forall|i: int|
            0 <= i < PROBE_COUNT ==> #[trigger] probe_argument(i) == if probe_program(i) == "hyprctl"@ {
                "version"@
            } else {
                "--version"@
            },
{
    reveal_strlit("swaymsg");
    reveal_strlit("hyprctl");
    reveal_strlit("aww");
    reveal_strlit("gsettings");
    reveal_strlit("qdbus");
    reveal_strlit("xfconf-query");
    reveal_strlit("nitrogen");
    reveal_strlit("feh");
    assert("swaymsg"@[0] != "hyprctl"@[0] && "swaymsg"@[0] != "aww"@[0] && "swaymsg"@[0] != "gsettings"@[0]
        && "swaymsg"@[0] != "qdbus"@[0] && "swaymsg"@[0] != "xfconf-query"@[0] && "swaymsg"@[0] != "nitrogen"@[0]
        && "swaymsg"@[0] != "feh"@[0]);
    assert("hyprctl"@[0] != "aww"@[0] && "hyprctl"@[0] != "gsettings"@[0] && "hyprctl"@[0] != "qdbus"@[0]
        && "hyprctl"@[0] != "xfconf-query"@[0] && "hyprctl"@[0] != "nitrogen"@[0] && "hyprctl"@[0] != "feh"@[0]);
    assert("aww"@[0] != "gsettings"@[0] && "aww"@[0] != "qdbus"@[0] && "aww"@[0] != "xfconf-query"@[0]
        && "aww"@[0] != "nitrogen"@[0] && "aww"@[0] != "feh"@[0]);
    assert("gsettings"@[0] != "qdbus"@[0] && "gsettings"@[0] != "xfconf-query"@[0] && "gsettings"@[0]
        != "nitrogen"@[0] && "gsettings"@[0] != "feh"@[0]);
    assert("qdbus"@[0] != "xfconf-query"@[0] && "qdbus"@[0] != "nitrogen"@[0] && "qdbus"@[0] != "feh"@[0]);
    assert("xfconf-query"@[0] != "nitrogen"@[0] && "xfconf-query"@[0] != "feh"@[0]);
    assert("nitrogen"@[0] != "feh"@[0]);
}

} // verus!
