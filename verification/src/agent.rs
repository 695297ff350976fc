use vstd::prelude::*;
use vstd::string::StringExecFns;

use crate::config::control::ControlConfig;
use crate::control::{ControlError, CyclicController, TimeBasedController};
use crate::text::{chars_of, string_from_chars};

verus! {

/// The text of `s` up to its first `sep`, or all of `s` where it holds none.
pub open spec fn before_first(s: Seq<char>, sep: char) -> Seq<char> {
    if exists|i: int| 0 <= i < s.len() && s[i] == sep {
        let i = choose|i: int| 0 <= i < s.len() && s[i] == sep && forall|j: int| 0 <= j < i ==> s[j] != sep;
        s.take(i)
    } else {
        s
    }
}

/// The first directory of a list is a prefix of the list that holds no
/// separator, and it is the whole list exactly where the list holds none.
pub proof fn lemma_first_dir_is_separator_free_prefix(s: Seq<char>, sep: char)
    ensures
        before_first(s, sep).len() <= s.len(),
        before_first(s, sep) == s.take(before_first(s, sep).len() as int),
        forall|j: int| 0 <= j < before_first(s, sep).len() ==> before_first(s, sep)[j] != sep,
        (before_first(s, sep) == s) <==> !s.contains(sep),
{
    if exists|i: int| 0 <= i < s.len() && s[i] == sep {
        let w = choose|i: int| 0 <= i < s.len() && s[i] == sep;
        lemma_first_index_exists(s, sep, w);
        let i = choose|i: int| 0 <= i < s.len() && s[i] == sep && forall|j: int| 0 <= j < i ==> s[j] != sep;
        assert(s.contains(sep));
        assert(before_first(s, sep).len() == i);
        assert(before_first(s, sep) != s);
    } else {
        assert(s.take(s.len() as int) =~= s);
        assert(!s.contains(sep));
    }
}

/// Where `sep` occurs in `s`, there is a first occurrence.
proof fn lemma_first_index_exists(s: Seq<char>, sep: char, w: int)
    requires
        0 <= w < s.len(),
        s[w] == sep,
    ensures
        exists|i: int| 0 <= i < s.len() && s[i] == sep && forall|j: int| 0 <= j < i ==> s[j] != sep,
    decreases w,
{
    if exists|j: int| 0 <= j < w && s[j] == sep {
        let j = choose|j: int| 0 <= j < w && s[j] == sep;
        lemma_first_index_exists(s, sep, j);
    } else {
        assert(forall|j: int| 0 <= j < w ==> s[j] != sep);
    }
}

/// The first directory of a colon separated list of directories, as systemd
/// hands them over in `STATE_DIRECTORY` and `CONFIGURATION_DIRECTORY`.
pub fn first_systemd_dir(dirs: &str) -> (r: String)
    ensures
        r@ == before_first(dirs@, ':'),
{
    let chars = chars_of(dirs);
    let mut prefix: Vec<char> = Vec::new();
    let mut i: usize = 0;
    while i < chars.len() && chars[i] != ':'
        invariant
            chars@ == dirs@,
            i <= chars.len(),
            prefix@ == chars@.take(i as int),
            forall|j: int| 0 <= j < i ==> chars@[j] != ':',
        decreases chars.len() - i,
    {
        prefix.push(chars[i]);
        i = i + 1;
    }
    proof {
        if i < chars.len() {
            let s = dirs@;
            assert(s[i as int] == ':');
            let k = choose|k: int| 0 <= k < s.len() && s[k] == ':' && forall|j: int| 0 <= j < k ==> s[j] != ':';
            if k < i {
                assert(chars@[k] != ':');
            }
            if k > i {
                assert(s[i as int] != ':');
            }
            assert(k == i);
        } else {
            assert(prefix@ =~= dirs@);
        }
    }
    string_from_chars(&prefix)
}

/// The path of the configuration file in the configuration directory.
pub fn config_file_path(config_dir: &str) -> (r: String)
    ensures
        r@ == config_dir@ + "/config.json"@,
{
    config_dir.to_owned().concat("/config.json")
}

/// The URL of the sqlite database that holds the measurements of one grow.
pub fn store_url(state_dir: &str, grow_id: &str) -> (r: String)
    ensures
        r@ == "sqlite://"@ + state_dir@ + "/"@ + grow_id@ + ".sqlite3"@,
{
    "sqlite://".to_owned().concat(state_dir).concat("/").concat(grow_id).concat(".sqlite3")
}

/// The controller that a control configuration asks for, before any GPIO
/// line is requested.
#[derive(Debug, Clone, Copy, PartialEq, Eq)]
pub enum ControllerPlan {
    /// Switch `pin` cyclically.
    Cyclic { pin: u32, cyclic: CyclicController },
    /// Switch `pin` by the clock.
    TimeBased { pin: u32, time_based: TimeBasedController },
}

/// The controller to set up for `config`: none where control is off, an
/// error where feedback control is asked for (no subject supports it here) or
/// where a time based controller would switch at one and the same time.
pub fn init_controller(config: &ControlConfig) -> (r: Result<Option<ControllerPlan>, ControlError>)
    ensures
        *config is Off ==> r == Ok::<Option<ControllerPlan>, ControlError>(None),
        *config is Feedback ==> r == Err::<Option<ControllerPlan>, ControlError>(
            ControlError::FeedbackUnsupported,
        ),
        *config matches ControlConfig::Cyclic { pin, on_duration, off_duration } ==> r == Ok::<
            Option<ControllerPlan>,
            ControlError,
        >(
            Some(
                ControllerPlan::Cyclic {
                    pin,
                    cyclic: CyclicController { on_duration, off_duration },
                },
            ),
        ),
        *config matches ControlConfig::TimeBased { pin, activate_time, deactivate_time } ==> {
            &&& r is Err <==> activate_time@ == deactivate_time@
            &&& r matches Err(e) ==> e == ControlError::EqualSwitchTimes
            &&& r matches Ok(p) ==> p matches Some(ControllerPlan::TimeBased { pin: q, time_based })
                && q == pin && time_based@.activate == activate_time@ && time_based@.deactivate
                == deactivate_time@
        },
{
    match config {
        ControlConfig::Off => Ok(None),
        ControlConfig::Cyclic { pin, on_duration, off_duration } => Ok(
            Some(
                ControllerPlan::Cyclic {
                    pin: *pin,
                    cyclic: CyclicController::new(*on_duration, *off_duration),
                },
            ),
        ),
        ControlConfig::TimeBased { pin, activate_time, deactivate_time } => {
            let controller = TimeBasedController::new(*activate_time, *deactivate_time)?;
            Ok(Some(ControllerPlan::TimeBased { pin: *pin, time_based: controller }))
        },
        ControlConfig::Feedback { .. } => Err(ControlError::FeedbackUnsupported),
    }
}

} // verus!
