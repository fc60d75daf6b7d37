use vstd::prelude::*;

use crate::config::{texts_of, PrivacyConfig};
use crate::text::{eq_ignore_ascii_case, same_ignoring_case, split_on, text_of};

verus! {

/// The name of a program given the path of its file: what follows the
/// last backslash, or the whole path where there is none.
pub open spec fn name_in_path(path: Seq<char>) -> Seq<char> {
    split_on(path, '\\').last()
}

/// Whether a program is one before which the overlay falls silent: the
/// privacy filter is on and its list names the program, in whatever case.
pub open spec fn blocks(config: PrivacyConfig, program: Seq<char>) -> bool {
    config.enabled && exists|i: int|
        0 <= i < config.blocked_apps@.len() && same_ignoring_case(
            #[trigger] texts_of(config.blocked_apps@)[i],
            program,
        )
}

/// The name of a program given the path of its file.
pub fn process_name(path: &str) -> (name: String)
    ensures
        name@ == name_in_path(path@),
{
    let mut part: Vec<char> = Vec::new();
    let ghost mut parts: Seq<Seq<char>> = Seq::empty();
    for c in it: path.chars()
        invariant
            it.seq() == path@,
            split_on(path@.subrange(0, it.index() as int), '\\') == parts.push(part@),
    {
        proof {
            let upto = path@.subrange(0, it.index() + 1);
            assert(upto.drop_last() == path@.subrange(0, it.index() as int));
            assert(upto.last() == c);
            assert(parts.push(part@).drop_last() == parts);
            assert(parts.push(part@).last() == part@);
        }
        if c == '\\' {
            proof {
                parts = parts.push(part@);
            }
            part = Vec::new();
        } else {
            part.push(c);
        }
    }
    proof {
        assert(path@.subrange(0, path@.len() as int) == path@);
        assert(parts.push(part@).last() == part@);
    }
    text_of(&part)
}

/// Whether the program in the foreground, if it is known, is one before
/// which the overlay falls silent.
pub fn is_privacy_target(config: &PrivacyConfig, foreground: Option<&str>) -> (silent: bool)
    ensures
        silent == match foreground {
            Some(program) => blocks(*config, program@),
            None => false,
        },
{
    if !config.enabled || config.blocked_apps.len() == 0 {
        return false;
    }
    let program = match foreground {
        Some(program) => program,
        None => {
            return false;
        },
    };
    let mut i: usize = 0;
    while i < config.blocked_apps.len()
        invariant
            config.enabled,
            foreground == Some(program),
            i <= config.blocked_apps@.len(),
            forall|j: int|
                0 <= j < i ==> !same_ignoring_case(
                    #[trigger] texts_of(config.blocked_apps@)[j],
                    program@,
                ),
        decreases config.blocked_apps@.len() - i,
    {
        if eq_ignore_ascii_case(config.blocked_apps[i].as_str(), program) {
            assert(same_ignoring_case(texts_of(config.blocked_apps@)[i as int], program@));
            return true;
        }
        i += 1;
    }
    false
}

} // verus!
