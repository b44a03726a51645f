//! The extension policy: which file extensions are configured, with which
//! minimum line count, and what to do with a file whose name has no usable
//! extension. Matching is case-insensitive; keys are upper-cased.

use vstd::prelude::*;

use crate::text::{str_eq, tail_run_in, tail_run_len};

verus! {

/// One configuration entry: an upper-cased extension and its minimum line
/// count; `None` means the entry lacks an explicit count and the default of
/// two applies, with a warning owed to the user.
pub struct ExtensionRule {
    pub extension: String,
    pub min_lines: Option<usize>,
}

/// The run's configuration: the configured extension rules, read once and
/// immutable during processing.
pub struct ExtensionPolicy {
    pub rules: Vec<ExtensionRule>,
}

/// What the policy says about one file name. `Skip` means the name has no
/// usable extension and the caller deletes the file; `Unknown` means the
/// extension is not configured and the caller leaves the file untouched.
pub enum ExtensionDecision {
    Skip,
    Unknown,
    Rule { extension: String, min_lines: usize, defaulted: bool },
}

/// The extension of a file name: what follows the last dot, provided the dot
/// is neither the first character nor absent. `file.` yields the empty
/// extension; `.hidden` and `plain` yield none.
pub open spec fn spec_extension(name: Seq<char>) -> Option<Seq<char>> {
    let j = name.len() - 1 - tail_run_len(name, '.');
    if j >= 1 {
        Some(name.subrange(j + 1, name.len() as int))
    } else {
        None
    }
}

/// The name has an extension with at least one character in it.
pub open spec fn has_usable_extension(name: Seq<char>) -> bool {
    spec_extension(name) matches Some(e) && e.len() > 0
}

/// The ASCII upper-casing of one character.
pub open spec fn upper_char(c: char) -> char {
    if 97 <= c as u32 && c as u32 <= 122 {
        ((c as u32) - 32) as char
    } else {
        c
    }
}

/// The ASCII upper-casing of a string.
pub open spec fn upper_seq(s: Seq<char>) -> Seq<char> {
    s.map_values(|c: char| upper_char(c))
}

/// The upper-cased extension under which a name is looked up.
pub open spec fn upper_extension(name: Seq<char>) -> Seq<char> {
    upper_seq(spec_extension(name)->0)
}

/// The first configured rule for `key`: `None` when the extension is not
/// configured, otherwise that rule's optional minimum line count.
pub open spec fn find_rule(rules: Seq<ExtensionRule>, key: Seq<char>) -> Option<Option<usize>>
    decreases rules.len(),
{
    if rules.len() == 0 {
        None
    } else if rules[0].extension@ == key {
        Some(rules[0].min_lines)
    } else {
        find_rule(rules.drop_first(), key)
    }
}

/// Extracts the file name's extension, not yet upper-cased.
pub fn extension_of(name: &String) -> (r: Option<String>)
    ensures
        (r is Some) <==> (spec_extension(name@) is Some),
        r matches Some(e) ==> Some(e@) == spec_extension(name@),
{
    let n = name.as_str().unicode_len();
    proof {
        assert(name@.subrange(0, n as int) =~= name@);
    }
    let run = tail_run_in(name.as_str(), 0, n, '.');
    if n >= 2 && run <= n - 2 {
        // The last dot sits at n - 1 - run, past the first character.
        Some(String::from_str(name.as_str().substring_char(n - run, n)))
    } else {
        None
    }
}

/// Whether `s` upper-cases to exactly `key`.
fn matches_upper(s: &str, key: &String) -> (r: bool)
    ensures
        r == (upper_seq(s@) == key@),
{
    let n = s.unicode_len();
    let m = key.as_str().unicode_len();
    if n != m {
        return false;
    }
    let mut i: usize = 0;
    while i < n
        invariant
            0 <= i <= n,
            n == s@.len(),
            n == key@.len(),
            forall|j: int| 0 <= j < i ==> upper_char(s@[j]) == key@[j],
        decreases n - i,
    {
        let c = s.get_char(i);
        let u = c as u32;
        let uc: char = if 97 <= u && u <= 122 {
            ((u - 32) as u8) as char
        } else {
            c
        };
        proof {
            assert(uc == upper_char(c));
        }
        if uc != key.as_str().get_char(i) {
            proof {
                assert(upper_seq(s@)[i as int] == upper_char(s@[i as int]));
            }
            return false;
        }
        i = i + 1;
    }
    proof {
        assert(upper_seq(s@) =~= key@);
    }
    true
}

/// Resolves one file name against the policy: no usable extension means
/// `Skip` (the caller deletes the file); an unconfigured extension means
/// `Unknown` (the caller leaves the file and logs); a configured one yields
/// its rule, with the minimum line count defaulting to two, flagged, when
/// the entry lacks one.
pub fn classify_file(name: &String, policy: &ExtensionPolicy) -> (r: ExtensionDecision)
    ensures
        (r is Skip) <==> !has_usable_extension(name@),
        (r is Unknown) <==> (has_usable_extension(name@) && find_rule(
            policy.rules@,
            upper_extension(name@),
        ) is None),
        (r is Rule) <==> (has_usable_extension(name@) && find_rule(
            policy.rules@,
            upper_extension(name@),
        ) is Some),
        r matches ExtensionDecision::Rule { extension, min_lines, defaulted } ==> ({
            &&& extension@ == upper_extension(name@)
            &&& match find_rule(policy.rules@, upper_extension(name@)) {
                Some(Some(m)) => min_lines == m && !defaulted,
                Some(None) => min_lines == 2 && defaulted,
                None => false,
            }
        }),
{
    let ext = match extension_of(name) {
        None => {
            return ExtensionDecision::Skip;
        },
        Some(e) => e,
    };
    if ext.as_str().unicode_len() == 0 {
        return ExtensionDecision::Skip;
    }
    let ghost key = upper_extension(name@);
    proof {
        assert(spec_extension(name@) == Some(ext@));
        assert(has_usable_extension(name@));
        assert(key == upper_seq(ext@));
        assert(policy.rules@.skip(0) =~= policy.rules@);
    }
    let n = policy.rules.len();
    let mut i: usize = 0;
    while i < n
        invariant
            0 <= i <= n,
            n == policy.rules@.len(),
            has_usable_extension(name@),
            key == upper_extension(name@),
            upper_seq(ext@) == key,
            find_rule(policy.rules@, key) == find_rule(policy.rules@.skip(i as int), key),
        decreases n - i,
    {
        proof {
            assert(policy.rules@.skip(i as int)[0] == policy.rules@[i as int]);
            assert(policy.rules@.skip(i as int).drop_first() =~= policy.rules@.skip(i as int + 1));
        }
        if matches_upper(ext.as_str(), &policy.rules[i].extension) {
            let rule = &policy.rules[i];
            let extension = rule.extension.clone();
            proof {
                assert(find_rule(policy.rules@.skip(i as int), key) == Some(
                    policy.rules@[i as int].min_lines,
                ));
            }
            return match rule.min_lines {
                Some(m) => ExtensionDecision::Rule { extension, min_lines: m, defaulted: false },
                None => ExtensionDecision::Rule { extension, min_lines: 2, defaulted: true },
            };
        }
        i = i + 1;
    }
    proof {
        assert(policy.rules@.skip(i as int) =~= Seq::<ExtensionRule>::empty());
    }
    ExtensionDecision::Unknown
}

/// Whether an upper-cased extension names the designated timestamped format.
pub fn is_special_format(extension: &String) -> (r: bool)
    ensures
        r == (extension@ == "OSC"@),
{
    str_eq(extension.as_str(), "OSC")
}

} // verus!
