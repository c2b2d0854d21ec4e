use vstd::prelude::*;
use crate::text::{contains_str, seq_contains, str_equal, views};

verus! {

/// The formats a configuration file can have.
#[derive(Debug, Clone, Copy, PartialEq, Eq, Structural)]
pub enum ConfigFormat {
    Yaml,
    Toml,
    /// A `pyproject.toml`, with the configuration under `[tool.dbtective]`.
    Pyproject,
}

pub open spec fn has_suffix(s: Seq<char>, suffix: Seq<char>) -> bool {
    s.len() >= suffix.len() && s.subrange(s.len() - suffix.len(), s.len() as int) == suffix
}

/// The format of a configuration file, by its name.
pub open spec fn format_of(file_name: Seq<char>) -> Option<ConfigFormat> {
    if file_name == "pyproject.toml"@ {
        Some(ConfigFormat::Pyproject)
    } else if has_suffix(file_name, ".yml"@) || has_suffix(file_name, ".yaml"@) {
        Some(ConfigFormat::Yaml)
    } else if has_suffix(file_name, ".toml"@) {
        Some(ConfigFormat::Toml)
    } else {
        None
    }
}

pub fn ends_with(s: &str, suffix: &str) -> (r: bool)
    ensures
        r == has_suffix(s@, suffix@),
{
    let n = s.unicode_len();
    let m = suffix.unicode_len();
    if n < m {
        return false;
    }
    str_equal(s.substring_char(n - m, n), suffix)
}

impl ConfigFormat {
    /// Detects the format of a configuration file from its name; `None` for
    /// an unsupported one.
    pub fn detect(file_name: &str) -> (r: Option<ConfigFormat>)
        ensures
            r == format_of(file_name@),
    {
        if str_equal(file_name, "pyproject.toml") {
            Some(ConfigFormat::Pyproject)
        } else if ends_with(file_name, ".yml") || ends_with(file_name, ".yaml") {
            Some(ConfigFormat::Yaml)
        } else if ends_with(file_name, ".toml") {
            Some(ConfigFormat::Toml)
        } else {
            None
        }
    }
}

/// The configuration file names looked for, most preferred first.
pub open spec fn config_candidates() -> Seq<Seq<char>> {
    seq!["dbtective.yml"@, "dbtective.yaml"@, "dbtective.toml"@, "pyproject.toml"@]
}

/// The first candidate, in order of preference, that is among `found`.
pub open spec fn preferred_config(found: Seq<Seq<char>>, candidates: Seq<Seq<char>>) -> Option<Seq<char>>
    decreases candidates.len(),
{
    if candidates.len() == 0 {
        None
    } else if seq_contains(found, candidates[0]) {
        Some(candidates[0])
    } else {
        preferred_config(found, candidates.skip(1))
    }
}

/// Chooses the configuration file among the names found in a directory:
/// YAML before TOML before `pyproject.toml`.
pub fn choose_config_file(found: &Vec<String>) -> (r: Option<String>)
    ensures
        match preferred_config(views(found@), config_candidates()) {
            Some(c) => r matches Some(s) && s@ == c,
            None => r is None,
        },
{
    let candidates = ["dbtective.yml", "dbtective.yaml", "dbtective.toml", "pyproject.toml"];
    let ghost cs = config_candidates();
    let mut i: usize = 0;
    proof {
        assert(cs.skip(0) =~= cs);
    }
    while i < 4
        invariant
            i <= 4,
            cs == config_candidates(),
            forall|k: int| 0 <= k < 4 ==> #[trigger] candidates[k]@ == cs[k],
            preferred_config(views(found@), cs) == preferred_config(views(found@), cs.skip(i as int)),
        decreases 4 - i,
    {
        let c = candidates[i];
        if contains_str(found, c) {
            return Some(String::from_str(c));
        }
        proof {
            assert(cs.skip(i as int).skip(1) =~= cs.skip(i + 1));
        }
        i += 1;
    }
    None
}

} // verus!
